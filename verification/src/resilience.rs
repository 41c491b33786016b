//! Classifiers of database error messages: which failures mean that the
//! connection is gone, and which mean that no namespace was selected; and
//! the recovery text and time limit that go with them.
use vstd::prelude::*;
use crate::text::{
    is_white, all_ascii, ascii_lower_of,
    ascii_upper_of, chars_of, has_prefix, has_substring, lowercase_of, parse_u64, parse_u64_of,
    replace_all, str_contains, str_replace, to_lowercase, trim_chars, trim_of,
    trim_start_of, ascii_upper_chars, trim_start_chars, occurs_at_exec, push_str,
};

verus! {

/// The lower-case fragments whose presence marks a connection-level failure.
pub open spec fn dead_connection_markers() -> Seq<Seq<char>> {
    seq![
        "query timeout"@,
        "send_error"@,
        "senderror"@,
        "io error"@,
        "websocket"@,
        "channel closed"@,
        "channel error"@,
        "connection"@,
        "disconnect"@,
        "broken pipe"@,
    ]
}

/// A message marks a dead connection when its lower-case form contains one
/// of the markers.
pub open spec fn marks_dead_connection(msg: Seq<char>) -> bool {
    exists|i: int|
        0 <= i < dead_connection_markers().len() && has_substring(
            lowercase_of(msg),
            #[trigger] dead_connection_markers()[i],
        )
}

/// For ASCII text: the message marks a dead connection when its ASCII
/// lower-case form contains one of the markers.
pub open spec fn marks_dead_connection_ascii(msg: Seq<char>) -> bool {
    exists|i: int|
        0 <= i < dead_connection_markers().len() && has_substring(
            ascii_lower_of(msg),
            #[trigger] dead_connection_markers()[i],
        )
}

/// Whether an error message says that the connection itself failed
/// (time-out, WebSocket, I/O, closed channel, connection or disconnect,
/// broken pipe), as opposed to an error of the query.
pub fn is_connection_dead(msg: &str) -> (r: bool)
    ensures
        r == marks_dead_connection(msg@),
        all_ascii(msg@) ==> r == marks_dead_connection_ascii(msg@),
{
    let lower = to_lowercase(msg);
    let l = lower.as_str();
    let hit = str_contains(l, "query timeout") || str_contains(l, "send_error") || str_contains(
        l,
        "senderror",
    ) || str_contains(l, "io error") || str_contains(l, "websocket") || str_contains(
        l,
        "channel closed",
    ) || str_contains(l, "channel error") || str_contains(l, "connection") || str_contains(
        l,
        "disconnect",
    ) || str_contains(l, "broken pipe");
    proof {
        let m = dead_connection_markers();
        let lv = lowercase_of(msg@);
        if hit {
            if has_substring(lv, "query timeout"@) {
                assert(has_substring(lv, m[0]));
            } else if has_substring(lv, "send_error"@) {
                assert(has_substring(lv, m[1]));
            } else if has_substring(lv, "senderror"@) {
                assert(has_substring(lv, m[2]));
            } else if has_substring(lv, "io error"@) {
                assert(has_substring(lv, m[3]));
            } else if has_substring(lv, "websocket"@) {
                assert(has_substring(lv, m[4]));
            } else if has_substring(lv, "channel closed"@) {
                assert(has_substring(lv, m[5]));
            } else if has_substring(lv, "channel error"@) {
                assert(has_substring(lv, m[6]));
            } else if has_substring(lv, "connection"@) {
                assert(has_substring(lv, m[7]));
            } else if has_substring(lv, "disconnect"@) {
                assert(has_substring(lv, m[8]));
            } else {
                assert(has_substring(lv, m[9]));
            }
        } else {
            assert forall|i: int| 0 <= i < m.len() implies !has_substring(lv, #[trigger] m[i]) by {
                if i == 0 {
                } else if i == 1 {
                } else if i == 2 {
                } else if i == 3 {
                } else if i == 4 {
                } else if i == 5 {
                } else if i == 6 {
                } else if i == 7 {
                } else if i == 8 {
                } else {
                }
            }
        }
    }
    hit
}

/// The dead-connection classes, one by one: a message is taken for a dead
/// connection exactly when its lower-case form mentions a query time-out,
/// a send error (`send_error` or `senderror`), an I/O error, a WebSocket, a
/// closed channel, a channel error, a connection, a disconnect or a broken
/// pipe; any other message is an error of the query.
pub proof fn lemma_dead_connection_classes(msg: Seq<char>)
    ensures
        marks_dead_connection(msg) <==> {
            let l = lowercase_of(msg);
            ||| has_substring(l, "query timeout"@)
            ||| has_substring(l, "send_error"@)
            ||| has_substring(l, "senderror"@)
            ||| has_substring(l, "io error"@)
            ||| has_substring(l, "websocket"@)
            ||| has_substring(l, "channel closed"@)
            ||| has_substring(l, "channel error"@)
            ||| has_substring(l, "connection"@)
            ||| has_substring(l, "disconnect"@)
            ||| has_substring(l, "broken pipe"@)
        },
{
    let m = dead_connection_markers();
    let l = lowercase_of(msg);
    assert(m[0] == "query timeout"@);
    assert(m[1] == "send_error"@);
    assert(m[2] == "senderror"@);
    assert(m[3] == "io error"@);
    assert(m[4] == "websocket"@);
    assert(m[5] == "channel closed"@);
    assert(m[6] == "channel error"@);
    assert(m[7] == "connection"@);
    assert(m[8] == "disconnect"@);
    assert(m[9] == "broken pipe"@);
    assert(m.len() == 10);
    if marks_dead_connection(msg) {
        let i = choose|i: int| 0 <= i < m.len() && has_substring(l, #[trigger] m[i]);
        assert(0 <= i < 10);
    }
}

/// A message says that no namespace was selected.
pub open spec fn marks_namespace_empty(msg: Seq<char>) -> bool {
    has_substring(msg, "Specify a namespace to use"@) || has_substring(msg, "NamespaceEmpty"@)
}

/// Whether an error message says that no namespace was selected.
pub fn is_namespace_empty_error(msg: &str) -> (r: bool)
    ensures
        r == marks_namespace_empty(msg@),
{
    str_contains(msg, "Specify a namespace to use") || str_contains(msg, "NamespaceEmpty")
}

/// A name with every back-quote escaped by a back-slash.
pub open spec fn escape_ticks(s: Seq<char>) -> Seq<char> {
    replace_all(s, "`"@, "\\`"@)
}

/// The statement `sql` behind a `USE NS .. DB ..;` line for the namespace
/// `ns` and the database `db`; none when `sql` already starts with
/// `USE NS ` (in any letter case, after leading whitespace) or when either
/// escaped name is blank.
pub open spec fn namespace_prefixed(sql: Seq<char>, ns: Seq<char>, db: Seq<char>) -> Option<
    Seq<char>,
> {
    if has_prefix(ascii_upper_of(trim_start_of(sql)), "USE NS "@) {
        None
    } else if trim_of(escape_ticks(ns)).len() == 0 || trim_of(escape_ticks(db)).len() == 0 {
        None
    } else {
        Some(
            "USE NS `"@ + escape_ticks(ns) + "` DB `"@ + escape_ticks(db) + "`;\n"@ + sql,
        )
    }
}

/// Puts a namespace selection in front of `sql`, for a retry after a
/// "no namespace" error. `ns` and `db` are the configured namespace and
/// database names.
pub fn namespace_prefixed_sql(sql: &str, ns: &str, db: &str) -> (r: Option<String>)
    ensures
        r matches Some(t) ==> namespace_prefixed(sql@, ns@, db@) == Some(t@),
        r is None ==> namespace_prefixed(sql@, ns@, db@) is None,
{
    let sv = chars_of(sql);
    let trimmed = trim_start_chars(&sv);
    let upper = ascii_upper_chars(&trimmed);
    let marker = chars_of("USE NS ");
    if occurs_at_exec(&upper, &marker, 0) {
        return None;
    }
    proof {
        reveal_strlit("`");
    }
    let ns_esc = str_replace(ns, "`", "\\`");
    let db_esc = str_replace(db, "`", "\\`");
    let ns_trim = trim_chars(&chars_of(ns_esc.as_str()));
    let db_trim = trim_chars(&chars_of(db_esc.as_str()));
    if ns_trim.len() == 0 || db_trim.len() == 0 {
        return None;
    }
    let mut out = String::new();
    push_str(&mut out, "USE NS `");
    push_str(&mut out, ns_esc.as_str());
    push_str(&mut out, "` DB `");
    push_str(&mut out, db_esc.as_str());
    push_str(&mut out, "`;\n");
    push_str(&mut out, sql);
    Some(out)
}

/// Query time limit, in milliseconds, when none is configured.
pub const QUERY_TIMEOUT_DEFAULT_MS: u64 = 30000;

/// The configured time limit: the trimmed setting read as a positive
/// decimal, else the default.
pub open spec fn query_timeout_of(raw: Option<Seq<char>>) -> u64 {
    match raw {
        Some(t) => match parse_u64_of(trim_of(t)) {
            Some(ms) => if ms > 0 {
                ms
            } else {
                QUERY_TIMEOUT_DEFAULT_MS
            },
            None => QUERY_TIMEOUT_DEFAULT_MS,
        },
        None => QUERY_TIMEOUT_DEFAULT_MS,
    }
}

/// The query time limit in milliseconds for the setting `raw` (the value of
/// the time-out variable, if it is set).
pub fn resolve_query_timeout(raw: Option<&str>) -> (ms: u64)
    ensures
        ms == query_timeout_of(
            match raw {
                Some(t) => Some(t@),
                None => None,
            },
        ),
{
    match raw {
        Some(t) => {
            let tv = trim_chars(&chars_of(t));
            match parse_u64(&tv) {
                Some(ms) => if ms > 0 {
                    ms
                } else {
                    QUERY_TIMEOUT_DEFAULT_MS
                },
                None => QUERY_TIMEOUT_DEFAULT_MS,
            }
        },
        None => QUERY_TIMEOUT_DEFAULT_MS,
    }
}

/// The query time limit is never zero: an unset, unreadable or zero
/// setting gives the default of thirty seconds, and a positive decimal
/// setting (spaces around it ignored) gives itself.
pub proof fn lemma_query_timeout_positive(raw: Option<Seq<char>>)
    ensures
        query_timeout_of(raw) > 0,
        match raw {
            Some(t) => match parse_u64_of(trim_of(t)) {
                Some(ms) => query_timeout_of(raw) == if ms > 0 {
                    ms
                } else {
                    30000u64
                },
                None => query_timeout_of(raw) == 30000,
            },
            None => query_timeout_of(raw) == 30000,
        },
{
}

/// A statement that already carries a namespace selection is never
/// prefixed again, whatever the names.
pub proof fn lemma_prefix_once(sql: Seq<char>, ns: Seq<char>, db: Seq<char>, ns2: Seq<char>, db2: Seq<char>)
    requires
        namespace_prefixed(sql, ns, db) is Some,
    ensures
        namespace_prefixed(namespace_prefixed(sql, ns, db)->0, ns2, db2) is None,
{
    let r = namespace_prefixed(sql, ns, db)->0;
    let rest = escape_ticks(ns) + "` DB `"@ + escape_ticks(db) + "`;\n"@ + sql;
    reveal_strlit("USE NS `");
    reveal_strlit("USE NS ");
    assert(r =~= "USE NS `"@ + rest);
    assert(r[0] == 'U');
    assert(!is_white(r[0]));
    assert(trim_start_of(r) == r);
    let up = ascii_upper_of(r);
    assert(up.subrange(0, 7) =~= "USE NS "@) by {
        assert forall|i: int| 0 <= i < 7 implies up.subrange(0, 7)[i] == "USE NS "@[i] by {
            assert(r[i] == "USE NS `"@[i]);
        }
    }
}

} // verus!
