//! Character-level text primitives on which the query builders and the
//! classifiers rest: character access, string building, substring search,
//! splitting, trimming, replacing and decimal conversion.
//!
//! Every operation is stated over the `Seq<char>` view of a string.
use vstd::prelude::*;
use vstd::string::*;

verus! {

// ---------------------------------------------------------------------------
// Specifications
// ---------------------------------------------------------------------------
/// `pat` occurs in `s` starting at index `i`.
pub open spec fn occurs_at(s: Seq<char>, pat: Seq<char>, i: int) -> bool {
    &&& 0 <= i
    &&& i + pat.len() <= s.len()
    &&& s.subrange(i, i + pat.len()) == pat
}

/// `pat` is a contiguous part of `s` (what `str::contains` decides).
pub open spec fn has_substring(s: Seq<char>, pat: Seq<char>) -> bool {
    exists|i: int| occurs_at(s, pat, i)
}

/// `s` begins with `pat` (what `str::starts_with` decides).
pub open spec fn has_prefix(s: Seq<char>, pat: Seq<char>) -> bool {
    occurs_at(s, pat, 0)
}

// ---------------------------------------------------------------------------
// Character access and string building
// ---------------------------------------------------------------------------
/// The characters of `s`, in order.
pub fn chars_of(s: &str) -> (v: Vec<char>)
    ensures
        v@ == s@,
{
    let mut v: Vec<char> = Vec::new();
    for c in it: s.chars()
        invariant
            it.seq() == s@,
            v@ == it.seq().take(it.index() as int),
    {
        v.push(c);
        assert(it.seq().take(it.index() + 1) == it.seq().take(it.index() as int).push(c));
    }
    v
}

/// Appends one character to a string.
///
/// Calls `String::push`, whose documentation states that it appends the
/// given character to the end of the string; this is what the contract claims.
#[verifier::external_body]
pub(crate) fn push_char(s: &mut String, c: char)
    ensures
        final(s)@ == old(s)@.push(c),
{
    s.push(c);
}

/// Appends a string slice.
pub fn push_str(s: &mut String, t: &str)
    ensures
        final(s)@ == old(s)@ + t@,
{
    s.append(t);
}

/// The string made of the characters of `v`.
pub fn string_of(v: &Vec<char>) -> (s: String)
    ensures
        s@ == v@,
{
    let mut s = String::new();
    let mut i: usize = 0;
    while i < v.len()
        invariant
            i <= v.len(),
            s@ == v@.take(i as int),
        decreases v.len() - i,
    {
        push_char(&mut s, v[i]);
        assert(v@.take(i + 1) == v@.take(i as int).push(v@[i as int]));
        i = i + 1;
    }
    assert(v@.take(v.len() as int) == v@);
    s
}

/// An owned copy of a string slice.
pub fn owned(t: &str) -> (s: String)
    ensures
        s@ == t@,
{
    let mut s = String::new();
    push_str(&mut s, t);
    s
}

// ---------------------------------------------------------------------------
// Searching
// ---------------------------------------------------------------------------
/// Whether `pat` occurs in `s` at index `i`.
pub fn occurs_at_exec(s: &Vec<char>, pat: &Vec<char>, i: usize) -> (r: bool)
    ensures
        r == occurs_at(s@, pat@, i as int),
{
    if pat.len() > s.len() || i > s.len() - pat.len() {
        return false;
    }
    let mut j: usize = 0;
    while j < pat.len()
        invariant
            j <= pat.len(),
            i + pat.len() <= s.len(),
            forall|k: int| 0 <= k < j ==> s@[i + k] == pat@[k],
        decreases pat.len() - j,
    {
        if s[i + j] != pat[j] {
            assert(s@.subrange(i as int, i + pat.len())[j as int] != pat@[j as int]);
            return false;
        }
        j = j + 1;
    }
    assert(s@.subrange(i as int, i + pat.len()) =~= pat@);
    true
}

/// Whether `pat` occurs anywhere in `s`.
pub fn contains_chars(s: &Vec<char>, pat: &Vec<char>) -> (r: bool)
    ensures
        r == has_substring(s@, pat@),
{
    if pat.len() > s.len() {
        return false;
    }
    let last = s.len() - pat.len();
    let mut i: usize = 0;
    while i < last
        invariant
            i <= last,
            last + pat.len() == s.len(),
            forall|k: int| 0 <= k < i ==> !occurs_at(s@, pat@, k),
        decreases last - i,
    {
        if occurs_at_exec(s, pat, i) {
            return true;
        }
        i = i + 1;
    }
    if occurs_at_exec(s, pat, last) {
        return true;
    }
    assert forall|k: int| !occurs_at(s@, pat@, k) by {
        if 0 <= k < last {
        }
    }
    false
}

/// `str::contains` on the views: whether `pat` occurs in `s`.
pub fn str_contains(s: &str, pat: &str) -> (r: bool)
    ensures
        r == has_substring(s@, pat@),
{
    let sv = chars_of(s);
    let pv = chars_of(pat);
    contains_chars(&sv, &pv)
}

/// Whether two strings hold the same characters.
pub fn str_equal(a: &str, b: &str) -> (r: bool)
    ensures
        r == (a@ == b@),
{
    let av = chars_of(a);
    let bv = chars_of(b);
    if av.len() != bv.len() {
        return false;
    }
    let r = occurs_at_exec(&av, &bv, 0);
    assert(av@.subrange(0, bv@.len() as int) =~= av@);
    r
}

/// `str::starts_with` on the views.
pub fn str_starts_with(s: &str, pat: &str) -> (r: bool)
    ensures
        r == has_prefix(s@, pat@),
{
    let sv = chars_of(s);
    let pv = chars_of(pat);
    occurs_at_exec(&sv, &pv, 0)
}


// ---------------------------------------------------------------------------
// Splitting
// ---------------------------------------------------------------------------
/// The pieces of `s` between occurrences of `sep`, in order, as
/// `str::split` with a character pattern yields them: there is always at
/// least one piece, and `k` separators give `k + 1` pieces.
pub open spec fn split_on(s: Seq<char>, sep: char) -> Seq<Seq<char>>
    decreases s.len(),
{
    if s.len() == 0 {
        seq![Seq::<char>::empty()]
    } else {
        let rest = split_on(s.drop_last(), sep);
        if s.last() == sep {
            rest.push(Seq::<char>::empty())
        } else {
            rest.update(rest.len() - 1, rest.last().push(s.last()))
        }
    }
}

/// A split always has at least one piece.
pub proof fn lemma_split_nonempty(s: Seq<char>, sep: char)
    ensures
        split_on(s, sep).len() >= 1,
    decreases s.len(),
{
    if s.len() > 0 {
        lemma_split_nonempty(s.drop_last(), sep);
    }
}

/// The pieces of `s` separated by `sep`.
pub fn split_chars(s: &Vec<char>, sep: char) -> (parts: Vec<Vec<char>>)
    ensures
        parts.deep_view() == split_on(s@, sep),
{
    let mut done: Vec<Vec<char>> = Vec::new();
    let mut cur: Vec<char> = Vec::new();
    let mut i: usize = 0;
    assert(s@.take(0) =~= Seq::<char>::empty());
    while i < s.len()
        invariant
            i <= s.len(),
            done.deep_view().push(cur@) == split_on(s@.take(i as int), sep),
        decreases s.len() - i,
    {
        let c = s[i];
        let ghost pre = s@.take(i as int);
        assert(s@.take(i + 1).drop_last() =~= pre);
        assert(s@.take(i + 1).last() == c);
        if c == sep {
            let ghost old_done = done.deep_view();
            let ghost cur_view = cur@;
            assert(cur.deep_view() =~= cur@);
            done.push(cur);
            cur = Vec::new();
            assert(done.deep_view() =~= old_done.push(cur_view));
            assert(done.deep_view().push(cur@) =~= split_on(s@.take(i + 1), sep));
        } else {
            let ghost old_cur = cur@;
            cur.push(c);
            assert(done.deep_view().push(cur@) =~= split_on(s@.take(i + 1), sep));
        }
        i = i + 1;
    }
    assert(s@.take(s.len() as int) =~= s@);
    let ghost old_done = done.deep_view();
    let ghost cur_view = cur@;
    assert(cur.deep_view() =~= cur@);
    done.push(cur);
    assert(done.deep_view() =~= old_done.push(cur_view));
    done
}

// ---------------------------------------------------------------------------
// Whitespace and trimming
// ---------------------------------------------------------------------------
/// The Unicode `White_Space` characters, which `char::is_whitespace` accepts.
pub open spec fn is_white(c: char) -> bool {
    let u = c as u32;
    ||| 0x09 <= u <= 0x0d
    ||| u == 0x20
    ||| u == 0x85
    ||| u == 0xa0
    ||| u == 0x1680
    ||| 0x2000 <= u <= 0x200a
    ||| u == 0x2028
    ||| u == 0x2029
    ||| u == 0x202f
    ||| u == 0x205f
    ||| u == 0x3000
}

/// `s` without its leading whitespace.
pub open spec fn trim_start_of(s: Seq<char>) -> Seq<char>
    decreases s.len(),
{
    if s.len() > 0 && is_white(s[0]) {
        trim_start_of(s.drop_first())
    } else {
        s
    }
}

/// `s` without its trailing whitespace.
pub open spec fn trim_end_of(s: Seq<char>) -> Seq<char>
    decreases s.len(),
{
    if s.len() > 0 && is_white(s.last()) {
        trim_end_of(s.drop_last())
    } else {
        s
    }
}

/// `s` without leading and trailing whitespace (what `str::trim` yields).
pub open spec fn trim_of(s: Seq<char>) -> Seq<char> {
    trim_end_of(trim_start_of(s))
}

/// Whether `c` is whitespace.
pub fn is_white_exec(c: char) -> (r: bool)
    ensures
        r == is_white(c),
{
    let u = c as u32;
    (0x09 <= u && u <= 0x0d) || u == 0x20 || u == 0x85 || u == 0xa0 || u == 0x1680 || (0x2000
        <= u && u <= 0x200a) || u == 0x2028 || u == 0x2029 || u == 0x202f || u == 0x205f || u
        == 0x3000
}

/// The characters of `s` without leading whitespace.
pub fn trim_start_chars(s: &Vec<char>) -> (r: Vec<char>)
    ensures
        r@ == trim_start_of(s@),
{
    let mut i: usize = 0;
    assert(s@.skip(0) =~= s@);
    while i < s.len() && is_white_exec(s[i])
        invariant
            i <= s.len(),
            trim_start_of(s@.skip(i as int)) == trim_start_of(s@),
        decreases s.len() - i,
    {
        assert(s@.skip(i as int).drop_first() =~= s@.skip(i + 1));
        i = i + 1;
    }
    let mut r: Vec<char> = Vec::new();
    let mut j: usize = i;
    while j < s.len()
        invariant
            i <= j <= s.len(),
            r@ == s@.subrange(i as int, j as int),
        decreases s.len() - j,
    {
        r.push(s[j]);
        assert(s@.subrange(i as int, j + 1) =~= s@.subrange(i as int, j as int).push(s@[j as int]));
        j = j + 1;
    }
    assert(r@ =~= s@.skip(i as int));
    r
}

/// The characters of `s` without trailing whitespace.
pub fn trim_end_chars(s: &Vec<char>) -> (r: Vec<char>)
    ensures
        r@ == trim_end_of(s@),
{
    let mut n: usize = s.len();
    assert(s@.take(n as int) =~= s@);
    while n > 0 && is_white_exec(s[n - 1])
        invariant
            n <= s.len(),
            trim_end_of(s@.take(n as int)) == trim_end_of(s@),
        decreases n,
    {
        assert(s@.take(n as int).drop_last() =~= s@.take(n - 1));
        n = n - 1;
    }
    let mut r: Vec<char> = Vec::new();
    let mut j: usize = 0;
    while j < n
        invariant
            j <= n <= s.len(),
            r@ == s@.take(j as int),
        decreases n - j,
    {
        r.push(s[j]);
        assert(s@.take(j + 1) =~= s@.take(j as int).push(s@[j as int]));
        j = j + 1;
    }
    assert(s@.take(n as int).len() == 0 || !is_white(s@.take(n as int).last()));
    r
}

/// The characters of `s` without leading or trailing whitespace.
pub fn trim_chars(s: &Vec<char>) -> (r: Vec<char>)
    ensures
        r@ == trim_of(s@),
{
    let a = trim_start_chars(s);
    trim_end_chars(&a)
}

// ---------------------------------------------------------------------------
// Case mapping
// ---------------------------------------------------------------------------
/// `char::to_ascii_uppercase`: `a`..=`z` become `A`..=`Z`, all else stays.
pub open spec fn ascii_upper(c: char) -> char {
    if 'a' <= c <= 'z' {
        ((c as u32) - 32) as char
    } else {
        c
    }
}

/// `str::to_ascii_uppercase` on the view.
pub open spec fn ascii_upper_of(s: Seq<char>) -> Seq<char> {
    s.map_values(|c: char| ascii_upper(c))
}

/// `char::to_ascii_lowercase`: `A`..=`Z` become `a`..=`z`, all else stays.
pub open spec fn ascii_lower(c: char) -> char {
    if 'A' <= c <= 'Z' {
        ((c as u32) + 32) as char
    } else {
        c
    }
}

/// `str::to_ascii_lowercase` on the view.
pub open spec fn ascii_lower_of(s: Seq<char>) -> Seq<char> {
    s.map_values(|c: char| ascii_lower(c))
}

/// Every character of `s` is ASCII.
pub open spec fn all_ascii(s: Seq<char>) -> bool {
    forall|i: int| 0 <= i < s.len() ==> (#[trigger] s[i] as u32) < 128
}

/// The ASCII upper-case form of `s`.
pub fn ascii_upper_chars(s: &Vec<char>) -> (r: Vec<char>)
    ensures
        r@ == ascii_upper_of(s@),
{
    let mut r: Vec<char> = Vec::new();
    let mut i: usize = 0;
    while i < s.len()
        invariant
            i <= s.len(),
            r@ == ascii_upper_of(s@.take(i as int)),
        decreases s.len() - i,
    {
        let c = s[i];
        let u = if 'a' <= c && c <= 'z' {
            let code: u32 = (c as u32) - 32;
            char_of_ascii(code)
        } else {
            c
        };
        r.push(u);
        assert(ascii_upper_of(s@.take(i + 1)) =~= ascii_upper_of(s@.take(i as int)).push(u));
        i = i + 1;
    }
    assert(s@.take(s.len() as int) =~= s@);
    r
}

/// The character with the given ASCII code.
fn char_of_ascii(code: u32) -> (c: char)
    requires
        code < 128,
    ensures
        c == code as char,
{
    let b: u8 = code as u8;
    b as char
}

/// What `str::to_lowercase` returns for a string: its Unicode lower-case
/// mapping. The full mapping spans the Unicode tables and is left unnamed
/// beyond this.
pub uninterp spec fn lowercase_of(s: Seq<char>) -> Seq<char>;

/// Calls `str::to_lowercase`. Its result depends on the characters of `s`
/// alone; the contract names it `lowercase_of(s@)`. On ASCII text the
/// Unicode mapping is the ASCII one (each of `A`..=`Z` becomes its small
/// letter, every other ASCII character stays), and the contract says so.
#[verifier::external_body]
pub(crate) fn to_lowercase(s: &str) -> (r: String)
    ensures
        r@ == lowercase_of(s@),
        all_ascii(s@) ==> r@ == ascii_lower_of(s@),
{
    s.to_lowercase()
}

/// What `str::to_uppercase` returns for a string: its Unicode upper-case
/// mapping, left unnamed beyond this as the lower-case one is.
pub uninterp spec fn uppercase_of(s: Seq<char>) -> Seq<char>;

/// Calls `str::to_uppercase`. Its result depends on the characters of `s`
/// alone; the contract names it `uppercase_of(s@)`. On ASCII text the
/// Unicode mapping is the ASCII one, and the contract says so.
#[verifier::external_body]
pub(crate) fn to_uppercase(s: &str) -> (r: String)
    ensures
        r@ == uppercase_of(s@),
        all_ascii(s@) ==> r@ == ascii_upper_of(s@),
{
    s.to_uppercase()
}

// ---------------------------------------------------------------------------
// Replacing
// ---------------------------------------------------------------------------
/// `s` with every non-overlapping occurrence of `pat`, taken from left to
/// right, replaced by `rep` (what `str::replace` yields for a non-empty
/// pattern).
pub open spec fn replace_all(s: Seq<char>, pat: Seq<char>, rep: Seq<char>) -> Seq<char>
    decreases s.len(),
{
    if pat.len() == 0 || s.len() == 0 {
        s
    } else if has_prefix(s, pat) {
        rep + replace_all(s.skip(pat.len() as int), pat, rep)
    } else {
        seq![s[0]] + replace_all(s.drop_first(), pat, rep)
    }
}

/// Replaces every occurrence of `pat` in `s` by `rep`.
pub fn replace_chars(s: &Vec<char>, pat: &Vec<char>, rep: &Vec<char>) -> (r: Vec<char>)
    requires
        pat.len() > 0,
    ensures
        r@ == replace_all(s@, pat@, rep@),
{
    let mut out: Vec<char> = Vec::new();
    let mut i: usize = 0;
    assert(s@.skip(0) =~= s@);
    while i < s.len()
        invariant
            i <= s.len(),
            pat.len() > 0,
            out@ + replace_all(s@.skip(i as int), pat@, rep@) == replace_all(s@, pat@, rep@),
        decreases s.len() - i,
    {
        let ghost rest = s@.skip(i as int);
        let hit = occurs_at_exec(s, pat, i);
        assert(hit == has_prefix(rest, pat@)) by {
            if i + pat.len() <= s.len() {
                assert(rest.subrange(0, pat@.len() as int) =~= s@.subrange(
                    i as int,
                    i + pat@.len(),
                ));
            }
        }
        if hit {
            let ghost old_out = out@;
            let mut k: usize = 0;
            while k < rep.len()
                invariant
                    k <= rep.len(),
                    out@ == old_out + rep@.take(k as int),
                decreases rep.len() - k,
            {
                out.push(rep[k]);
                assert(rep@.take(k + 1) =~= rep@.take(k as int).push(rep@[k as int]));
                k = k + 1;
            }
            assert(rep@.take(rep.len() as int) =~= rep@);
            assert(rest.skip(pat@.len() as int) =~= s@.skip(i + pat@.len()));
            assert(out@ + replace_all(s@.skip(i + pat@.len()), pat@, rep@) =~= old_out + (rep@
                + replace_all(rest.skip(pat@.len() as int), pat@, rep@)));
            i = i + pat.len();
        } else {
            let ghost old_out = out@;
            out.push(s[i]);
            assert(rest.drop_first() =~= s@.skip(i + 1));
            assert(out@ + replace_all(s@.skip(i + 1), pat@, rep@) =~= old_out + (seq![rest[0]]
                + replace_all(rest.drop_first(), pat@, rep@)));
            i = i + 1;
        }
    }
    assert(out@ + replace_all(s@.skip(i as int), pat@, rep@) =~= out@);
    out
}

/// `str::replace` with a non-empty pattern, on the views.
pub fn str_replace(s: &str, pat: &str, rep: &str) -> (r: String)
    requires
        pat@.len() > 0,
    ensures
        r@ == replace_all(s@, pat@, rep@),
{
    let sv = chars_of(s);
    let pv = chars_of(pat);
    let rv = chars_of(rep);
    let out = replace_chars(&sv, &pv, &rv);
    string_of(&out)
}

// ---------------------------------------------------------------------------
// Joining
// ---------------------------------------------------------------------------
/// The pieces of `parts` with `sep` between neighbours (what `join` yields).
pub open spec fn join_with(parts: Seq<Seq<char>>, sep: Seq<char>) -> Seq<char>
    decreases parts.len(),
{
    if parts.len() == 0 {
        Seq::empty()
    } else if parts.len() == 1 {
        parts[0]
    } else {
        join_with(parts.drop_last(), sep) + sep + parts.last()
    }
}

/// Joins the strings of `parts` with `sep`.
pub fn join_strings(parts: &Vec<String>, sep: &str) -> (r: String)
    ensures
        r@ == join_with(parts@.map_values(|p: String| p@), sep@),
{
    let ghost views = parts@.map_values(|p: String| p@);
    let mut r = String::new();
    let mut i: usize = 0;
    while i < parts.len()
        invariant
            i <= parts.len(),
            views == parts@.map_values(|p: String| p@),
            r@ == join_with(views.take(i as int), sep@),
        decreases parts.len() - i,
    {
        assert(views.take(i + 1).drop_last() =~= views.take(i as int));
        if i > 0 {
            push_str(&mut r, sep);
        }
        push_str(&mut r, parts[i].as_str());
        i = i + 1;
    }
    assert(views.take(parts.len() as int) =~= views);
    r
}

// ---------------------------------------------------------------------------
// Decimal numbers
// ---------------------------------------------------------------------------
/// The digit character for `d < 10`.
pub open spec fn digit_char(d: nat) -> char {
    (('0' as u32) + d) as char
}

/// The decimal notation of `n`, without sign or leading zeros.
pub open spec fn decimal(n: nat) -> Seq<char>
    decreases n,
{
    if n < 10 {
        seq![digit_char(n)]
    } else {
        decimal(n / 10).push(digit_char(n % 10))
    }
}

/// The digit character for `d`.
fn digit_exec(d: u64) -> (c: char)
    requires
        d < 10,
    ensures
        c == digit_char(d as nat),
{
    let b: u8 = 48u8 + (d as u8);
    b as char
}

/// Appends the decimal notation of `n` to `out`.
pub fn push_decimal(out: &mut String, n: u64)
    ensures
        final(out)@ == old(out)@ + decimal(n as nat),
    decreases n,
{
    if n >= 10 {
        push_decimal(out, n / 10);
    }
    push_char(out, digit_exec(n % 10));
    assert(n < 10 ==> decimal(n as nat) =~= seq![digit_char(n as nat)]);
}

/// The decimal notation of `n` as a string.
pub fn decimal_string(n: u64) -> (r: String)
    ensures
        r@ == decimal(n as nat),
{
    let mut r = String::new();
    push_decimal(&mut r, n);
    assert(r@ =~= decimal(n as nat));
    r
}

/// The decimal notation of `i` with a leading `-` when negative.
pub open spec fn signed_decimal(i: int) -> Seq<char> {
    if i < 0 {
        seq!['-'] + decimal((-i) as nat)
    } else {
        decimal(i as nat)
    }
}

/// The decimal notation of `i` as a string (what `to_string` gives).
pub fn signed_decimal_string(i: i32) -> (r: String)
    ensures
        r@ == signed_decimal(i as int),
{
    let mut r = String::new();
    if i < 0 {
        push_char(&mut r, '-');
        let m: i64 = -(i as i64);
        push_decimal(&mut r, m as u64);
    } else {
        push_decimal(&mut r, i as u64);
    }
    assert(r@ =~= signed_decimal(i as int));
    r
}

/// `c` is one of `0`..=`9`.
pub open spec fn is_digit(c: char) -> bool {
    '0' <= c <= '9'
}

/// Every character of `s` is a digit.
pub open spec fn all_digits(s: Seq<char>) -> bool {
    forall|i: int| 0 <= i < s.len() ==> is_digit(#[trigger] s[i])
}

/// The number that the digit string `s` denotes.
pub open spec fn digits_value(s: Seq<char>) -> nat
    decreases s.len(),
{
    if s.len() == 0 {
        0
    } else {
        digits_value(s.drop_last()) * 10 + ((s.last() as u32) - ('0' as u32)) as nat
    }
}

/// What `u64::from_str` accepts: an optional `+`, then one or more
/// digits whose value fits in 64 bits.
pub open spec fn parse_u64_of(s: Seq<char>) -> Option<u64> {
    let body = if s.len() > 0 && s[0] == '+' {
        s.drop_first()
    } else {
        s
    };
    if body.len() > 0 && all_digits(body) && digits_value(body) <= u64::MAX {
        Some(digits_value(body) as u64)
    } else {
        None
    }
}

/// A longer digit string never denotes a smaller number.
pub proof fn lemma_digits_value_grows(s: Seq<char>, k: int)
    requires
        0 <= k <= s.len(),
        all_digits(s),
    ensures
        digits_value(s.take(k)) <= digits_value(s),
    decreases s.len(),
{
    if k < s.len() {
        let t = s.drop_last();
        assert(all_digits(t));
        assert(t.take(k) =~= s.take(k));
        lemma_digits_value_grows(t, k);
    } else {
        assert(s.take(k) =~= s);
    }
}

/// Parses a decimal `u64`, as `str::parse::<u64>` does.
pub fn parse_u64(s: &Vec<char>) -> (r: Option<u64>)
    ensures
        r == parse_u64_of(s@),
{
    let start: usize = if s.len() > 0 && s[0] == '+' {
        1
    } else {
        0
    };
    let ghost body = if s@.len() > 0 && s@[0] == '+' {
        s@.drop_first()
    } else {
        s@
    };
    assert(body =~= s@.skip(start as int));
    if start >= s.len() {
        return None;
    }
    let mut acc: u64 = 0;
    let mut i: usize = start;
    assert(body.take(0) =~= Seq::<char>::empty());
    while i < s.len()
        invariant
            start <= i <= s.len(),
            body =~= s@.skip(start as int),
            body == (if s@.len() > 0 && s@[0] == '+' {
                s@.drop_first()
            } else {
                s@
            }),
            all_digits(body.take(i - start)),
            acc as nat == digits_value(body.take(i - start)),
        decreases s.len() - i,
    {
        let c = s[i];
        let ghost pre = body.take(i - start);
        let ghost next = body.take(i + 1 - start);
        assert(next.drop_last() =~= pre);
        assert(next.last() == c);
        if !('0' <= c && c <= '9') {
            assert(body[i - start] == c);
            assert(!is_digit(body[i - start]));
            assert(!all_digits(body));
            return None;
        }
        let d: u64 = (c as u32 - 48u32) as u64;
        if acc > (u64::MAX - d) / 10 {
            proof {
                assert(acc * 10 + d > u64::MAX) by (nonlinear_arith)
                    requires
                        acc > (u64::MAX - d) / 10,
                        d < 10,
                ;
                assert(all_digits(next));
                assert(digits_value(next) == acc * 10 + d);
                if all_digits(body) {
                    lemma_digits_value_grows(body, i + 1 - start);
                }
            }
            return None;
        }
        proof {
            assert(acc * 10 + d <= u64::MAX) by (nonlinear_arith)
                requires
                    acc <= (u64::MAX - d) / 10,
                    d < 10,
            ;
        }
        acc = acc * 10 + d;
        assert(all_digits(next));
        i = i + 1;
    }
    assert(body.take(s.len() - start) =~= body);
    Some(acc)
}

// ---------------------------------------------------------------------------
// Facts about the specifications
// ---------------------------------------------------------------------------
/// A decimal notation is a non-empty digit string that denotes its number.
pub proof fn lemma_decimal_digits(n: nat)
    ensures
        decimal(n).len() > 0,
        all_digits(decimal(n)),
        digits_value(decimal(n)) == n,
    decreases n,
{
    let d = n % 10;
    assert((digit_char(d) as u32) - ('0' as u32) == d);
    if n >= 10 {
        lemma_decimal_digits(n / 10);
        let s = decimal(n);
        assert(s.drop_last() =~= decimal(n / 10));
        assert(s.last() == digit_char(d));
        assert(n == (n / 10) * 10 + d);
        assert(digits_value(s) == digits_value(decimal(n / 10)) * 10 + d);
        assert forall|i: int| 0 <= i < s.len() implies is_digit(#[trigger] s[i]) by {
            if i < s.len() - 1 {
                assert(s[i] == decimal(n / 10)[i]);
            }
        }
    } else {
        assert(decimal(n).drop_last() =~= Seq::<char>::empty());
        assert(decimal(n).last() == digit_char(n));
        assert(digits_value(decimal(n)) == digits_value(Seq::<char>::empty()) * 10 + d);
    }
}

/// Decimal notation parses back to its number.
pub proof fn lemma_parse_decimal(n: nat)
    requires
        n <= u64::MAX,
    ensures
        parse_u64_of(decimal(n)) == Some(n as u64),
{
    lemma_decimal_digits(n);
    assert(is_digit(decimal(n)[0]));
}

/// A string without the separator is a single piece.
pub proof fn lemma_split_single(s: Seq<char>, sep: char)
    requires
        !s.contains(sep),
    ensures
        split_on(s, sep) == seq![s],
    decreases s.len(),
{
    if s.len() > 0 {
        let t = s.drop_last();
        assert(!t.contains(sep)) by {
            if t.contains(sep) {
                let k = choose|k: int| 0 <= k < t.len() && t[k] == sep;
                assert(s[k] == sep);
            }
        }
        lemma_split_single(t, sep);
        assert(s.last() != sep) by {
            assert(s[s.len() - 1] == s.last());
        }
        assert(t.push(s.last()) =~= s);
    } else {
        assert(s =~= Seq::<char>::empty());
    }
}

/// Appending text without the separator extends the last piece.
pub proof fn lemma_split_extend(u: Seq<char>, v: Seq<char>, sep: char)
    requires
        !v.contains(sep),
    ensures
        split_on(u + v, sep) == split_on(u, sep).update(
            split_on(u, sep).len() - 1,
            split_on(u, sep).last() + v,
        ),
    decreases v.len(),
{
    lemma_split_nonempty(u, sep);
    if v.len() == 0 {
        assert(u + v =~= u);
        assert(split_on(u, sep).last() + v =~= split_on(u, sep).last());
        assert(split_on(u, sep).update(split_on(u, sep).len() - 1, split_on(u, sep).last())
            =~= split_on(u, sep));
    } else {
        let w = v.drop_last();
        assert(!w.contains(sep)) by {
            if w.contains(sep) {
                let k = choose|k: int| 0 <= k < w.len() && w[k] == sep;
                assert(v[k] == sep);
            }
        }
        lemma_split_extend(u, w, sep);
        assert((u + v).drop_last() =~= u + w);
        assert((u + v).last() == v.last());
        assert(v.last() != sep) by {
            assert(v[v.len() - 1] == v.last());
        }
        lemma_split_nonempty(u + w, sep);
        assert((split_on(u, sep).last() + w).push(v.last()) =~= split_on(u, sep).last() + v);
        assert(split_on(u + v, sep) =~= split_on(u, sep).update(
            split_on(u, sep).len() - 1,
            split_on(u, sep).last() + v,
        ));
    }
}

/// Two separator-free texts joined by the separator split back into them.
pub proof fn lemma_split_pair(a: Seq<char>, b: Seq<char>, sep: char)
    requires
        !a.contains(sep),
        !b.contains(sep),
    ensures
        split_on(a + seq![sep] + b, sep) == seq![a, b],
{
    let u = a + seq![sep];
    assert(u.drop_last() =~= a);
    assert(u.last() == sep);
    lemma_split_single(a, sep);
    assert(split_on(u, sep) =~= seq![a, Seq::<char>::empty()]);
    lemma_split_extend(u, b, sep);
    assert(Seq::<char>::empty() + b =~= b);
    assert(split_on(u + b, sep) =~= seq![a, b]);
}

/// A digit string contains no character outside `0`..=`9`.
pub proof fn lemma_digits_lack(s: Seq<char>, c: char)
    requires
        all_digits(s),
        !is_digit(c),
    ensures
        !s.contains(c),
{
    if s.contains(c) {
        let k = choose|k: int| 0 <= k < s.len() && s[k] == c;
        assert(is_digit(s[k]));
    }
}

/// Splitting at a separator and joining the pieces with it gives back the
/// original text.
pub proof fn lemma_join_split(s: Seq<char>, sep: char)
    ensures
        join_with(split_on(s, sep), seq![sep]) == s,
    decreases s.len(),
{
    if s.len() == 0 {
        assert(split_on(s, sep) == seq![Seq::<char>::empty()]);
        assert(s =~= Seq::<char>::empty());
    } else {
        let t = s.drop_last();
        let x = s.last();
        lemma_join_split(t, sep);
        lemma_split_nonempty(t, sep);
        let pt = split_on(t, sep);
        assert(t.push(x) =~= s);
        if x == sep {
            let ps = pt.push(Seq::<char>::empty());
            assert(split_on(s, sep) == ps);
            assert(ps.drop_last() =~= pt);
            assert(join_with(ps, seq![sep]) == join_with(pt, seq![sep]) + seq![sep] + Seq::<
                char,
            >::empty());
            assert(t + seq![sep] + Seq::<char>::empty() =~= s);
        } else {
            let ps = pt.update(pt.len() - 1, pt.last().push(x));
            assert(split_on(s, sep) == ps);
            if pt.len() == 1 {
                assert(join_with(pt, seq![sep]) == pt[0]);
                assert(join_with(ps, seq![sep]) == ps[0]);
                assert(ps[0] =~= t.push(x));
            } else {
                assert(ps.drop_last() =~= pt.drop_last());
                assert(join_with(ps, seq![sep]) == join_with(pt.drop_last(), seq![sep]) + seq![sep]
                    + pt.last().push(x));
                assert(join_with(pt, seq![sep]) == join_with(pt.drop_last(), seq![sep]) + seq![sep]
                    + pt.last());
                assert(join_with(pt.drop_last(), seq![sep]) + seq![sep] + pt.last().push(x)
                    =~= (join_with(pt.drop_last(), seq![sep]) + seq![sep] + pt.last()).push(x));
            }
        }
    }
}

} // verus!
