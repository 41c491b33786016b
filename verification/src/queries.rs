//! The query services, grouped by what they read, and the entry point that
//! hands them out.
use vstd::prelude::*;
use crate::model_write::{convert_to_sql_str_array, quoted_list};
use crate::refno::{join_pe_keys, pe_key_text, pe_keys_of, RefU64, RefnoEnum};
use crate::text::{decimal, decimal_string, join_with, owned, push_str, str_equal};
use crate::json::string_views;

verus! {

/// Reads of single elements: the element, its type, names, world and sites.
#[derive(Clone, Copy, Debug, PartialEq, Eq, Structural)]
pub struct BasicQueryService;

/// Reads along the ownership hierarchy: ancestors, children, siblings.
#[derive(Clone, Copy, Debug, PartialEq, Eq, Structural)]
pub struct HierarchyQueryService;

/// Reads of attribute maps.
#[derive(Clone, Copy, Debug, PartialEq, Eq, Structural)]
pub struct AttributeQueryService;

/// Reads over many elements at once.
#[derive(Clone, Copy, Debug, PartialEq, Eq, Structural)]
pub struct BatchQueryService;

/// Reads of session history.
#[derive(Clone, Copy, Debug, PartialEq, Eq, Structural)]
pub struct TimelineQueryService;

/// Hands out the query services.
pub struct QueryService;

impl QueryService {
    /// The service for single elements.
    pub fn basic() -> (r: BasicQueryService)
        ensures
            r == BasicQueryService,
    {
        BasicQueryService
    }

    /// The service for the ownership hierarchy.
    pub fn hierarchy() -> (r: HierarchyQueryService)
        ensures
            r == HierarchyQueryService,
    {
        HierarchyQueryService
    }

    /// The service for attribute maps.
    pub fn attributes() -> (r: AttributeQueryService)
        ensures
            r == AttributeQueryService,
    {
        AttributeQueryService
    }

    /// The service for many elements at once.
    pub fn batch() -> (r: BatchQueryService)
        ensures
            r == BatchQueryService,
    {
        BatchQueryService
    }

    /// The service for session history.
    pub fn timeline() -> (r: TimelineQueryService)
        ensures
            r == TimelineQueryService,
    {
        TimelineQueryService
    }
}


impl HierarchyQueryService {
    /// The statement that reads the types of the ancestors of an element.
    pub fn get_ancestor_types_sql(r: &RefnoEnum) -> (s: String)
        ensures
            s@ == "RETURN fn::ancestor("@ + pe_key_text(r.spec_refno()) + ").noun"@,
    {
        let mut s = String::new();
        push_str(&mut s, "RETURN fn::ancestor(");
        let v0 = r.to_pe_key();
        push_str(&mut s, v0.as_str());
        push_str(&mut s, ").noun");
        s
    }

    /// The statements that read the children of an element as they were at its session date (children deleted later still count).
    pub fn get_children_refnos_sql(r: &RefnoEnum) -> (s: String)
        ensures
            s@ == "\n                LET $dt=<datetime>fn::ses_date("@ + pe_key_text(r.spec_refno()) + ");\n                SELECT value fn::find_pe_by_datetime(in, $dt) FROM fn::newest_pe("@ + pe_key_text(r.spec_refno()) + ")<-pe_owner\n                    WHERE in.id!=none AND record::exists(in.id) AND (!in.deleted OR <datetime>fn::ses_date(in.id)>$dt)\n                "@,
    {
        let mut s = String::new();
        push_str(&mut s, "\n                LET $dt=<datetime>fn::ses_date(");
        let v0 = r.to_pe_key();
        push_str(&mut s, v0.as_str());
        push_str(&mut s, ");\n                SELECT value fn::find_pe_by_datetime(in, $dt) FROM fn::newest_pe(");
        let v1 = r.to_pe_key();
        push_str(&mut s, v1.as_str());
        push_str(&mut s, ")<-pe_owner\n                    WHERE in.id!=none AND record::exists(in.id) AND (!in.deleted OR <datetime>fn::ses_date(in.id)>$dt)\n                ");
        s
    }

    /// The statement that reads the children of the owner `r`.
    pub fn get_siblings_sql(r: &RefnoEnum) -> (s: String)
        ensures
            s@ == "SELECT value in FROM "@ + pe_key_text(r.spec_refno()) + "<-pe_owner"@,
    {
        let mut s = String::new();
        push_str(&mut s, "SELECT value in FROM ");
        let v0 = r.to_pe_key();
        push_str(&mut s, v0.as_str());
        push_str(&mut s, "<-pe_owner");
        s
    }

    /// The statement that reads the tree nodes of the live children of an element, with their order.
    pub fn get_children_ele_nodes_sql(r: &RefnoEnum) -> (s: String)
        ensures
            s@ == "\n            SELECT in.refno as refno, in.noun as noun, in.name as name, in.owner as owner,\n                   record::id(in->pe_owner.id[0])[1] as order,\n                   in.op?:0 as op,\n                   array::len((SELECT value refnos FROM ONLY type::record(\"his_pe\", record::id(in.refno)))?:[]) as mod_cnt,\n                   array::len(in<-pe_owner) as children_count,\n                   in.status_code as status_code\n            FROM "@ + pe_key_text(r.spec_refno()) + "<-pe_owner WHERE in.id!=none AND record::exists(in.id) AND !in.deleted\n            "@,
    {
        let mut s = String::new();
        push_str(&mut s, "\n            SELECT in.refno as refno, in.noun as noun, in.name as name, in.owner as owner,\n                   record::id(in->pe_owner.id[0])[1] as order,\n                   in.op?:0 as op,\n                   array::len((SELECT value refnos FROM ONLY type::record(\"his_pe\", record::id(in.refno)))?:[]) as mod_cnt,\n                   array::len(in<-pe_owner) as children_count,\n                   in.status_code as status_code\n            FROM ");
        let v0 = r.to_pe_key();
        push_str(&mut s, v0.as_str());
        push_str(&mut s, "<-pe_owner WHERE in.id!=none AND record::exists(in.id) AND !in.deleted\n            ");
        s
    }
}

impl TimelineQueryService {
    /// The statement that reads the date of a session.
    pub fn ses_date_sql(dbnum: u32, sesno: u32) -> (s: String)
        ensures
            s@ == "\n            SELECT date FROM ses:["@ + decimal(dbnum as nat) + ", "@ + decimal(sesno as nat) + "];\n            "@,
    {
        let mut s = String::new();
        push_str(&mut s, "\n            SELECT date FROM ses:[");
        let v0 = decimal_string(dbnum as u64);
        push_str(&mut s, v0.as_str());
        push_str(&mut s, ", ");
        let v1 = decimal_string(sesno as u64);
        push_str(&mut s, v1.as_str());
        push_str(&mut s, "];\n            ");
        s
    }

    /// The statement that reads the first session of a database after `sesno`.
    pub fn next_ses_sql(dbnum: u32, sesno: u32) -> (s: String)
        ensures
            s@ == "\n            SELECT record::id(id) as id, date FROM ses \n            WHERE record::id(id)[0] = "@ + decimal(dbnum as nat) + " AND record::id(id)[1] > "@ + decimal(sesno as nat) + " \n            ORDER BY record::id(id)[1] ASC \n            LIMIT 1;\n            "@,
    {
        let mut s = String::new();
        push_str(&mut s, "\n            SELECT record::id(id) as id, date FROM ses \n            WHERE record::id(id)[0] = ");
        let v0 = decimal_string(dbnum as u64);
        push_str(&mut s, v0.as_str());
        push_str(&mut s, " AND record::id(id)[1] > ");
        let v1 = decimal_string(sesno as u64);
        push_str(&mut s, v1.as_str());
        push_str(&mut s, " \n            ORDER BY record::id(id)[1] ASC \n            LIMIT 1;\n            ");
        s
    }

    /// The statement that reads the earliest and latest session dates of a database.
    pub fn ses_range_by_dbnum_sql(dbnum: u32) -> (s: String)
        ensures
            s@ == "\n            SELECT \n                math::min(date) as earliest,\n                math::max(date) as latest\n            FROM ses \n            WHERE record::id(id)[0] = "@ + decimal(dbnum as nat) + ";\n            "@,
    {
        let mut s = String::new();
        push_str(&mut s, "\n            SELECT \n                math::min(date) as earliest,\n                math::max(date) as latest\n            FROM ses \n            WHERE record::id(id)[0] = ");
        let v0 = decimal_string(dbnum as u64);
        push_str(&mut s, v0.as_str());
        push_str(&mut s, ";\n            ");
        s
    }

    /// The statement that reads the ten latest sessions of a database up to the time `at` (RFC 3339 text).
    pub fn ses_records_at_time_sql(dbnum: u32, at: &str) -> (s: String)
        ensures
            s@ == "\n            SELECT record::id(id)[0] as dbnum, record::id(id)[1] as sesno \n            FROM ses \n            WHERE record::id(id)[0] = "@ + decimal(dbnum as nat) + " AND date <= d'"@ + at@ + "' \n            ORDER BY record::id(id)[1] DESC \n            LIMIT 10;\n            "@,
    {
        let mut s = String::new();
        push_str(&mut s, "\n            SELECT record::id(id)[0] as dbnum, record::id(id)[1] as sesno \n            FROM ses \n            WHERE record::id(id)[0] = ");
        let v0 = decimal_string(dbnum as u64);
        push_str(&mut s, v0.as_str());
        push_str(&mut s, " AND date <= d'");
        push_str(&mut s, at);
        push_str(&mut s, "' \n            ORDER BY record::id(id)[1] DESC \n            LIMIT 10;\n            ");
        s
    }

    /// The statement that reads the sessions of a database between two times (RFC 3339 texts).
    pub fn ses_changes_in_range_sql(dbnum: u32, start: &str, end: &str) -> (s: String)
        ensures
            s@ == "\n            SELECT \n                record::id(id)[0] as dbnum, \n                record::id(id)[1] as sesno, \n                date,\n                computer_name,\n                mod_cnt?:0 as mod_cnt,\n                add_cnt?:0 as add_cnt,\n                del_cnt?:0 as del_cnt\n            FROM ses \n            WHERE record::id(id)[0] = "@ + decimal(dbnum as nat) + " \n                AND date >= d'"@ + start@ + "' \n                AND date <= d'"@ + end@ + "'\n            ORDER BY record::id(id)[1] ASC;\n            "@,
    {
        let mut s = String::new();
        push_str(&mut s, "\n            SELECT \n                record::id(id)[0] as dbnum, \n                record::id(id)[1] as sesno, \n                date,\n                computer_name,\n                mod_cnt?:0 as mod_cnt,\n                add_cnt?:0 as add_cnt,\n                del_cnt?:0 as del_cnt\n            FROM ses \n            WHERE record::id(id)[0] = ");
        let v0 = decimal_string(dbnum as u64);
        push_str(&mut s, v0.as_str());
        push_str(&mut s, " \n                AND date >= d'");
        push_str(&mut s, start);
        push_str(&mut s, "' \n                AND date <= d'");
        push_str(&mut s, end);
        push_str(&mut s, "'\n            ORDER BY record::id(id)[1] ASC;\n            ");
        s
    }

    /// The statement that reads one session record.
    pub fn get_ses_record_sql(dbnum: u32, sesno: u32) -> (s: String)
        ensures
            s@ == "\n            SELECT \n                "@ + decimal(dbnum as nat) + " as dbnum,\n                "@ + decimal(sesno as nat) + " as sesno,\n                date,\n                computer_name,\n                mod_cnt?:0 as mod_cnt,\n                add_cnt?:0 as add_cnt,\n                del_cnt?:0 as del_cnt\n            FROM ses:["@ + decimal(dbnum as nat) + ", "@ + decimal(sesno as nat) + "];\n            "@,
    {
        let mut s = String::new();
        push_str(&mut s, "\n            SELECT \n                ");
        let v0 = decimal_string(dbnum as u64);
        push_str(&mut s, v0.as_str());
        push_str(&mut s, " as dbnum,\n                ");
        let v1 = decimal_string(sesno as u64);
        push_str(&mut s, v1.as_str());
        push_str(&mut s, " as sesno,\n                date,\n                computer_name,\n                mod_cnt?:0 as mod_cnt,\n                add_cnt?:0 as add_cnt,\n                del_cnt?:0 as del_cnt\n            FROM ses:[");
        let v2 = decimal_string(dbnum as u64);
        push_str(&mut s, v2.as_str());
        push_str(&mut s, ", ");
        let v3 = decimal_string(sesno as u64);
        push_str(&mut s, v3.as_str());
        push_str(&mut s, "];\n            ");
        s
    }

    /// The statement that reads the latest `limit` sessions of a database.
    pub fn get_latest_ses_records_sql(dbnum: u32, limit: u32) -> (s: String)
        ensures
            s@ == "\n            SELECT \n                record::id(id)[0] as dbnum, \n                record::id(id)[1] as sesno, \n                date,\n                computer_name,\n                mod_cnt?:0 as mod_cnt,\n                add_cnt?:0 as add_cnt,\n                del_cnt?:0 as del_cnt\n            FROM ses \n            WHERE record::id(id)[0] = "@ + decimal(dbnum as nat) + "\n            ORDER BY record::id(id)[1] DESC\n            LIMIT "@ + decimal(limit as nat) + ";\n            "@,
    {
        let mut s = String::new();
        push_str(&mut s, "\n            SELECT \n                record::id(id)[0] as dbnum, \n                record::id(id)[1] as sesno, \n                date,\n                computer_name,\n                mod_cnt?:0 as mod_cnt,\n                add_cnt?:0 as add_cnt,\n                del_cnt?:0 as del_cnt\n            FROM ses \n            WHERE record::id(id)[0] = ");
        let v0 = decimal_string(dbnum as u64);
        push_str(&mut s, v0.as_str());
        push_str(&mut s, "\n            ORDER BY record::id(id)[1] DESC\n            LIMIT ");
        let v1 = decimal_string(limit as u64);
        push_str(&mut s, v1.as_str());
        push_str(&mut s, ";\n            ");
        s
    }
}

impl BasicQueryService {
    /// The statement that finds the element named `/name`.
    pub fn get_refno_by_name_sql(name: &str) -> (s: String)
        ensures
            s@ == "SELECT value id FROM ONLY pe WHERE name=\"/"@ + name@ + "\" LIMIT 1"@,
    {
        let mut s = String::new();
        push_str(&mut s, "SELECT value id FROM ONLY pe WHERE name=\"/");
        push_str(&mut s, name);
        push_str(&mut s, "\" LIMIT 1");
        s
    }

    /// The statement that tells whether an element exists.
    pub fn exists_sql(r: &RefnoEnum) -> (s: String)
        ensures
            s@ == "SELECT value record::exists("@ + pe_key_text(r.spec_refno()) + ")"@,
    {
        let mut s = String::new();
        push_str(&mut s, "SELECT value record::exists(");
        let v0 = r.to_pe_key();
        push_str(&mut s, v0.as_str());
        push_str(&mut s, ")");
        s
    }
}

impl AttributeQueryService {
    /// The statements that read the attributes of an element, the default user attributes of its type and its own user attribute values.
    pub fn get_named_attmap_with_uda_sql(r: &RefnoEnum) -> (s: String)
        ensures
            s@ == "\n            --通过传递refno，查询属性值\n            SELECT fn::default_full_name(REFNO) as NAME, * FROM ONLY "@ + pe_key_text(r.spec_refno()) + ".refno FETCH pe;\n            SELECT string::concat(':', if UDNA==none || string::len(UDNA)==0 { DYUDNA } else { UDNA }) as u, DFLT as v, UTYP as t FROM UDA WHERE !UHIDE AND "@ + pe_key_text(r.spec_refno()) + ".noun IN ELEL;\n            -- uda 单独做个查询？\n            SELECT string::concat(':', if u.UDNA==none || string::len( u.UDNA)==0 { u.DYUDNA } else { u.UDNA }) as u, u.UTYP as t, v FROM (ATT_UDA:"@ + r.spec_refno().refno_text() + ").udas WHERE u.UTYP != none;\n            "@,
    {
        let mut s = String::new();
        push_str(&mut s, "\n            --通过传递refno，查询属性值\n            SELECT fn::default_full_name(REFNO) as NAME, * FROM ONLY ");
        let v0 = r.to_pe_key();
        push_str(&mut s, v0.as_str());
        push_str(&mut s, ".refno FETCH pe;\n            SELECT string::concat(':', if UDNA==none || string::len(UDNA)==0 { DYUDNA } else { UDNA }) as u, DFLT as v, UTYP as t FROM UDA WHERE !UHIDE AND ");
        let v1 = r.to_pe_key();
        push_str(&mut s, v1.as_str());
        push_str(&mut s, ".noun IN ELEL;\n            -- uda 单独做个查询？\n            SELECT string::concat(':', if u.UDNA==none || string::len( u.UDNA)==0 { u.DYUDNA } else { u.UDNA }) as u, u.UTYP as t, v FROM (ATT_UDA:");
        let v2 = r.to_refno_str();
        push_str(&mut s, v2.as_str());
        push_str(&mut s, ").udas WHERE u.UTYP != none;\n            ");
        s
    }

    /// The statement that reads the attributes of the ancestors of an element.
    pub fn get_ancestor_attmaps_sql(r: &RefnoEnum) -> (s: String)
        ensures
            s@ == "RETURN fn::ancestor("@ + pe_key_text(r.spec_refno()) + ").refno.*"@,
    {
        let mut s = String::new();
        push_str(&mut s, "RETURN fn::ancestor(");
        let v0 = r.to_pe_key();
        push_str(&mut s, v0.as_str());
        push_str(&mut s, ").refno.*");
        s
    }

    /// The statement that reads the attributes of the live children of an element.
    pub fn get_children_named_attmaps_sql(r: &RefnoEnum) -> (s: String)
        ensures
            s@ == "SELECT value in.refno.* FROM "@ + pe_key_text(r.spec_refno()) + "<-pe_owner WHERE in.id!=none AND !in.deleted"@,
    {
        let mut s = String::new();
        push_str(&mut s, "SELECT value in.refno.* FROM ");
        let v0 = r.to_pe_key();
        push_str(&mut s, v0.as_str());
        push_str(&mut s, "<-pe_owner WHERE in.id!=none AND !in.deleted");
        s
    }
}

impl BatchQueryService {
    /// The statement that reads the children of an element with their full names.
    pub fn children_full_names_sql(r: &RefnoEnum) -> (s: String)
        ensures
            s@ == "SELECT value [in, fn::default_full_name(in)] FROM "@ + pe_key_text(r.spec_refno()) + "<-pe_owner WHERE record::exists(in)"@,
    {
        let mut s = String::new();
        push_str(&mut s, "SELECT value [in, fn::default_full_name(in)] FROM ");
        let v0 = r.to_pe_key();
        push_str(&mut s, v0.as_str());
        push_str(&mut s, "<-pe_owner WHERE record::exists(in)");
        s
    }

    /// The statement that reads the live children of an element.
    pub fn live_children_sql(r: &RefnoEnum) -> (s: String)
        ensures
            s@ == "SELECT value in FROM "@ + pe_key_text(r.spec_refno()) + "<-pe_owner WHERE record::exists(in.id) AND !in.deleted"@,
    {
        let mut s = String::new();
        push_str(&mut s, "SELECT value in FROM ");
        let v0 = r.to_pe_key();
        push_str(&mut s, v0.as_str());
        push_str(&mut s, "<-pe_owner WHERE record::exists(in.id) AND !in.deleted");
        s
    }

    /// The statement that reads the types of elements, in order.
    pub fn query_types_sql(refnos: &[RefnoEnum]) -> (s: String)
        ensures
            s@ == "SELECT value noun FROM ["@ + join_with(pe_keys_of(refnos@), ","@) + "]"@,
    {
        let mut s = String::new();
        push_str(&mut s, "SELECT value noun FROM [");
        let v0 = join_pe_keys(refnos);
        push_str(&mut s, v0.as_str());
        push_str(&mut s, "]");
        s
    }
}

/// The type list of a children search: `none` for no types, else the
/// quoted types in brackets.
pub open spec fn types_array(types: Seq<Seq<char>>) -> Seq<char> {
    if types.len() == 0 {
        "none"@
    } else {
        "["@ + quoted_list(types) + "]"@
    }
}

/// The type list of a children search.
pub(crate) fn types_array_text(types: &[&str]) -> (r: String)
    ensures
        r@ == types_array(types@.map_values(|s: &str| s@)),
{
    if types.len() == 0 {
        owned("none")
    } else {
        let mut r = owned("[");
        let q = convert_to_sql_str_array(types);
        push_str(&mut r, q.as_str());
        push_str(&mut r, "]");
        r
    }
}

impl BatchQueryService {
    /// The statement that reads the descendants of `r` of the types
    /// `types` (all types when none are given).
    pub fn query_filter_children_sql(r: &RefnoEnum, types: &[&str]) -> (s: String)
        ensures
            s@ == "SELECT value id FROM fn::collect_children("@ + pe_key_text(r.spec_refno()) + ", "@
                + types_array(types@.map_values(|t: &str| t@)) + ")"@,
    {
        let mut s = owned("SELECT value id FROM fn::collect_children(");
        let k = r.to_pe_key();
        push_str(&mut s, k.as_str());
        push_str(&mut s, ", ");
        let t = types_array_text(types);
        push_str(&mut s, t.as_str());
        push_str(&mut s, ")");
        s
    }

    /// The statement that reads the attributes of the descendants of `r`
    /// of the types `types` (all types when none are given).
    pub fn query_filter_children_atts_sql(r: &RefnoEnum, types: &[&str]) -> (s: String)
        ensures
            s@ == "SELECT value id.refno.* FROM fn::collect_children("@ + pe_key_text(r.spec_refno())
                + ", "@ + types_array(types@.map_values(|t: &str| t@)) + ")"@,
    {
        let mut s = owned("SELECT value id.refno.* FROM fn::collect_children(");
        let k = r.to_pe_key();
        push_str(&mut s, k.as_str());
        push_str(&mut s, ", ");
        let t = types_array_text(types);
        push_str(&mut s, t.as_str());
        push_str(&mut s, ")");
        s
    }

    /// Whether a failed read of children ends the whole read: only when
    /// one element is read; with several, a failed element is passed over.
    pub fn children_failure_aborts(count: usize) -> (r: bool)
        ensures
            r == (count == 1),
    {
        count == 1
    }
}

impl HierarchyQueryService {
    /// The statement that finds the place of `r` among the children of
    /// `parent` (those of type `noun` when one is given).
    pub fn get_index_by_noun_in_parent_sql(parent: &RefnoEnum, r: &RefnoEnum, noun: Option<&str>) -> (s: String)
        ensures
            s@ == "\n            array::find_index((SELECT value in.id FROM "@ + pe_key_text(parent.spec_refno()) + "<-pe_owner "@ + (match noun {
                Some(n) => "WHERE in.noun='"@ + n@ + "'"@,
                None => Seq::empty(),
            }) + "), "@ + pe_key_text(r.spec_refno()) + ")\n            "@,
    {
        let mut s = owned("\n            array::find_index((SELECT value in.id FROM ");
        let k = parent.to_pe_key();
        push_str(&mut s, k.as_str());
        push_str(&mut s, "<-pe_owner ");
        match noun {
            Some(n) => {
                push_str(&mut s, "WHERE in.noun='");
                push_str(&mut s, n);
                push_str(&mut s, "'");
            },
            None => {},
        }
        push_str(&mut s, "), ");
        let k2 = r.to_pe_key();
        push_str(&mut s, k2.as_str());
        push_str(&mut s, ")\n            ");
        s
    }
}

/// The zero reference, which stands for "no element".
pub open spec fn zero_refno() -> RefnoEnum {
    RefnoEnum::Refno(RefU64(0))
}

/// `i` is the first place of `r` in `s`.
pub open spec fn first_at(s: Seq<RefnoEnum>, r: RefnoEnum, i: int) -> bool {
    &&& 0 <= i < s.len()
    &&& s[i] == r
    &&& forall|j: int| 0 <= j < i ==> s[j] != r
}

/// The place of `r` among the siblings `s`: its first place, or 0 when it
/// is not among them.
pub open spec fn sibling_position(s: Seq<RefnoEnum>, r: RefnoEnum) -> int {
    if exists|i: int| first_at(s, r, i) {
        choose|i: int| first_at(s, r, i)
    } else {
        0
    }
}

/// The sibling after (`next`) or before `r` in `s`, counted from the place
/// of `r`; the zero reference when there is none.
pub open spec fn next_prev_of(s: Seq<RefnoEnum>, r: RefnoEnum, next: bool) -> RefnoEnum {
    let pos = sibling_position(s, r);
    if next {
        if pos + 1 < s.len() {
            s[pos + 1]
        } else {
            zero_refno()
        }
    } else if pos == 0 {
        zero_refno()
    } else {
        s[pos - 1]
    }
}

/// There is one first place.
proof fn lemma_first_at_unique(s: Seq<RefnoEnum>, r: RefnoEnum, i: int, k: int)
    requires
        first_at(s, r, i),
        first_at(s, r, k),
    ensures
        i == k,
{
    if i < k {
        assert(s[i] != r);
    } else if k < i {
        assert(s[k] != r);
    }
}

/// The place of an element found at its first place `i` is `i`.
proof fn lemma_sibling_position_at(s: Seq<RefnoEnum>, r: RefnoEnum, i: int)
    requires
        first_at(s, r, i),
    ensures
        sibling_position(s, r) == i,
{
    let k = choose|k: int| first_at(s, r, k);
    lemma_first_at_unique(s, r, k, i);
}

/// Among distinct siblings, stepping to the next sibling and back returns
/// to the element, and so does stepping back and then forward.
pub proof fn lemma_next_prev_inverse(s: Seq<RefnoEnum>, r: RefnoEnum, p: int)
    requires
        s.no_duplicates(),
        0 <= p < s.len(),
        s[p] == r,
    ensures
        p + 1 < s.len() ==> next_prev_of(s, next_prev_of(s, r, true), false) == r,
        p > 0 ==> next_prev_of(s, next_prev_of(s, r, false), true) == r,
{
    assert(first_at(s, r, p));
    lemma_sibling_position_at(s, r, p);
    if p + 1 < s.len() {
        assert(first_at(s, s[p + 1], p + 1));
        lemma_sibling_position_at(s, s[p + 1], p + 1);
    }
    if p > 0 {
        assert(first_at(s, s[p - 1], p - 1));
        lemma_sibling_position_at(s, s[p - 1], p - 1);
    }
}

/// What to gather for the visible instances below an element, decided by
/// its type and the type of its owner.
#[derive(Clone, Copy, Debug, PartialEq, Eq, Structural)]
pub enum VisibleInstPlan {
    /// The element itself (its owner is a branch or hanger).
    Itself,
    /// Its children (it is a branch or hanger).
    Children,
    /// The children of every branch and hanger below it, and the visible
    /// geometry below it.
    Deep,
}

/// A type that holds pipe components: `BRAN` or `HANG`.
pub open spec fn is_branch_type(t: Seq<char>) -> bool {
    t == "BRAN"@ || t == "HANG"@
}

impl HierarchyQueryService {
    /// The sibling after (`next`) or before `refno` among `siblings` (the
    /// children of its owner, in order); the zero reference when there is
    /// none. An element that is not among them counts as the first.
    pub fn next_prev_of(siblings: &Vec<RefnoEnum>, refno: RefnoEnum, next: bool) -> (r: RefnoEnum)
        ensures
            r == next_prev_of(siblings@, refno, next),
    {
        let mut pos: usize = 0;
        let mut found = false;
        let mut i: usize = 0;
        while i < siblings.len()
            invariant
                i <= siblings.len(),
                !found ==> pos == 0,
                found ==> first_at(siblings@, refno, pos as int),
                !found ==> forall|j: int| 0 <= j < i ==> siblings@[j] != refno,
            decreases siblings.len() - i,
        {
            if !found && siblings[i] == refno {
                pos = i;
                found = true;
            }
            i = i + 1;
        }
        proof {
            if found {
                assert forall|k: int| first_at(siblings@, refno, k) implies k == pos by {
                    lemma_first_at_unique(siblings@, refno, k, pos as int);
                }
            } else {
                assert(!exists|k: int| first_at(siblings@, refno, k));
            }
            assert(pos as int == sibling_position(siblings@, refno));
        }
        if next {
            if pos + 1 < siblings.len() {
                siblings[pos + 1]
            } else {
                RefnoEnum::Refno(RefU64(0))
            }
        } else if pos == 0 {
            RefnoEnum::Refno(RefU64(0))
        } else {
            siblings[pos - 1]
        }
    }
}

impl BasicQueryService {
    /// What gathers the visible instances below an element whose type and
    /// owner type are `types[0]` and `types[1]`.
    pub fn visible_inst_plan(types: &Vec<String>) -> (p: VisibleInstPlan)
        requires
            types.len() >= 2,
        ensures
            p == (if is_branch_type(types@[1]@) {
                VisibleInstPlan::Itself
            } else if is_branch_type(types@[0]@) {
                VisibleInstPlan::Children
            } else {
                VisibleInstPlan::Deep
            }),
    {
        let owner = types[1].as_str();
        let own = types[0].as_str();
        if str_equal(owner, "BRAN") || str_equal(owner, "HANG") {
            VisibleInstPlan::Itself
        } else if str_equal(own, "BRAN") || str_equal(own, "HANG") {
            VisibleInstPlan::Children
        } else {
            VisibleInstPlan::Deep
        }
    }
}


/// What an attribute of an element's attribute map holds, as far as the
/// view of the attributes cares.
#[derive(Clone, Copy, Debug, PartialEq, Eq, Structural)]
pub enum AttrKind {
    /// A reference to an element: its packed number, and whether it is a
    /// valid reference.
    Reference { refno: u64, valid: bool },
    /// A value that could not be read.
    Invalid,
    /// Any other value.
    Other,
}

/// Attributes the view passes over: the element's own reference number,
/// the unit list of its parameters and its session number.
pub open spec fn passed_over(key: Seq<char>) -> bool {
    key == "REFNO"@ || key == "UNIPAR"@ || key == "SESNO"@
}

/// How the view sorts the attributes, in order: the names of valid
/// references, their reference numbers (whose full names are looked up),
/// and the names of attributes shown as `unset` (invalid references and
/// unreadable values).
pub open spec fn named_attr_split(attrs: Seq<(String, AttrKind)>) -> (
    Seq<Seq<char>>,
    Seq<u64>,
    Seq<Seq<char>>,
)
    decreases attrs.len(),
{
    if attrs.len() == 0 {
        (Seq::empty(), Seq::empty(), Seq::empty())
    } else {
        let (ks, rs, us) = named_attr_split(attrs.drop_last());
        let k = attrs.last().0@;
        if passed_over(k) {
            (ks, rs, us)
        } else {
            match attrs.last().1 {
                AttrKind::Reference { refno, valid } => if valid {
                    (ks.push(k), rs.push(refno), us)
                } else {
                    (ks, rs, us.push(k))
                },
                AttrKind::Invalid => (ks, rs, us.push(k)),
                AttrKind::Other => (ks, rs, us),
            }
        }
    }
}

/// Sorts the attributes of an element for its view (see
/// [`named_attr_split`]): the names of valid references with their
/// reference numbers, and the names to show as `unset`.
pub fn split_named_attrs(attrs: &Vec<(String, AttrKind)>) -> (r: (Vec<String>, Vec<u64>, Vec<String>))
    ensures
        (string_views(r.0@), r.1@, string_views(r.2@)) == named_attr_split(attrs@),
{
    let mut keys: Vec<String> = Vec::new();
    let mut refnos: Vec<u64> = Vec::new();
    let mut unset: Vec<String> = Vec::new();
    let mut i: usize = 0;
    while i < attrs.len()
        invariant
            i <= attrs.len(),
            (string_views(keys@), refnos@, string_views(unset@)) == named_attr_split(
                attrs@.take(i as int),
            ),
        decreases attrs.len() - i,
    {
        assert(attrs@.take(i + 1).drop_last() =~= attrs@.take(i as int));
        let k = attrs[i].0.as_str();
        let skip = str_equal(k, "REFNO") || str_equal(k, "UNIPAR") || str_equal(k, "SESNO");
        if !skip {
            match attrs[i].1 {
                AttrKind::Reference { refno, valid } => {
                    if valid {
                        let ghost before = string_views(keys@);
                        keys.push(owned(k));
                        assert(string_views(keys@) =~= before.push(k@));
                        refnos.push(refno);
                    } else {
                        let ghost before = string_views(unset@);
                        unset.push(owned(k));
                        assert(string_views(unset@) =~= before.push(k@));
                    }
                },
                AttrKind::Invalid => {
                    let ghost before = string_views(unset@);
                    unset.push(owned(k));
                    assert(string_views(unset@) =~= before.push(k@));
                },
                AttrKind::Other => {},
            }
        }
        i = i + 1;
    }
    assert(attrs@.take(attrs.len() as int) =~= attrs@);
    (keys, refnos, unset)
}

/// The values the view gives the reference attributes: the `i`-th key
/// takes the `i`-th full name, or `unset` when that name is empty, as far
/// as both lists go.
pub open spec fn full_name_values(keys: Seq<Seq<char>>, names: Seq<Seq<char>>) -> Seq<
    (Seq<char>, Seq<char>),
> {
    let n = if keys.len() <= names.len() {
        keys.len()
    } else {
        names.len()
    };
    Seq::new(
        n,
        |i: int|
            (
                keys[i],
                if names[i].len() == 0 {
                    "unset"@
                } else {
                    names[i]
                },
            ),
    )
}

/// The pairs as plain texts.
pub open spec fn text_pairs(v: Seq<(String, String)>) -> Seq<(Seq<char>, Seq<char>)> {
    v.map_values(|p: (String, String)| (p.0@, p.1@))
}

/// The values of the reference attributes of a view (see
/// [`full_name_values`]).
pub fn apply_full_names(keys: &Vec<String>, names: &Vec<String>) -> (r: Vec<(String, String)>)
    ensures
        text_pairs(r@) == full_name_values(string_views(keys@), string_views(names@)),
{
    let ghost want = full_name_values(string_views(keys@), string_views(names@));
    let mut r: Vec<(String, String)> = Vec::new();
    let mut i: usize = 0;
    while i < keys.len() && i < names.len()
        invariant
            i <= keys.len(),
            i <= names.len(),
            want == full_name_values(string_views(keys@), string_views(names@)),
            i <= want.len(),
            text_pairs(r@) == want.take(i as int),
        decreases keys.len() - i,
    {
        let k = owned(keys[i].as_str());
        let n = names[i].as_str();
        let v = if n.is_empty() {
            owned("unset")
        } else {
            owned(n)
        };
        proof {
            assert(want[i as int] == (k@, v@));
        }
        let ghost before = text_pairs(r@);
        r.push((k, v));
        assert(text_pairs(r@) =~= before.push((k@, v@)));
        assert(want.take(i + 1) =~= want.take(i as int).push(want[i as int]));
        i = i + 1;
    }
    assert(want.take(i as int) =~= want);
    r
}

} // verus!
