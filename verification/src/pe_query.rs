//! The statements behind the element reads: an element, its names, types,
//! owners, ancestors, children, attributes and history.
use vstd::prelude::*;
use crate::json::{json_strings, string_views, strings_to_json};
use crate::model_write::{convert_to_sql_str_array, quoted_list};
use crate::refno::{join_pe_keys, pe_key_text, pe_keys_of, RefU64, RefnoEnum};
use crate::text::{
    chars_of, decimal, decimal_string, has_prefix, join_with, owned, push_decimal, push_str,
    replace_all, signed_decimal, signed_decimal_string, str_replace, str_starts_with, string_of,
    to_uppercase, uppercase_of,
};

verus! {

/// The `pe` keys of packed reference numbers, in order.
pub open spec fn pe_keys64_of(refnos: Seq<RefU64>) -> Seq<Seq<char>> {
    refnos.map_values(|r: RefU64| pe_key_text(r))
}

/// The `pe` keys of packed reference numbers separated by commas.
pub fn join_pe_keys64(refnos: &[RefU64]) -> (s: String)
    ensures
        s@ == join_with(pe_keys64_of(refnos@), ","@),
{
    let ghost keys = pe_keys64_of(refnos@);
    let mut s = String::new();
    let mut i: usize = 0;
    while i < refnos.len()
        invariant
            i <= refnos.len(),
            keys == pe_keys64_of(refnos@),
            s@ == join_with(keys.take(i as int), ","@),
        decreases refnos.len() - i,
    {
        assert(keys.take(i + 1).drop_last() =~= keys.take(i as int));
        if i > 0 {
            push_str(&mut s, ",");
        }
        let k = refnos[i].to_pe_key();
        push_str(&mut s, k.as_str());
        i = i + 1;
    }
    assert(keys.take(refnos.len() as int) =~= keys);
    s
}

/// Numbers in decimal, separated by commas.
pub open spec fn decimal_list(nums: Seq<u32>) -> Seq<char> {
    join_with(nums.map_values(|n: u32| decimal(n as nat)), ","@)
}

/// Numbers in decimal, separated by commas.
pub fn join_decimals(nums: &[u32]) -> (s: String)
    ensures
        s@ == decimal_list(nums@),
{
    let ghost items = nums@.map_values(|n: u32| decimal(n as nat));
    let mut s = String::new();
    let mut i: usize = 0;
    while i < nums.len()
        invariant
            i <= nums.len(),
            items == nums@.map_values(|n: u32| decimal(n as nat)),
            s@ == join_with(items.take(i as int), ","@),
        decreases nums.len() - i,
    {
        assert(items.take(i + 1).drop_last() =~= items.take(i as int));
        if i > 0 {
            push_str(&mut s, ",");
        }
        push_decimal(&mut s, nums[i] as u64);
        i = i + 1;
    }
    assert(items.take(nums.len() as int) =~= items);
    s
}

/// The statement that reads an element.
pub fn get_pe_sql(r: &RefnoEnum) -> (s: String)
    ensures
        s@ == "select * omit id from only "@ + pe_key_text(r.spec_refno()) + " limit 1;"@,
{
    let mut s = String::new();
    push_str(&mut s, "select * omit id from only ");
    let v0 = r.to_pe_key();
    push_str(&mut s, v0.as_str());
    push_str(&mut s, " limit 1;");
    s
}

/// The statement that reads the default name of an element.
pub fn get_default_name_sql(r: &RefnoEnum) -> (s: String)
    ensures
        s@ == "return fn::default_name("@ + pe_key_text(r.spec_refno()) + ");"@,
{
    let mut s = String::new();
    push_str(&mut s, "return fn::default_name(");
    let v0 = r.to_pe_key();
    push_str(&mut s, v0.as_str());
    push_str(&mut s, ");");
    s
}

/// The statement that reads the ancestors of an element.
pub fn query_ancestor_refnos_sql(r: &RefnoEnum) -> (s: String)
    ensures
        s@ == "return fn::ancestor("@ + pe_key_text(r.spec_refno()) + ").refno;"@,
{
    let mut s = String::new();
    push_str(&mut s, "return fn::ancestor(");
    let v0 = r.to_pe_key();
    push_str(&mut s, v0.as_str());
    push_str(&mut s, ").refno;");
    s
}

/// The statement that reads the nearest ancestor of type `noun`.
pub fn query_ancestor_refno_by_type_sql(r: &RefnoEnum, noun: &str) -> (s: String)
    ensures
        s@ == "return fn::ancestor("@ + pe_key_text(r.spec_refno()) + ")[where noun='"@ + noun@ + "'][0]?.refno;"@,
{
    let mut s = String::new();
    push_str(&mut s, "return fn::ancestor(");
    let v0 = r.to_pe_key();
    push_str(&mut s, v0.as_str());
    push_str(&mut s, ")[where noun='");
    push_str(&mut s, noun);
    push_str(&mut s, "'][0]?.refno;");
    s
}

/// The statement that finds the element named `/name`.
pub fn get_refno_by_name_sql(name: &str) -> (s: String)
    ensures
        s@ == "select value id from only pe where name=\"/"@ + name@ + "\" limit 1;"@,
{
    let mut s = String::new();
    push_str(&mut s, "select value id from only pe where name=\"/");
    push_str(&mut s, name);
    push_str(&mut s, "\" limit 1;");
    s
}

/// The statement that reads the types of the ancestors of an element.
pub fn get_ancestor_types_sql(r: &RefnoEnum) -> (s: String)
    ensures
        s@ == "return fn::ancestor("@ + pe_key_text(r.spec_refno()) + ").noun;"@,
{
    let mut s = String::new();
    push_str(&mut s, "return fn::ancestor(");
    let v0 = r.to_pe_key();
    push_str(&mut s, v0.as_str());
    push_str(&mut s, ").noun;");
    s
}

/// The statement that reads the attributes of the ancestors of an element.
pub fn get_ancestor_attmaps_sql(r: &RefnoEnum) -> (s: String)
    ensures
        s@ == "return fn::ancestor("@ + pe_key_text(r.spec_refno()) + ").refno.*;"@,
{
    let mut s = String::new();
    push_str(&mut s, "return fn::ancestor(");
    let v0 = r.to_pe_key();
    push_str(&mut s, v0.as_str());
    push_str(&mut s, ").refno.*;");
    s
}

/// The statement that reads the type of an element.
pub fn get_type_name_sql(r: &RefnoEnum) -> (s: String)
    ensures
        s@ == "select value noun from only "@ + pe_key_text(r.spec_refno()) + " limit 1"@,
{
    let mut s = String::new();
    push_str(&mut s, "select value noun from only ");
    let v0 = r.to_pe_key();
    push_str(&mut s, v0.as_str());
    push_str(&mut s, " limit 1");
    s
}

/// The statement that reads the types of elements, in order.
pub fn get_type_names_sql(refnos: &[RefnoEnum]) -> (s: String)
    ensures
        s@ == "select value noun from ["@ + join_with(pe_keys_of(refnos@), ","@) + "]"@,
{
    let mut s = String::new();
    push_str(&mut s, "select value noun from [");
    let v0 = join_pe_keys(refnos);
    push_str(&mut s, v0.as_str());
    push_str(&mut s, "]");
    s
}

/// The statement that reads the type of the owner of an element.
pub fn get_owner_type_name_sql(r: &RefnoEnum) -> (s: String)
    ensures
        s@ == "return (select value owner.noun from only (type::record('pe', "@ + pe_key_text(r.spec_refno()) + ")));"@,
{
    let mut s = String::new();
    push_str(&mut s, "return (select value owner.noun from only (type::record('pe', ");
    let v0 = r.to_pe_key();
    push_str(&mut s, v0.as_str());
    push_str(&mut s, ")));");
    s
}

/// The statement that reads the type of an element and of its owner.
pub fn get_type_and_owner_type_sql(r: &RefnoEnum) -> (s: String)
    ensures
        s@ == "select value [noun, owner.noun] from only "@ + pe_key_text(r.spec_refno()) + " limit 1"@,
{
    let mut s = String::new();
    push_str(&mut s, "select value [noun, owner.noun] from only ");
    let v0 = r.to_pe_key();
    push_str(&mut s, v0.as_str());
    push_str(&mut s, " limit 1");
    s
}

/// The statement that reads the owner type of an element, to compare it.
pub fn is_owner_type_sql(r: &RefnoEnum) -> (s: String)
    ensures
        s@ == "select value owner.noun from only "@ + pe_key_text(r.spec_refno()) + " limit 1"@,
{
    let mut s = String::new();
    push_str(&mut s, "select value owner.noun from only ");
    let v0 = r.to_pe_key();
    push_str(&mut s, v0.as_str());
    push_str(&mut s, " limit 1");
    s
}

/// The statement that reads the owner type of an element when it is one of `owner_types`; none when there are no types (the answer is then no).
pub fn is_owner_type_in_sql(r: &RefnoEnum, owner_types: &[&str]) -> (s: Option<String>)
    ensures
        s is None <==> owner_types@.len() == 0,
        s matches Some(t) ==> t@ == "select value owner.noun from only "@ + pe_key_text(r.spec_refno()) + " where owner.noun IN ("@ + quoted_list(owner_types@.map_values(|s: &str| s@)) + ") limit 1"@,
{
    if owner_types.len() == 0 {
        return None;
    }
    let mut s = String::new();
    push_str(&mut s, "select value owner.noun from only ");
    let v0 = r.to_pe_key();
    push_str(&mut s, v0.as_str());
    push_str(&mut s, " where owner.noun IN (");
    let v1 = convert_to_sql_str_array(owner_types);
    push_str(&mut s, v1.as_str());
    push_str(&mut s, ") limit 1");
    Some(s)
}

/// The statement that reads the owner of an element when it has type `owner_type`.
pub fn get_owner_refno_by_type_sql(r: &RefnoEnum, owner_type: &str) -> (s: String)
    ensures
        s@ == "select value owner from only "@ + pe_key_text(r.spec_refno()) + " where owner.noun = '"@ + owner_type@ + "' limit 1"@,
{
    let mut s = String::new();
    push_str(&mut s, "select value owner from only ");
    let v0 = r.to_pe_key();
    push_str(&mut s, v0.as_str());
    push_str(&mut s, " where owner.noun = '");
    push_str(&mut s, owner_type);
    push_str(&mut s, "' limit 1");
    s
}

/// The statement that reads the owner of an element when its type is one of `owner_types`; none when there are no types (the answer is then none).
pub fn get_owner_refno_by_types_sql(r: &RefnoEnum, owner_types: &[&str]) -> (s: Option<String>)
    ensures
        s is None <==> owner_types@.len() == 0,
        s matches Some(t) ==> t@ == "select value owner from only "@ + pe_key_text(r.spec_refno()) + " where owner.noun IN ("@ + quoted_list(owner_types@.map_values(|s: &str| s@)) + ") limit 1"@,
{
    if owner_types.len() == 0 {
        return None;
    }
    let mut s = String::new();
    push_str(&mut s, "select value owner from only ");
    let v0 = r.to_pe_key();
    push_str(&mut s, v0.as_str());
    push_str(&mut s, " where owner.noun IN (");
    let v1 = convert_to_sql_str_array(owner_types);
    push_str(&mut s, v1.as_str());
    push_str(&mut s, ") limit 1");
    Some(s)
}

/// The statement that reads the owners of type `owner_type` of elements.
pub fn get_owner_refnos_by_type_sql(refnos: &[RefnoEnum], owner_type: &str) -> (s: String)
    ensures
        s@ == "select value owner from ["@ + join_with(pe_keys_of(refnos@), ","@) + "] where owner.noun = '"@ + owner_type@ + "'"@,
{
    let mut s = String::new();
    push_str(&mut s, "select value owner from [");
    let v0 = join_pe_keys(refnos);
    push_str(&mut s, v0.as_str());
    push_str(&mut s, "] where owner.noun = '");
    push_str(&mut s, owner_type);
    push_str(&mut s, "'");
    s
}

/// The statement that reads the distinct owners of elements whose type is one of `owner_types`; none when there are no types (the answer is then empty).
pub fn get_owner_refnos_by_types_sql(refnos: &[RefnoEnum], owner_types: &[&str]) -> (s: Option<String>)
    ensures
        s is None <==> owner_types@.len() == 0,
        s matches Some(t) ==> t@ == "array::distinct(select value owner from ["@ + join_with(pe_keys_of(refnos@), ","@) + "] where owner.noun IN ["@ + quoted_list(owner_types@.map_values(|s: &str| s@)) + "])"@,
{
    if owner_types.len() == 0 {
        return None;
    }
    let mut s = String::new();
    push_str(&mut s, "array::distinct(select value owner from [");
    let v0 = join_pe_keys(refnos);
    push_str(&mut s, v0.as_str());
    push_str(&mut s, "] where owner.noun IN [");
    let v1 = convert_to_sql_str_array(owner_types);
    push_str(&mut s, v1.as_str());
    push_str(&mut s, "])");
    Some(s)
}

/// The statement that finds the place of `r` among the children of
/// `parent` (those of type `noun` when one is given).
pub fn get_index_by_noun_in_parent_sql(parent: &RefnoEnum, r: &RefnoEnum, noun: Option<&str>) -> (s: String)
    ensures
        s@ == "\n        array::find_index((select value in.id from "@ + pe_key_text(parent.spec_refno())
            + "<-pe_owner "@ + (match noun {
            Some(n) => "where in.noun='"@ + n@ + "'"@,
            None => Seq::empty(),
        }) + "), "@ + pe_key_text(r.spec_refno()) + ")\n    "@,
{
    let mut s = String::new();
    push_str(&mut s, "\n        array::find_index((select value in.id from ");
    let k = parent.to_pe_key();
    push_str(&mut s, k.as_str());
    push_str(&mut s, "<-pe_owner ");
    match noun {
        Some(n) => {
            push_str(&mut s, "where in.noun='");
            push_str(&mut s, n);
            push_str(&mut s, "'");
        },
        None => {},
    }
    push_str(&mut s, "), ");
    let k2 = r.to_pe_key();
    push_str(&mut s, k2.as_str());
    push_str(&mut s, ")\n    ");
    s
}

/// The statement that reads the previous version of an element and its date.
pub fn query_prev_dt_refno_sql(r: &RefnoEnum) -> (s: String)
    ensures
        s@ == "select old_pe as refno, fn::ses_date(old_pe) as dt from only "@ + pe_key_text(r.spec_refno()) + " where old_pe!=none limit 1;"@,
{
    let mut s = String::new();
    push_str(&mut s, "select old_pe as refno, fn::ses_date(old_pe) as dt from only ");
    let v0 = r.to_pe_key();
    push_str(&mut s, v0.as_str());
    push_str(&mut s, " where old_pe!=none limit 1;");
    s
}

/// The statement that reads an element and its date.
pub fn query_dt_refno_sql(r: &RefnoEnum) -> (s: String)
    ensures
        s@ == "select id as refno, fn::ses_date(id) as dt from only "@ + pe_key_text(r.spec_refno()) + " limit 1;"@,
{
    let mut s = String::new();
    push_str(&mut s, "select id as refno, fn::ses_date(id) as dt from only ");
    let v0 = r.to_pe_key();
    push_str(&mut s, v0.as_str());
    push_str(&mut s, " limit 1;");
    s
}

/// The statement that reads the children of an element with their full names.
pub fn query_children_full_names_map_sql(r: &RefnoEnum) -> (s: String)
    ensures
        s@ == "select value [in, fn::default_full_name(in)] from "@ + pe_key_text(r.spec_refno()) + "<-pe_owner where record::exists(in)"@,
{
    let mut s = String::new();
    push_str(&mut s, "select value [in, fn::default_full_name(in)] from ");
    let v0 = r.to_pe_key();
    push_str(&mut s, v0.as_str());
    push_str(&mut s, "<-pe_owner where record::exists(in)");
    s
}

/// The statement that reads elements with their full names.
pub fn query_full_names_map_sql(refnos: &[RefnoEnum]) -> (s: String)
    ensures
        s@ == "select value [id, fn::default_full_name(id)] from "@ + join_with(pe_keys_of(refnos@), ","@),
{
    let mut s = String::new();
    push_str(&mut s, "select value [id, fn::default_full_name(id)] from ");
    let v0 = join_pe_keys(refnos);
    push_str(&mut s, v0.as_str());
    s
}

/// The statement that reads the full names of elements, in order.
pub fn query_full_names_sql(refnos: &[RefnoEnum]) -> (s: String)
    ensures
        s@ == "select value fn::default_full_name(id) from ["@ + join_with(pe_keys_of(refnos@), ","@) + "]"@,
{
    let mut s = String::new();
    push_str(&mut s, "select value fn::default_full_name(id) from [");
    let v0 = join_pe_keys(refnos);
    push_str(&mut s, v0.as_str());
    push_str(&mut s, "]");
    s
}

/// The statement that reads the attributes of an element.
pub fn get_named_attmap_sql(r: &RefnoEnum) -> (s: String)
    ensures
        s@ == "(select * from "@ + pe_key_text(r.spec_refno()) + ".refno)[0];"@,
{
    let mut s = String::new();
    push_str(&mut s, "(select * from ");
    let v0 = r.to_pe_key();
    push_str(&mut s, v0.as_str());
    push_str(&mut s, ".refno)[0];");
    s
}

/// The statement that reads the children of the owner `r`.
pub fn get_siblings_sql(r: &RefnoEnum) -> (s: String)
    ensures
        s@ == "select value in from "@ + pe_key_text(r.spec_refno()) + "<-pe_owner"@,
{
    let mut s = String::new();
    push_str(&mut s, "select value in from ");
    let v0 = r.to_pe_key();
    push_str(&mut s, v0.as_str());
    push_str(&mut s, "<-pe_owner");
    s
}

/// The statement that reads the full name of an element.
pub fn get_default_full_name_sql(r: &RefnoEnum) -> (s: String)
    ensures
        s@ == "RETURN fn::default_full_name("@ + pe_key_text(r.spec_refno()) + ")"@,
{
    let mut s = String::new();
    push_str(&mut s, "RETURN fn::default_full_name(");
    let v0 = r.to_pe_key();
    push_str(&mut s, v0.as_str());
    push_str(&mut s, ")");
    s
}

/// The statements that read the attributes of an element, the default user attributes of its type and its own user attribute values.
pub fn get_named_attmap_with_uda_sql(r: &RefnoEnum) -> (s: String)
    ensures
        s@ == "\n        -- 1. 通过refno查询元素的完整名称和所有属性\n        select fn::default_full_name(REFNO) as NAME, * from only "@ + pe_key_text(r.spec_refno()) + ".refno fetch pe;\n        \n        -- 2. 查询默认的UDA（用户定义属性）\n        -- 如果UDNA为空，则使用DYUDNA作为属性名\n        select string::concat(':', if UDNA==none || string::len(UDNA)==0 { DYUDNA } else { UDNA }) as u, \n               DFLT as v, \n               UTYP as t \n        from UDA \n        where !UHIDE and "@ + pe_key_text(r.spec_refno()) + ".noun in ELEL;\n        \n        -- 3. 查询覆盖的UDA值\n        -- 从ATT_UDA表中获取覆盖的UDA值\n        select string::concat(':', if u.UDNA==none || string::len(u.UDNA)==0 { u.DYUDNA } else { u.UDNA }) as u, \n               u.UTYP as t, \n               v \n        from (ATT_UDA:"@ + r.spec_refno().refno_text() + ").udas \n        where u.UTYP != none;\n        "@,
{
    let mut s = String::new();
    push_str(&mut s, "\n        -- 1. 通过refno查询元素的完整名称和所有属性\n        select fn::default_full_name(REFNO) as NAME, * from only ");
    let v0 = r.to_pe_key();
    push_str(&mut s, v0.as_str());
    push_str(&mut s, ".refno fetch pe;\n        \n        -- 2. 查询默认的UDA（用户定义属性）\n        -- 如果UDNA为空，则使用DYUDNA作为属性名\n        select string::concat(':', if UDNA==none || string::len(UDNA)==0 { DYUDNA } else { UDNA }) as u, \n               DFLT as v, \n               UTYP as t \n        from UDA \n        where !UHIDE and ");
    let v1 = r.to_pe_key();
    push_str(&mut s, v1.as_str());
    push_str(&mut s, ".noun in ELEL;\n        \n        -- 3. 查询覆盖的UDA值\n        -- 从ATT_UDA表中获取覆盖的UDA值\n        select string::concat(':', if u.UDNA==none || string::len(u.UDNA)==0 { u.DYUDNA } else { u.UDNA }) as u, \n               u.UTYP as t, \n               v \n        from (ATT_UDA:");
    let v2 = r.to_refno_str();
    push_str(&mut s, v2.as_str());
    push_str(&mut s, ").udas \n        where u.UTYP != none;\n        ");
    s
}

/// The statement that reads the catalogue component of an element through its catalogue references.
pub fn query_catr_via_sql_text(r: &RefnoEnum) -> (s: String)
    ensures
        s@ == "\n        select value array::first(array::flatten([\n            refno.CATR.refno.CATR[where noun in [\"SCOM\", \"SPRF\", \"SFIT\", \"JOIN\", \"SPCO\"]],\n            refno.CATR.refno.PRTREF.refno.CATR[where noun in [\"SCOM\", \"SPRF\", \"SFIT\", \"JOIN\", \"SPCO\"]],\n            refno.CATR[where noun in [\"SCOM\", \"SPRF\", \"SFIT\", \"JOIN\", \"SPCO\"]]\n        ]))\n        from only "@ + pe_key_text(r.spec_refno()) + " limit 1;\n    "@,
{
    let mut s = String::new();
    push_str(&mut s, "\n        select value array::first(array::flatten([\n            refno.CATR.refno.CATR[where noun in [\"SCOM\", \"SPRF\", \"SFIT\", \"JOIN\", \"SPCO\"]],\n            refno.CATR.refno.PRTREF.refno.CATR[where noun in [\"SCOM\", \"SPRF\", \"SFIT\", \"JOIN\", \"SPCO\"]],\n            refno.CATR[where noun in [\"SCOM\", \"SPRF\", \"SFIT\", \"JOIN\", \"SPCO\"]]\n        ]))\n        from only ");
    let v0 = r.to_pe_key();
    push_str(&mut s, v0.as_str());
    push_str(&mut s, " limit 1;\n    ");
    s
}

/// The statement that reads the attributes of the catalogue component of an element.
pub fn get_cat_attmap_sql(r: &RefnoEnum) -> (s: String)
    ensures
        s@ == "\n        (select value [refno.CATR.refno.CATR, refno.CATR.refno.PRTREF.refno.CATR, refno.SPRE, refno.SPRE.refno.CATR, refno.CATR][where noun in [\"SCOM\", \"SPRF\", \"SFIT\", \"JOIN\", \"SPCO\"]].refno.*\n        from only "@ + pe_key_text(r.spec_refno()) + " limit 1 fetch SCOM)[0] "@,
{
    let mut s = String::new();
    push_str(&mut s, "\n        (select value [refno.CATR.refno.CATR, refno.CATR.refno.PRTREF.refno.CATR, refno.SPRE, refno.SPRE.refno.CATR, refno.CATR][where noun in [\"SCOM\", \"SPRF\", \"SFIT\", \"JOIN\", \"SPCO\"]].refno.*\n        from only ");
    let v0 = r.to_pe_key();
    push_str(&mut s, v0.as_str());
    push_str(&mut s, " limit 1 fetch SCOM)[0] ");
    s
}

/// The statement that reads the tree nodes of the children of an element.
pub fn get_children_ele_nodes_sql(r: &RefnoEnum) -> (s: String)
    ensures
        s@ == "\n        select refno, noun, name, owner, 0 as order,\n                        op?:0 as op,\n                        array::len((select value refnos from only type::record(\"his_pe\", record::id($self.id)))?:[]) as mod_cnt,\n                        array::len(children) as children_count,\n                        status_code as status_code\n                    from "@ + pe_key_text(r.spec_refno()) + ".children where id!=none and record::exists(id) and !deleted\n        "@,
{
    let mut s = String::new();
    push_str(&mut s, "\n        select refno, noun, name, owner, 0 as order,\n                        op?:0 as op,\n                        array::len((select value refnos from only type::record(\"his_pe\", record::id($self.id)))?:[]) as mod_cnt,\n                        array::len(children) as children_count,\n                        status_code as status_code\n                    from ");
    let v0 = r.to_pe_key();
    push_str(&mut s, v0.as_str());
    push_str(&mut s, ".children where id!=none and record::exists(id) and !deleted\n        ");
    s
}

/// The statement that reads the live children of an element.
pub fn get_children_refnos_sql(r: &RefnoEnum) -> (s: String)
    ensures
        s@ == "select value in from "@ + pe_key_text(r.spec_refno()) + "<-pe_owner where in.id!=none and record::exists(in.id) and !in.deleted"@,
{
    let mut s = String::new();
    push_str(&mut s, "select value in from ");
    let v0 = r.to_pe_key();
    push_str(&mut s, v0.as_str());
    push_str(&mut s, "<-pe_owner where in.id!=none and record::exists(in.id) and !in.deleted");
    s
}

/// The statements that group elements and their children by catalogue hash.
pub fn query_group_by_cata_hash_sql(refnos: &[RefnoEnum]) -> (s: String)
    ensures
        s@ == "\n            let $a = array::flatten(select value array::flatten([id, <-pe_owner.in]) from ["@ + join_with(pe_keys_of(refnos@), ","@) + "])[? noun!=NONE && !deleted];\n            select [cata_hash, type::record('inst_info', cata_hash).id!=none,\n                    type::record('inst_info', cata_hash).ptset] as k,\n                 array::group(id) as v\n            from $a where noun not in [\"BRAN\", \"HANG\"]  group by k;\n        "@,
{
    let mut s = String::new();
    push_str(&mut s, "\n            let $a = array::flatten(select value array::flatten([id, <-pe_owner.in]) from [");
    let v0 = join_pe_keys(refnos);
    push_str(&mut s, v0.as_str());
    push_str(&mut s, "])[? noun!=NONE && !deleted];\n            select [cata_hash, type::record('inst_info', cata_hash).id!=none,\n                    type::record('inst_info', cata_hash).ptset] as k,\n                 array::group(id) as v\n            from $a where noun not in [\"BRAN\", \"HANG\"]  group by k;\n        ");
    s
}

/// The statement that reads the reference `foreign_type` of elements and the name it points at.
pub fn query_foreign_refnos_sql(refnos: &[RefU64], foreign_type: &str) -> (s: String)
    ensures
        s@ == "select refno, refno."@ + foreign_type@ + " as foreign_refno,refno."@ + foreign_type@ + ".refno.NAME as name from ["@ + join_with(pe_keys64_of(refnos@), ","@) + "];"@,
{
    let mut s = String::new();
    push_str(&mut s, "select refno, refno.");
    push_str(&mut s, foreign_type);
    push_str(&mut s, " as foreign_refno,refno.");
    push_str(&mut s, foreign_type);
    push_str(&mut s, ".refno.NAME as name from [");
    let v0 = join_pe_keys64(refnos);
    push_str(&mut s, v0.as_str());
    push_str(&mut s, "];");
    s
}

/// The statement that reads the types of elements, in order.
pub fn query_types_sql(refnos: &[RefU64]) -> (s: String)
    ensures
        s@ == "select value noun from ["@ + join_with(pe_keys64_of(refnos@), ","@) + "]"@,
{
    let mut s = String::new();
    push_str(&mut s, "select value noun from [");
    let v0 = join_pe_keys64(refnos);
    push_str(&mut s, v0.as_str());
    push_str(&mut s, "]");
    s
}

/// The statement that reads the length of a pipe component, rounded to two places.
pub fn query_bran_fixing_length_sql(r: &RefU64) -> (s: String)
    ensures
        s@ == "return math::fixed(fn::bran_comp_len("@ + pe_key_text(*r) + ")?:0.0,2)"@,
{
    let mut s = String::new();
    push_str(&mut s, "return math::fixed(fn::bran_comp_len(");
    let v0 = r.to_pe_key();
    push_str(&mut s, v0.as_str());
    push_str(&mut s, ")?:0.0,2)");
    s
}

/// The statement that reads the history versions of an element.
pub fn query_history_pes_sql(r: &RefnoEnum) -> (s: String)
    ensures
        s@ == "\n            select value id from only pe_ses_h:['"@ + r.spec_refno().refno_text() + "', 0]..['"@ + r.spec_refno().refno_text() + "'];\n        "@,
{
    let mut s = String::new();
    push_str(&mut s, "\n            select value id from only pe_ses_h:['");
    let v0 = r.to_refno_str();
    push_str(&mut s, v0.as_str());
    push_str(&mut s, "', 0]..['");
    let v1 = r.to_refno_str();
    push_str(&mut s, v1.as_str());
    push_str(&mut s, "'];\n        ");
    s
}

/// The statement that finds the session of an element nearest to `sesno` in database `dbnum`.
pub fn query_refno_sesno_sql(r: &RefU64, sesno: u32, dbnum: i32) -> (s: String)
    ensures
        s@ == "fn::latest_pe_sesno("@ + pe_key_text(*r) + ", "@ + decimal(sesno as nat) + ", "@ + signed_decimal(dbnum as int) + ")"@,
{
    let mut s = String::new();
    push_str(&mut s, "fn::latest_pe_sesno(");
    let v0 = r.to_pe_key();
    push_str(&mut s, v0.as_str());
    push_str(&mut s, ", ");
    let v1 = decimal_string(sesno as u64);
    push_str(&mut s, v1.as_str());
    push_str(&mut s, ", ");
    let v2 = signed_decimal_string(dbnum);
    push_str(&mut s, v2.as_str());
    push_str(&mut s, ")");
    s
}

/// The statement that reads the user attribute `uda` of an element.
pub fn get_uda_value_sql(r: &RefnoEnum, uda: &str) -> (s: String)
    ensures
        s@ == "select value fn::get_uda_value(id,'"@ + uda@ + "') from "@ + pe_key_text(r.spec_refno()),
{
    let mut s = String::new();
    push_str(&mut s, "select value fn::get_uda_value(id,'");
    push_str(&mut s, uda);
    push_str(&mut s, "') from ");
    let v0 = r.to_pe_key();
    push_str(&mut s, v0.as_str());
    s
}

/// The statement that inserts `value` into `table`, keeping existing rows.
pub fn insert_into_table_sql(table: &str, value: &str) -> (s: String)
    ensures
        s@ == "insert ignore into "@ + table@ + " "@ + value@,
{
    let mut s = String::new();
    push_str(&mut s, "insert ignore into ");
    push_str(&mut s, table);
    push_str(&mut s, " ");
    push_str(&mut s, value);
    s
}

/// The statement that reads the elements of type `noun` (its table, in
/// upper case) in the databases `dbnums`.
pub fn query_refnos_by_type_sql(noun: &str, dbnums: &[u32]) -> (s: String)
    ensures
        s@ == "select value id from "@ + uppercase_of(noun@) + " where dbnum in ["@ + decimal_list(
            dbnums@,
        ) + "]"@,
{
    let mut s = String::new();
    push_str(&mut s, "select value id from ");
    let t = to_uppercase(noun);
    push_str(&mut s, t.as_str());
    push_str(&mut s, " where dbnum in [");
    let v = join_decimals(dbnums);
    push_str(&mut s, v.as_str());
    push_str(&mut s, "]");
    s
}

/// A path of references written for a statement: each `->` becomes
/// `.refno.` and a leading `.` is dropped.
pub open spec fn path_expr(path: Seq<char>) -> Seq<char> {
    let p = replace_all(path, "->"@, ".refno."@);
    if p.len() > 0 && p[0] == '.' {
        p.drop_first()
    } else {
        p
    }
}

/// The path `path` as written in a statement.
pub fn path_expr_text(path: &str) -> (r: String)
    ensures
        r@ == path_expr(path@),
{
    proof {
        reveal_strlit("->");
    }
    let p = str_replace(path, "->", ".refno.");
    let v = chars_of(p.as_str());
    if v.len() > 0 && v[0] == '.' {
        let mut out: Vec<char> = Vec::new();
        let mut i: usize = 1;
        while i < v.len()
            invariant
                1 <= i <= v.len(),
                out@ == v@.subrange(1, i as int),
            decreases v.len() - i,
        {
            out.push(v[i]);
            i = i + 1;
            assert(out@ =~= v@.subrange(1, i as int));
        }
        assert(out@ =~= v@.drop_first());
        string_of(&out)
    } else {
        p
    }
}

/// The paths as written in a statement, separated by commas.
fn join_paths(paths: &[&str]) -> (joined: String)
    ensures
        joined@ == join_with(paths@.map_values(|p: &str| path_expr(p@)), ","@),
{
    let ghost exprs = paths@.map_values(|p: &str| path_expr(p@));
    let mut joined = String::new();
    let mut i: usize = 0;
    while i < paths.len()
        invariant
            i <= paths.len(),
            exprs == paths@.map_values(|p: &str| path_expr(p@)),
            joined@ == join_with(exprs.take(i as int), ","@),
        decreases paths.len() - i,
    {
        assert(exprs.take(i + 1).drop_last() =~= exprs.take(i as int));
        if i > 0 {
            push_str(&mut joined, ",");
        }
        let e = path_expr_text(paths[i]);
        assert(e@ == exprs[i as int]);
        push_str(&mut joined, e.as_str());
        i = i + 1;
    }
    assert(exprs.take(paths.len() as int) =~= exprs);
    joined
}

/// The statement that reads the first element reached from `r` by one of
/// the reference paths `paths`.
pub fn query_single_by_paths_sql(r: &RefnoEnum, paths: &[&str]) -> (s: String)
    ensures
        s@ == "(select value refno.* from (select value ["@ + join_with(
            paths@.map_values(|p: &str| path_expr(p@)),
            ","@,
        ) + "] from only "@ + pe_key_text(r.spec_refno()) + ") where id != none)[0]"@,
{
    let joined = join_paths(paths);
    let mut s = String::new();
    push_str(&mut s, "(select value refno.* from (select value [");
    push_str(&mut s, joined.as_str());
    push_str(&mut s, "] from only ");
    let k = r.to_pe_key();
    push_str(&mut s, k.as_str());
    push_str(&mut s, ") where id != none)[0]");
    s
}


/// Children of a parent by type: head before the parent key.
pub const NOUN_CHILDREN_HEAD: &'static str = r#"
        SELECT
            fn::default_name(id) as name,
            id,
            noun,
            array::len(children) as children_cnt,
            fn::default_name(owner) as owner_name,
            owner as owner,
            IF fn::ses_date(id) != NONE THEN <datetime> fn::ses_date(id) ELSE NONE END as last_modified_date
        FROM "#;

/// Children of a parent by type: between the parent key and the type.
pub const NOUN_CHILDREN_MIDDLE: &'static str = r#".children
        WHERE id != none
            AND record::exists(id)
            AND !deleted
            AND noun = '"#;

/// Children of a parent by type: between the type and the name filter.
pub const NOUN_CHILDREN_FILTER: &'static str = r#"'
"#;

/// Children of a parent by type: what follows the name filter.
pub const NOUN_CHILDREN_TAIL: &'static str = r#"
        "#;

/// Elements of a type: head before the type.
pub const NOUN_TABLE_HEAD: &'static str = r#"
        SELECT
            fn::default_name(REFNO) as name,
            REFNO as id,
            TYPE as noun,
            array::len(REFNO.children) as children_cnt,
            fn::default_name(REFNO.owner) as owner_name,
            REFNO.owner as owner,
            IF fn::ses_date(REFNO) != NONE THEN <datetime> fn::ses_date(REFNO) ELSE NONE END as last_modified_date
        FROM "#;

/// Elements of a type: between the type and the condition.
pub const NOUN_TABLE_MIDDLE: &'static str = r#"
        "#;

/// Elements of a type: what follows the condition.
pub const NOUN_TABLE_TAIL: &'static str = r#"
        "#;

/// A name filter made safe for a quoted literal: each `'` is escaped.
pub open spec fn sanitized_filter(filter: Seq<char>) -> Seq<char> {
    replace_all(filter, "'"@, "\\'"@)
}

/// The name condition on children, empty without a filter.
pub open spec fn child_name_clause(filter: Option<Seq<char>>) -> Seq<char> {
    match filter {
        Some(f) => "        AND string::contains(name ?? '', '"@ + sanitized_filter(f) + "')"@,
        None => Seq::empty(),
    }
}

/// The condition on the elements of a type.
pub open spec fn table_where_clause(filter: Option<Seq<char>>) -> Seq<char> {
    match filter {
        Some(f) => "WHERE REFNO!=NONE AND NAME != none AND string::contains(NAME, '"@
            + sanitized_filter(f) + "')"@,
        None => "WHERE REFNO!=NONE "@,
    }
}

/// The text of an optional filter.
pub open spec fn filter_view(filter: Option<&str>) -> Option<Seq<char>> {
    match filter {
        Some(f) => Some(f@),
        None => None,
    }
}

/// The filter with each `'` escaped.
fn sanitize(filter: &str) -> (r: String)
    ensures
        r@ == sanitized_filter(filter@),
{
    proof {
        reveal_strlit("'");
    }
    str_replace(filter, "'", "\\'")
}

/// The statement that reads the children of type `noun` of `parent`,
/// whose name contains `name_filter` when one is given.
pub fn noun_children_sql(parent: &RefnoEnum, noun: &str, name_filter: Option<&str>) -> (s: String)
    ensures
        s@ == NOUN_CHILDREN_HEAD@ + pe_key_text(parent.spec_refno()) + NOUN_CHILDREN_MIDDLE@ + noun@
            + NOUN_CHILDREN_FILTER@ + child_name_clause(filter_view(name_filter))
            + NOUN_CHILDREN_TAIL@,
{
    let mut s = owned(NOUN_CHILDREN_HEAD);
    let k = parent.to_pe_key();
    push_str(&mut s, k.as_str());
    push_str(&mut s, NOUN_CHILDREN_MIDDLE);
    push_str(&mut s, noun);
    push_str(&mut s, NOUN_CHILDREN_FILTER);
    match name_filter {
        Some(f) => {
            push_str(&mut s, "        AND string::contains(name ?? '', '");
            let g = sanitize(f);
            push_str(&mut s, g.as_str());
            push_str(&mut s, "')");
        },
        None => {},
    }
    push_str(&mut s, NOUN_CHILDREN_TAIL);
    s
}

/// The statement that reads the elements of type `noun`, whose name
/// contains `name_filter` when one is given.
pub fn noun_table_sql(noun: &str, name_filter: Option<&str>) -> (s: String)
    ensures
        s@ == NOUN_TABLE_HEAD@ + noun@ + NOUN_TABLE_MIDDLE@ + table_where_clause(
            filter_view(name_filter),
        ) + NOUN_TABLE_TAIL@,
{
    let mut s = owned(NOUN_TABLE_HEAD);
    push_str(&mut s, noun);
    push_str(&mut s, NOUN_TABLE_MIDDLE);
    match name_filter {
        Some(f) => {
            push_str(&mut s, "WHERE REFNO!=NONE AND NAME != none AND string::contains(NAME, '");
            let g = sanitize(f);
            push_str(&mut s, g.as_str());
            push_str(&mut s, "')");
        },
        None => push_str(&mut s, "WHERE REFNO!=NONE "),
    }
    push_str(&mut s, NOUN_TABLE_TAIL);
    s
}

/// A name as stored: with a leading `/`.
pub open spec fn stored_name(name: Seq<char>) -> Seq<char> {
    if has_prefix(name, "/"@) {
        name
    } else {
        "/"@ + name
    }
}

/// The statement that reads the elements with the names `names` (each
/// given a leading `/` when it has none), by a JSON array of the names.
pub fn query_refnos_from_names_sql(names: &Vec<String>) -> (s: String)
    ensures
        s@ == "select refno,name,noun,owner,0 as children_count , 0 as version, 0 as order from pe where name in "@
            + json_strings(names@.map_values(|n: String| stored_name(n@))) + " and !deleted"@,
{
    let mut stored: Vec<String> = Vec::new();
    let mut i: usize = 0;
    while i < names.len()
        invariant
            i <= names.len(),
            string_views(stored@) == names@.take(i as int).map_values(|n: String| stored_name(n@)),
        decreases names.len() - i,
    {
        let n = names[i].as_str();
        let t = if str_starts_with(n, "/") {
            owned(n)
        } else {
            let mut t = owned("/");
            push_str(&mut t, n);
            t
        };
        let ghost prev = stored@;
        stored.push(t);
        assert(string_views(stored@) =~= string_views(prev).push(stored_name(names@[i as int]@)));
        assert(names@.take(i + 1) =~= names@.take(i as int).push(names@[i as int]));
        i = i + 1;
        assert(string_views(stored@) =~= names@.take(i as int).map_values(|n: String| stored_name(n@)));
    }
    assert(names@.take(names.len() as int) =~= names@);
    let json = strings_to_json(&stored);
    let mut s = owned("select refno,name,noun,owner,0 as children_count , 0 as version, 0 as order from pe where name in ");
    push_str(&mut s, json.as_str());
    push_str(&mut s, " and !deleted");
    s
}

/// The statement that reads the elements (or, with `get_owner`, their
/// owners) of the same type as `r` in the databases `dbnums`.
pub fn query_same_type_refnos_sql(r: &RefnoEnum, dbnums: &[u32], get_owner: bool) -> (s: String)
    ensures
        ({
            let base = "select value id from type::table("@ + pe_key_text(r.spec_refno())
                + ".noun) where REFNO.dbnum in ["@ + decimal_list(dbnums@) + "] and !deleted"@;
            s@ == if get_owner {
                replace_all(base, "value id"@, "value owner"@)
            } else {
                base
            }
        }),
{
    let mut s = owned("select value id from type::table(");
    let k = r.to_pe_key();
    push_str(&mut s, k.as_str());
    push_str(&mut s, ".noun) where REFNO.dbnum in [");
    let v = join_decimals(dbnums);
    push_str(&mut s, v.as_str());
    push_str(&mut s, "] and !deleted");
    if get_owner {
        proof {
            reveal_strlit("value id");
        }
        str_replace(s.as_str(), "value id", "value owner")
    } else {
        s
    }
}

} // verus!
