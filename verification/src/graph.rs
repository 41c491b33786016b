//! The statements that walk the ownership graph: descendants and children
//! of elements by type and depth, ancestors by type, and the geometry
//! below an element.
use vstd::prelude::*;
use crate::model_write::{convert_to_sql_str_array, quoted_list};
use crate::queries::{types_array, types_array_text};
use crate::refno::{pe_key_text, pe_keys_of, RefU64, RefnoEnum};
use crate::text::{join_with, owned, push_str};

verus! {

/// The `pe` keys of elements separated by `, `.
pub fn join_pe_keys_spaced(refnos: &[RefnoEnum]) -> (s: String)
    ensures
        s@ == join_with(pe_keys_of(refnos@), ", "@),
{
    let ghost keys = pe_keys_of(refnos@);
    let mut s = String::new();
    let mut i: usize = 0;
    while i < refnos.len()
        invariant
            i <= refnos.len(),
            keys == pe_keys_of(refnos@),
            s@ == join_with(keys.take(i as int), ", "@),
        decreases refnos.len() - i,
    {
        assert(keys.take(i + 1).drop_last() =~= keys.take(i as int));
        if i > 0 {
            push_str(&mut s, ", ");
        }
        let k = refnos[i].to_pe_key();
        push_str(&mut s, k.as_str());
        i = i + 1;
    }
    assert(keys.take(refnos.len() as int) =~= keys);
    s
}

/// The elements of packed reference numbers.
pub open spec fn as_refnos(refnos: Seq<RefU64>) -> Seq<RefnoEnum> {
    refnos.map_values(|r: RefU64| RefnoEnum::Refno(r))
}

/// The type list of a descendant search: `[]` for no types, else the
/// quoted types in brackets.
pub open spec fn descendant_types(nouns: Seq<Seq<char>>) -> Seq<char> {
    if nouns.len() == 0 {
        "[]"@
    } else {
        "["@ + quoted_list(nouns) + "]"@
    }
}

/// The type list of a descendant search.
fn descendant_types_text(nouns: &[&str]) -> (r: String)
    ensures
        r@ == descendant_types(nouns@.map_values(|s: &str| s@)),
{
    if nouns.len() == 0 {
        owned("[]")
    } else {
        let mut r = owned("[");
        let q = convert_to_sql_str_array(nouns);
        push_str(&mut r, q.as_str());
        push_str(&mut r, "]");
        r
    }
}

/// `true` or `false`.
pub open spec fn flag_text(b: bool) -> Seq<char> {
    if b {
        "true"@
    } else {
        "false"@
    }
}

/// `true` or `false`.
fn flag(b: bool) -> (r: &'static str)
    ensures
        r@ == flag_text(b),
{
    if b {
        "true"
    } else {
        "false"
    }
}

/// A depth range, `..` (any depth) when none is given.
pub open spec fn range_text(range: Option<&str>) -> Seq<char> {
    match range {
        Some(r) => r@,
        None => ".."@,
    }
}

/// A depth range, `..` when none is given.
fn range_or_any(range: Option<&str>) -> (r: &str)
    ensures
        r@ == range_text(range),
{
    match range {
        Some(r) => r,
        None => "..",
    }
}

/// The statement that reads the descendants of a node of the product
/// breakdown, down to eleven levels, that are not deleted.
pub fn query_deep_children_refnos_pbs_sql(key: &str) -> (s: String)
    ensures
        s@ == "\n             return array::flatten( object::values( select\n                  [id] as p0, <-pbs_owner[? !in.deleted]<-(? as p1)<-pbs_owner<-(? as p2)<-pbs_owner<-(? as p3)<-pbs_owner<-(? as p4)<-pbs_owner<-(? as p5)<-pbs_owner<-(? as p6)<-pbs_owner<-(? as p7)<-pbs_owner<-(? as p8)<-pbs_owner<-(? as p9)<-pbs_owner<-(? as p10)<-pbs_owner<-(? as p11)\n                   from only "@ + key@ + " ) )[? !deleted];\n            "@,
{
    let mut s = owned("\n             return array::flatten( object::values( select\n                  [id] as p0, <-pbs_owner[? !in.deleted]<-(? as p1)<-pbs_owner<-(? as p2)<-pbs_owner<-(? as p3)<-pbs_owner<-(? as p4)<-pbs_owner<-(? as p5)<-pbs_owner<-(? as p6)<-pbs_owner<-(? as p7)<-pbs_owner<-(? as p8)<-pbs_owner<-(? as p9)<-pbs_owner<-(? as p10)<-pbs_owner<-(? as p11)\n                   from only ");
    push_str(&mut s, key);
    push_str(&mut s, " ) )[? !deleted];\n            ");
    s
}

/// The statement that reads the product breakdown nodes with the keys
/// `keys` whose type is one of `nouns`; none when the keys are empty.
pub fn query_ele_filter_deep_children_pbs_sql(keys: &Vec<String>, nouns: &[&str]) -> (s: Option<String>)
    ensures
        s is None <==> join_with(keys@.map_values(|k: String| k@), ","@).len() == 0,
        s matches Some(t) ==> t@ == "select * from ["@ + join_with(keys@.map_values(|k: String| k@), ","@)
            + "] where noun in ["@ + quoted_list(nouns@.map_values(|n: &str| n@)) + "]"@,
{
    let joined = crate::text::join_strings(keys, ",");
    if crate::text::chars_of(joined.as_str()).len() == 0 {
        return None;
    }
    let mut s = owned("select * from [");
    push_str(&mut s, joined.as_str());
    push_str(&mut s, "] where noun in [");
    let q = convert_to_sql_str_array(nouns);
    push_str(&mut s, q.as_str());
    push_str(&mut s, "]");
    Some(s)
}

/// The statement that reads the descendants of `r` of the types `nouns`
/// along the relation path `relate` (built from the type of `r`).
pub fn query_filter_deep_children_by_path_sql(relate: &str, r: &RefnoEnum, nouns: &[&str]) -> (s: String)
    ensures
        s@ == "select value refno from array::flatten(object::values(select "@ + relate@ + " from only "@ + pe_key_text(r.spec_refno()) + ")) where noun in ["@
            + quoted_list(nouns@.map_values(|n: &str| n@)) + "]"@,
{
    let mut s = owned("select value refno from array::flatten(object::values(select ");
    push_str(&mut s, relate);
    push_str(&mut s, " from only ");
    let k = r.to_pe_key();
    push_str(&mut s, k.as_str());
    push_str(&mut s, ")) where noun in [");
    let q = convert_to_sql_str_array(nouns);
    push_str(&mut s, q.as_str());
    push_str(&mut s, "]");
    s
}

/// The statement that reads the distinct descendants of `refnos` that have
/// catalogue references (and, with `filter`, no instances); none for no
/// elements.
pub fn query_deep_children_refnos_filter_spre_sql(refnos: &[RefnoEnum], filter: bool) -> (s: Option<String>)
    ensures
        s is None <==> refnos@.len() == 0,
        s matches Some(t) ==> t@ == "\n        array::distinct(array::filter(array::flatten(array::map(["@ + join_with(pe_keys_of(refnos@), ", "@) + "], |$refno|\n            fn::collect_descendants_filter_spre($refno, [], "@
            + flag_text(filter) + ", none, \"..\")\n        )), |$v| $v != none));\n        "@,
{
    if refnos.len() == 0 {
        return None;
    }
    let mut s = owned("\n        array::distinct(array::filter(array::flatten(array::map([");
    let l = join_pe_keys_spaced(refnos);
    push_str(&mut s, l.as_str());
    push_str(&mut s, "], |$refno|\n            fn::collect_descendants_filter_spre($refno, [], ");
    push_str(&mut s, flag(filter));
    push_str(&mut s, ", none, \"..\")\n        )), |$v| $v != none));\n        ");
    Some(s)
}

/// The statement that reads the descendants of the latest version of `r`
/// of the types `nouns` (with `filter`, only those without instances).
pub fn collect_descendants_filter_inst_sql(r: &RefnoEnum, nouns: &[&str], filter: bool) -> (s: String)
    ensures
        s@ == "fn::collect_descendants_filter_inst("@ + pe_key_text(r.spec_refno()) + ", "@ + descendant_types(
            nouns@.map_values(|n: &str| n@),
        ) + ", "@ + flag_text(filter) + ", true, false);"@,
{
    let mut s = owned("fn::collect_descendants_filter_inst(");
    let k = r.to_pe_key();
    push_str(&mut s, k.as_str());
    push_str(&mut s, ", ");
    let t = descendant_types_text(nouns);
    push_str(&mut s, t.as_str());
    push_str(&mut s, ", ");
    push_str(&mut s, flag(filter));
    push_str(&mut s, ", true, false);");
    s
}

/// Elements whose instances are checked per statement for a past version.
pub const VERSIONED_CHUNK: usize = 500;

/// The condition that keeps elements without instances or pipe runs.
pub const NO_INSTANCES_CLAUSE: &'static str = " where count(SELECT VALUE id FROM ->inst_relate LIMIT 1) = 0 and count(SELECT VALUE id FROM ->tubi_relate LIMIT 1) = 0";

/// The statement that keeps the elements of a chunk (with `filter`, only
/// those without instances or pipe runs), for a past version.
pub fn versioned_chunk_sql(chunk: &[RefnoEnum], filter: bool) -> (s: String)
    ensures
        s@ == "select value id from ["@ + join_with(pe_keys_of(chunk@), ","@) + "]"@ + (if filter {
            NO_INSTANCES_CLAUSE@
        } else {
            Seq::empty()
        }) + ";"@,
{
    let mut s = owned("select value id from [");
    let l = crate::refno::join_pe_keys(chunk);
    push_str(&mut s, l.as_str());
    push_str(&mut s, "]");
    if filter {
        push_str(&mut s, NO_INSTANCES_CLAUSE);
    }
    push_str(&mut s, ";");
    s
}

/// The statement that reads the distinct descendants of `refnos` of the
/// types `nouns` (with `filter`, only those without instances); none for no
/// elements.
pub fn query_deep_children_filter_inst_sql(refnos: &[RefU64], nouns: &[&str], filter: bool) -> (s: Option<String>)
    ensures
        s is None <==> refnos@.len() == 0,
        s matches Some(t) ==> t@ == "\n        array::distinct(array::filter(array::flatten(array::map(["@ + join_with(pe_keys_of(as_refnos(refnos@)), ", "@)
            + "], |$refno|\n            fn::collect_descendants_filter_inst($refno, "@ + descendant_types(nouns@.map_values(|n: &str| n@)) + ", "@
            + flag_text(filter) + ", true, false)\n        )), |$v| $v != none));\n        "@,
{
    if refnos.len() == 0 {
        return None;
    }
    let mut rs: Vec<RefnoEnum> = Vec::new();
    let mut i: usize = 0;
    while i < refnos.len()
        invariant
            i <= refnos.len(),
            rs@ == as_refnos(refnos@.take(i as int)),
        decreases refnos.len() - i,
    {
        rs.push(RefnoEnum::Refno(refnos[i]));
        i = i + 1;
        assert(rs@ =~= as_refnos(refnos@.take(i as int)));
    }
    assert(refnos@.take(refnos.len() as int) =~= refnos@);
    let mut s = owned("\n        array::distinct(array::filter(array::flatten(array::map([");
    let l = join_pe_keys_spaced(rs.as_slice());
    push_str(&mut s, l.as_str());
    push_str(&mut s, "], |$refno|\n            fn::collect_descendants_filter_inst($refno, ");
    let t = descendant_types_text(nouns);
    push_str(&mut s, t.as_str());
    push_str(&mut s, ", ");
    push_str(&mut s, flag(filter));
    push_str(&mut s, ", true, false)\n        )), |$v| $v != none));\n        ");
    Some(s)
}

/// The statements that collect the distinct descendants of `refnos`.
pub open spec fn descendant_sql_of(
    refnos: Seq<RefnoEnum>,
    nouns: Seq<Seq<char>>,
    range: Seq<char>,
    select_expr: Seq<char>,
) -> Seq<char> {
    "\n        let $ids = array::distinct(array::filter(array::flatten(array::map(["@ + join_with(pe_keys_of(refnos), ", "@) + "], |$refno|\n            fn::collect_descendant_ids_by_types($refno, "@ + descendant_types(nouns)
        + ", none, \""@ + range + "\")\n        )), |$v| $v != none));\n        SELECT "@ + select_expr + " FROM $ids;\n        "@
}

/// The statements that collect the distinct descendants of `refnos` of the
/// types `nouns` (all types for none) within the depth `range` (any depth
/// for none), then read `select_expr` of them; none for no elements.
pub fn collect_descendant_with_expr_sql(
    refnos: &[RefnoEnum],
    nouns: &[&str],
    range: Option<&str>,
    select_expr: &str,
) -> (s: Option<String>)
    ensures
        s is None <==> refnos@.len() == 0,
        s matches Some(t) ==> t@ == descendant_sql_of(
            refnos@,
            nouns@.map_values(|n: &str| n@),
            range_text(range),
            select_expr@,
        ),
{
    if refnos.len() == 0 {
        return None;
    }
    let mut s = owned("\n        let $ids = array::distinct(array::filter(array::flatten(array::map([");
    let l = join_pe_keys_spaced(refnos);
    push_str(&mut s, l.as_str());
    push_str(&mut s, "], |$refno|\n            fn::collect_descendant_ids_by_types($refno, ");
    let t = descendant_types_text(nouns);
    push_str(&mut s, t.as_str());
    push_str(&mut s, ", none, \"");
    push_str(&mut s, range_or_any(range));
    push_str(&mut s, "\")\n        )), |$v| $v != none));\n        SELECT ");
    push_str(&mut s, select_expr);
    push_str(&mut s, " FROM $ids;\n        ");
    Some(s)
}

/// The statements that collect the ids of the descendants.
pub fn collect_descendant_filter_ids_sql(refnos: &[RefnoEnum], nouns: &[&str], range: Option<&str>) -> (s: Option<String>)
    ensures
        s is None <==> refnos@.len() == 0,
        s matches Some(t) ==> t@ == descendant_sql_of(
            refnos@,
            nouns@.map_values(|n: &str| n@),
            range_text(range),
            "VALUE id"@,
        ),
{
    collect_descendant_with_expr_sql(refnos, nouns, range, "VALUE id")
}

/// The statements that collect the full records of the descendants.
pub fn collect_descendant_elements_sql(refnos: &[RefnoEnum], nouns: &[&str], range: Option<&str>) -> (s: Option<String>)
    ensures
        s is None <==> refnos@.len() == 0,
        s matches Some(t) ==> t@ == descendant_sql_of(
            refnos@,
            nouns@.map_values(|n: &str| n@),
            range_text(range),
            "*"@,
        ),
{
    collect_descendant_with_expr_sql(refnos, nouns, range, "*")
}

/// The statements that collect the attributes of the descendants.
pub fn collect_descendant_full_attrs_sql(refnos: &[RefnoEnum], nouns: &[&str], range: Option<&str>) -> (s: Option<String>)
    ensures
        s is None <==> refnos@.len() == 0,
        s matches Some(t) ==> t@ == descendant_sql_of(
            refnos@,
            nouns@.map_values(|n: &str| n@),
            range_text(range),
            "VALUE id.refno.*"@,
        ),
{
    collect_descendant_with_expr_sql(refnos, nouns, range, "VALUE id.refno.*")
}

/// The statement that reads `select_expr` of the children of `r` of the
/// types `nouns` (all types for none).
pub open spec fn children_sql_of(r: RefnoEnum, nouns: Seq<Seq<char>>, select_expr: Seq<char>) -> Seq<char> {
    "SELECT "@ + select_expr + " FROM fn::collect_children("@ + pe_key_text(r.spec_refno()) + ", "@ + types_array(
        nouns,
    ) + ")"@
}

/// The statement that reads `select_expr` of the children of `r` of the
/// types `nouns`.
pub fn collect_children_with_expr_sql(r: &RefnoEnum, nouns: &[&str], select_expr: &str) -> (s: String)
    ensures
        s@ == children_sql_of(*r, nouns@.map_values(|n: &str| n@), select_expr@),
{
    let mut s = owned("SELECT ");
    push_str(&mut s, select_expr);
    push_str(&mut s, " FROM fn::collect_children(");
    let k = r.to_pe_key();
    push_str(&mut s, k.as_str());
    push_str(&mut s, ", ");
    let t = types_array_text(nouns);
    push_str(&mut s, t.as_str());
    push_str(&mut s, ")");
    s
}

/// The statement that reads the ids of the children of `r`.
pub fn collect_children_filter_ids_sql(r: &RefnoEnum, nouns: &[&str]) -> (s: String)
    ensures
        s@ == children_sql_of(*r, nouns@.map_values(|n: &str| n@), "VALUE id"@),
{
    collect_children_with_expr_sql(r, nouns, "VALUE id")
}

/// The statement that reads the attributes of the children of `r`.
pub fn collect_children_filter_attrs_sql(r: &RefnoEnum, nouns: &[&str]) -> (s: String)
    ensures
        s@ == children_sql_of(*r, nouns@.map_values(|n: &str| n@), "VALUE id.refno.*"@),
{
    collect_children_with_expr_sql(r, nouns, "VALUE id.refno.*")
}

/// The statement that reads the full records of the children of `r`.
pub fn collect_children_elements_sql(r: &RefnoEnum, nouns: &[&str]) -> (s: String)
    ensures
        s@ == children_sql_of(*r, nouns@.map_values(|n: &str| n@), "*"@),
{
    collect_children_with_expr_sql(r, nouns, "*")
}

/// The statement that keeps the ancestors whose type or user type is one
/// of `nouns`.
pub fn query_filter_ancestors_sql(ancestors: &[RefnoEnum], nouns: &[&str]) -> (s: String)
    ensures
        s@ == "select value refno from ["@ + join_with(pe_keys_of(ancestors@), ","@) + "] where refno.TYPE in ["@ + quoted_list(
            nouns@.map_values(|n: &str| n@),
        ) + "] or refno.TYPEX in ["@ + quoted_list(nouns@.map_values(|n: &str| n@)) + "]"@,
{
    let q = convert_to_sql_str_array(nouns);
    let mut s = owned("select value refno from [");
    let l = crate::refno::join_pe_keys(ancestors);
    push_str(&mut s, l.as_str());
    push_str(&mut s, "] where refno.TYPE in [");
    push_str(&mut s, q.as_str());
    push_str(&mut s, "] or refno.TYPEX in [");
    push_str(&mut s, q.as_str());
    push_str(&mut s, "]");
    s
}

/// A user type name without its leading `:`.
pub open spec fn uda_type_name(t: Seq<char>) -> Seq<char> {
    if t.len() > 0 && t[0] == ':' {
        t.drop_first()
    } else {
        t
    }
}

/// The statements that read the elements among `refnos` of the user type
/// `uda_type` (written with or without a leading `:`); none for no elements.
pub fn get_uda_type_refnos_sql(uda_type: &str, refnos: &[RefnoEnum]) -> (s: Option<String>)
    ensures
        s is None <==> join_with(pe_keys_of(refnos@), ","@).len() == 0,
        s matches Some(t) ==> t@ == "let $ukey = select value UKEY from UDET where DYUDNA = '"@ + uda_type_name(uda_type@) + "';\n        select refno,fn::default_name(id) as name,noun,owner,0 as children_count from ["@
            + join_with(pe_keys_of(refnos@), ","@) + "] where refno.TYPEX in $ukey;"@,
{
    let l = crate::refno::join_pe_keys(refnos);
    if crate::text::chars_of(l.as_str()).len() == 0 {
        return None;
    }
    let v = crate::text::chars_of(uda_type);
    let name: String = if v.len() > 0 && v[0] == ':' {
        let mut out: Vec<char> = Vec::new();
        let mut i: usize = 1;
        while i < v.len()
            invariant
                1 <= i <= v.len(),
                out@ == v@.subrange(1, i as int),
            decreases v.len() - i,
        {
            out.push(v[i]);
            i = i + 1;
            assert(out@ =~= v@.subrange(1, i as int));
        }
        assert(out@ =~= v@.drop_first());
        crate::text::string_of(&out)
    } else {
        owned(uda_type)
    };
    let mut s = owned("let $ukey = select value UKEY from UDET where DYUDNA = '");
    push_str(&mut s, name.as_str());
    push_str(&mut s, "';\n        select refno,fn::default_name(id) as name,noun,owner,0 as children_count from [");
    push_str(&mut s, l.as_str());
    push_str(&mut s, "] where refno.TYPEX in $ukey;");
    Some(s)
}

/// The statement that reads the visible geometry below `r` (with `r` when
/// `include_self`) within the depth `range` (any depth for none).
pub fn query_visible_geo_descendants_sql(r: &RefnoEnum, include_self: bool, range: Option<&str>) -> (s: String)
    ensures
        s@ == "SELECT VALUE fn::visible_geo_descendants("@ + pe_key_text(r.spec_refno()) + ", "@ + flag_text(include_self)
            + ", \""@ + range_text(range) + "\");"@,
{
    let mut s = owned("SELECT VALUE fn::visible_geo_descendants(");
    let k = r.to_pe_key();
    push_str(&mut s, k.as_str());
    push_str(&mut s, ", ");
    push_str(&mut s, flag(include_self));
    push_str(&mut s, ", \"");
    push_str(&mut s, range_or_any(range));
    push_str(&mut s, "\");");
    s
}

/// The statement that reads the negative geometry below `r` (with `r`
/// when `include_self`) within the depth `range` (any depth for none).
pub fn query_negative_geo_descendants_sql(r: &RefnoEnum, include_self: bool, range: Option<&str>) -> (s: String)
    ensures
        s@ == "SELECT VALUE fn::negative_geo_descendants("@ + pe_key_text(r.spec_refno()) + ", "@ + flag_text(include_self)
            + ", \""@ + range_text(range) + "\");"@,
{
    let mut s = owned("SELECT VALUE fn::negative_geo_descendants(");
    let k = r.to_pe_key();
    push_str(&mut s, k.as_str());
    push_str(&mut s, ", ");
    push_str(&mut s, flag(include_self));
    push_str(&mut s, ", \"");
    push_str(&mut s, range_or_any(range));
    push_str(&mut s, "\");");
    s
}

/// Types in double quotes separated by `, `, in brackets; `[]` for none.
pub open spec fn dq_types(types: Seq<Seq<char>>) -> Seq<char> {
    if types.len() == 0 {
        "[]"@
    } else {
        "["@ + join_with(types.map_values(|t: Seq<char>| "\""@ + t + "\""@), ", "@) + "]"@
    }
}

/// Types in double quotes separated by `, `, in brackets.
fn dq_types_text(types: &[&str]) -> (r: String)
    ensures
        r@ == dq_types(types@.map_values(|t: &str| t@)),
{
    if types.len() == 0 {
        return owned("[]");
    }
    let ghost views = types@.map_values(|t: &str| t@);
    let ghost items = views.map_values(|t: Seq<char>| "\""@ + t + "\""@);
    let mut body = String::new();
    let mut i: usize = 0;
    while i < types.len()
        invariant
            i <= types.len(),
            views == types@.map_values(|t: &str| t@),
            items == views.map_values(|t: Seq<char>| "\""@ + t + "\""@),
            body@ == join_with(items.take(i as int), ", "@),
        decreases types.len() - i,
    {
        assert(items.take(i + 1).drop_last() =~= items.take(i as int));
        if i > 0 {
            push_str(&mut body, ", ");
        }
        push_str(&mut body, "\"");
        push_str(&mut body, types[i]);
        push_str(&mut body, "\"");
        i = i + 1;
    }
    assert(items.take(types.len() as int) =~= items);
    let mut r = owned("[");
    push_str(&mut r, body.as_str());
    push_str(&mut r, "]");
    r
}

/// The statement that reads the distinct descendants of `refnos` of the
/// types `types` that have instances (with the starting elements when
/// `include_self`); none for no elements.
pub fn collect_descendant_ids_has_inst_sql(refnos: &[RefnoEnum], types: &[&str], include_self: bool) -> (s: Option<String>)
    ensures
        s is None <==> refnos@.len() == 0,
        s matches Some(t) ==> t@ == "\n        array::distinct(array::filter(array::flatten(array::map(["@ + join_with(pe_keys_of(refnos@), ", "@) + "], |$refno|\n            fn::collect_descendant_ids_has_inst($refno, "@
            + dq_types(types@.map_values(|x: &str| x@)) + ", "@ + (if include_self {
            "true"@
        } else {
            "none"@
        }) + ")[? has_inst]\n        )), |$v| $v != none))\n        "@,
{
    if refnos.len() == 0 {
        return None;
    }
    let mut s = owned("\n        array::distinct(array::filter(array::flatten(array::map([");
    let l = join_pe_keys_spaced(refnos);
    push_str(&mut s, l.as_str());
    push_str(&mut s, "], |$refno|\n            fn::collect_descendant_ids_has_inst($refno, ");
    let t = dq_types_text(types);
    push_str(&mut s, t.as_str());
    push_str(&mut s, ", ");
    if include_self {
        push_str(&mut s, "true");
    } else {
        push_str(&mut s, "none");
    }
    push_str(&mut s, ")[? has_inst]\n        )), |$v| $v != none))\n        ");
    Some(s)
}

} // verus!
