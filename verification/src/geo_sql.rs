//! The statements behind the geometry and point reads: arrival and leave
//! points, point sets, loops, geometry parameters, catalogue relations,
//! bounding box pages, floors and database sessions.
use vstd::prelude::*;
use crate::geom::{get_inst_relate_keys, inst_relate_source};
use crate::json::{json_strings, string_views, strings_to_json};
use crate::pe_query::{join_pe_keys64, pe_keys64_of};
use crate::refno::{join_pe_keys, pe_key_text, pe_keys_of, RefU64, RefnoEnum};
use crate::text::{
    chars_of, decimal, decimal_string, join_strings, join_with, owned, push_decimal, push_str,
    split_chars, split_on, string_of, trim_chars, trim_of,
};

verus! {

/// The statement that reads, for each child of a branch, its world transform and its arrival and leave points.
pub fn query_arrive_leave_points_of_branch_sql(r: &RefnoEnum) -> (s: String)
    ensures
        s@ == "\n             select value [id,\n                (->inst_relate.world_trans.d ?? ->tubi_relate.world_trans.d)[0],\n                (select * from (->inst_relate.out.ptset)[0] where number=$parent.refno.ARRI)[0],\n                (select * from (->inst_relate.out.ptset)[0] where number=$parent.refno.LEAV)[0]\n            ] from "@ + pe_key_text(r.spec_refno()) + ".children\n             "@,
{
    let mut s = String::new();
    push_str(&mut s, "\n             select value [id,\n                (->inst_relate.world_trans.d ?? ->tubi_relate.world_trans.d)[0],\n                (select * from (->inst_relate.out.ptset)[0] where number=$parent.refno.ARRI)[0],\n                (select * from (->inst_relate.out.ptset)[0] where number=$parent.refno.LEAV)[0]\n            ] from ");
    let v0 = r.to_pe_key();
    push_str(&mut s, v0.as_str());
    push_str(&mut s, ".children\n             ");
    s
}

/// The statement that reads the pipe run data of the children of branches.
pub fn query_branch_children_tubi_info_sql(refnos: &[RefnoEnum]) -> (s: String)
    ensures
        s@ == "\n        SELECT \n            id as refno,\n            (->inst_relate->inst_info.tubi_info)[0] as tubi_info_id,\n            (->inst_relate.world_trans)[0] as world_trans\n        FROM array::flatten(["@ + join_with(pe_keys_of(refnos@), ","@) + "].children)\n        WHERE (->inst_relate->inst_info.tubi_info)[0] != NONE\n        "@,
{
    let mut s = String::new();
    push_str(&mut s, "\n        SELECT \n            id as refno,\n            (->inst_relate->inst_info.tubi_info)[0] as tubi_info_id,\n            (->inst_relate.world_trans)[0] as world_trans\n        FROM array::flatten([");
    let v0 = join_pe_keys(refnos);
    push_str(&mut s, v0.as_str());
    push_str(&mut s, "].children)\n        WHERE (->inst_relate->inst_info.tubi_info)[0] != NONE\n        ");
    s
}

/// The statements that read the loop vertices of an element and its height.
pub fn fetch_loops_and_height_sql(r: &RefnoEnum) -> (s: String)
    ensures
        s@ == "\n        select value (select value [refno.POS[0], refno.POS[1], refno.FRAD] from "@ + pe_key_text(r.spec_refno()) + ".children[? noun in [\"LOOP\", \"PLOO\"]]);\n        array::complement((select value refno.HEIG from [ (select value id from only "@ + pe_key_text(r.spec_refno()) + ".children[? noun in [\"LOOP\", \"PLOO\"]] limit 1), "@ + pe_key_text(r.spec_refno()) + "]), [none])[0];\n        "@,
{
    let mut s = String::new();
    push_str(&mut s, "\n        select value (select value [refno.POS[0], refno.POS[1], refno.FRAD] from ");
    let v0 = r.to_pe_key();
    push_str(&mut s, v0.as_str());
    push_str(&mut s, ".children[? noun in [\"LOOP\", \"PLOO\"]]);\n        array::complement((select value refno.HEIG from [ (select value id from only ");
    let v1 = r.to_pe_key();
    push_str(&mut s, v1.as_str());
    push_str(&mut s, ".children[? noun in [\"LOOP\", \"PLOO\"]] limit 1), ");
    let v2 = r.to_pe_key();
    push_str(&mut s, v2.as_str());
    push_str(&mut s, "]), [none])[0];\n        ");
    s
}

/// The statement that groups negative elements by the positive element that owns them.
pub fn query_refno_has_pos_neg_map_sql(refnos: &[RefnoEnum]) -> (s: String)
    ensures
        s@ == "select pos, array::group(id) as negs from (select $this.id as id, array::first(->pe_owner.out) as pos from ["@ + join_with(pe_keys_of(refnos@), ","@) + "]) group pos"@,
{
    let mut s = String::new();
    push_str(&mut s, "select pos, array::group(id) as negs from (select $this.id as id, array::first(->pe_owner.out) as pos from [");
    let v0 = join_pe_keys(refnos);
    push_str(&mut s, v0.as_str());
    push_str(&mut s, "]) group pos");
    s
}

/// The statement that reads the points of the instances of the children of a branch.
pub fn query_bran_children_point_map_sql(r: &RefnoEnum) -> (s: String)
    ensures
        s@ == "select in.id as refno, out.ptset as ptset_array, in.noun as att_type from pe:"@ + r.spec_refno().refno_text() + "<-pe_owner->inst_relate;"@,
{
    let mut s = String::new();
    push_str(&mut s, "select in.id as refno, out.ptset as ptset_array, in.noun as att_type from pe:");
    let v0 = r.to_refno_str();
    push_str(&mut s, v0.as_str());
    push_str(&mut s, "<-pe_owner->inst_relate;");
    s
}

/// The statement that reads the points of the instance of an element.
pub fn query_point_map_sql(r: &RefnoEnum) -> (s: String)
    ensures
        s@ == "select id as refno, id->inst_relate.out.ptset as ptset_array, noun as att_type from "@ + pe_key_text(r.spec_refno()) + ";"@,
{
    let mut s = String::new();
    push_str(&mut s, "select id as refno, id->inst_relate.out.ptset as ptset_array, noun as att_type from ");
    let v0 = r.to_pe_key();
    push_str(&mut s, v0.as_str());
    push_str(&mut s, ";");
    s
}

/// The statement that reads the points of the instances of elements.
pub fn query_refnos_point_map_sql(refnos: &[RefnoEnum]) -> (s: String)
    ensures
        s@ == "select id as refno, id->inst_relate.out.ptset as ptset_array, noun as att_type from ["@ + join_with(pe_keys_of(refnos@), ","@) + "];"@,
{
    let mut s = String::new();
    push_str(&mut s, "select id as refno, id->inst_relate.out.ptset as ptset_array, noun as att_type from [");
    let v0 = join_pe_keys(refnos);
    push_str(&mut s, v0.as_str());
    push_str(&mut s, "];");
    s
}

/// The statement that reads the elements whose instances use the geometry `id`.
pub fn query_refnos_by_geo_hash_sql(id: &str) -> (s: String)
    ensures
        s@ == "array::distinct(array::flatten(select value in<-inst_relate.in from inst_geo:⟨"@ + id@ + "⟩<-geo_relate));"@,
{
    let mut s = String::new();
    push_str(&mut s, "array::distinct(array::flatten(select value in<-inst_relate.in from inst_geo:⟨");
    push_str(&mut s, id);
    push_str(&mut s, "⟩<-geo_relate));");
    s
}

/// The statement that reads the children of a product breakdown node with their child counts.
pub fn get_children_pbs_nodes_sql(id: &str) -> (s: String)
    ensures
        s@ == "select *, array::len(<-pbs_owner) as children_cnt from (select value in from pbs:⟨"@ + id@ + "⟩<-pbs_owner);"@,
{
    let mut s = String::new();
    push_str(&mut s, "select *, array::len(<-pbs_owner) as children_cnt from (select value in from pbs:⟨");
    push_str(&mut s, id);
    push_str(&mut s, "⟩<-pbs_owner);");
    s
}

/// The statement that reads the latest session of the elements of a database.
pub fn query_pe_latest_sesno_sql(db_num: u32) -> (s: String)
    ensures
        s@ == "object::values((select math::max(sesno) from pe where dbnum="@ + decimal(db_num as nat) + " group all)[0])[0];"@,
{
    let mut s = String::new();
    push_str(&mut s, "object::values((select math::max(sesno) from pe where dbnum=");
    let v0 = decimal_string(db_num as u64);
    push_str(&mut s, v0.as_str());
    push_str(&mut s, " group all)[0])[0];");
    s
}

/// The statement that reads the latest session recorded for a database file.
pub fn query_latest_sesno_sql(db_num: u32) -> (s: String)
    ensures
        s@ == "\n            select value sesno from only db_file_info where dbnum="@ + decimal(db_num as nat) + " limit 1;\n            "@,
{
    let mut s = String::new();
    push_str(&mut s, "\n            select value sesno from only db_file_info where dbnum=");
    let v0 = decimal_string(db_num as u64);
    push_str(&mut s, v0.as_str());
    push_str(&mut s, " limit 1;\n            ");
    s
}


/// The statement that reads, for each pipe component among `refnos`, its
/// world transform and its arrival and leave points; none for no elements.
pub fn query_arrive_leave_points_sql(refnos: &[RefnoEnum]) -> (s: Option<String>)
    ensures
        s is None <==> refnos@.len() == 0,
        s matches Some(t) ==> t@ == "\n             select value [\n                    in,\n                    world_trans.d,\n                    (select * from out.ptset where number=$parent.in.refno.ARRI)[0],\n                    (select * from out.ptset where number=$parent.in.refno.LEAV)[0]\n                ]\n              from array::flatten(["@ + join_with(pe_keys_of(refnos@), ","@) + "][? owner.noun in ['BRAN', 'HANG']]->inst_relate) where world_trans.d!=none\n             "@,
{
    if refnos.len() == 0 {
        return None;
    }
    let mut s = owned("\n             select value [\n                    in,\n                    world_trans.d,\n                    (select * from out.ptset where number=$parent.in.refno.ARRI)[0],\n                    (select * from out.ptset where number=$parent.in.refno.LEAV)[0]\n                ]\n              from array::flatten([");
    let l = join_pe_keys(refnos);
    push_str(&mut s, l.as_str());
    push_str(&mut s, "][? owner.noun in ['BRAN', 'HANG']]->inst_relate) where world_trans.d!=none\n             ");
    Some(s)
}

/// The statement that reads, for each pipe component among `refnos`, its
/// arrival and leave points; none for no elements.
pub fn query_arrive_leave_points_of_component_sql(refnos: &[RefnoEnum]) -> (s: Option<String>)
    ensures
        s is None <==> refnos@.len() == 0,
        s matches Some(t) ==> t@ == "\n             select value [in,\n                (select * from out.ptset where number=$parent.in.refno.ARRI)[0],\n                (select * from out.ptset where number=$parent.in.refno.LEAV)[0]\n            ] from array::flatten(["@ + join_with(pe_keys_of(refnos@), ","@) + "][? owner.noun in ['BRAN', 'HANG']]->inst_relate)\n             "@,
{
    if refnos.len() == 0 {
        return None;
    }
    let mut s = owned("\n             select value [in,\n                (select * from out.ptset where number=$parent.in.refno.ARRI)[0],\n                (select * from out.ptset where number=$parent.in.refno.LEAV)[0]\n            ] from array::flatten([");
    let l = join_pe_keys(refnos);
    push_str(&mut s, l.as_str());
    push_str(&mut s, "][? owner.noun in ['BRAN', 'HANG']]->inst_relate)\n             ");
    Some(s)
}

/// The key `tubi_info:⟨id⟩` of pipe run data.
pub open spec fn tubi_info_key(id: Seq<char>) -> Seq<char> {
    "tubi_info:⟨"@ + id + "⟩"@
}

/// The statement that reads the pipe run data with the ids `ids`.
pub fn query_tubi_info_by_ids_sql(ids: &Vec<String>) -> (s: String)
    ensures
        s@ == "SELECT * FROM tubi_info WHERE id IN ["@ + join_with(
            ids@.map_values(|i: String| tubi_info_key(i@)),
            ","@,
        ) + "];"@,
{
    let ghost keys = ids@.map_values(|i: String| tubi_info_key(i@));
    let mut body = String::new();
    let mut i: usize = 0;
    while i < ids.len()
        invariant
            i <= ids.len(),
            keys == ids@.map_values(|x: String| tubi_info_key(x@)),
            body@ == join_with(keys.take(i as int), ","@),
        decreases ids.len() - i,
    {
        assert(keys.take(i + 1).drop_last() =~= keys.take(i as int));
        if i > 0 {
            push_str(&mut body, ",");
        }
        push_str(&mut body, "tubi_info:⟨");
        push_str(&mut body, ids[i].as_str());
        push_str(&mut body, "⟩");
        i = i + 1;
    }
    assert(keys.take(ids.len() as int) =~= keys);
    let mut s = owned("SELECT * FROM tubi_info WHERE id IN [");
    push_str(&mut s, body.as_str());
    push_str(&mut s, "];");
    s
}

/// The condition on geometry to read: all sound geometry when replacing,
/// else only the sound geometry not meshed and without a bounding box yet.
pub open spec fn inst_geo_condition(replace_exist: bool) -> Seq<char> {
    if replace_exist {
        "where !out.bad"@
    } else {
        "where out.aabb.d=none and !out.meshed and !out.bad"@
    }
}

/// The statement that reads the geometry of the instances of `refnos`
/// (all elements for none), grouped, with their cut flags.
pub fn query_inst_geo_ids_sql(refnos: &[RefnoEnum], replace_exist: bool) -> (s: String)
    ensures
        s@ == "\n            array::group(\n                select value (select out as geo_id,\n                    ($parent<-neg_relate)[0] != none as has_neg_relate,\n                    $parent.has_cata_neg ?? false as has_cata_neg\n                from $parent.out->geo_relate "@ + inst_geo_condition(replace_exist) + ")\n                from "@ + inst_relate_source(refnos@)
            + "\n            );\n        "@,
{
    let mut s = owned("\n            array::group(\n                select value (select out as geo_id,\n                    ($parent<-neg_relate)[0] != none as has_neg_relate,\n                    $parent.has_cata_neg ?? false as has_cata_neg\n                from $parent.out->geo_relate ");
    if replace_exist {
        push_str(&mut s, "where !out.bad");
    } else {
        push_str(&mut s, "where out.aabb.d=none and !out.meshed and !out.bad");
    }
    push_str(&mut s, ")\n                from ");
    let k = get_inst_relate_keys(refnos);
    push_str(&mut s, k.as_str());
    push_str(&mut s, "\n            );\n        ");
    s
}

/// The key `inst_geo:⟨id⟩` of a geometry.
pub open spec fn inst_geo_key(id: Seq<char>) -> Seq<char> {
    "inst_geo:⟨"@ + id + "⟩"@
}

/// The geometry keys of the comma-separated ids `ids`, each trimmed.
pub open spec fn geo_param_keys(ids: Seq<char>) -> Seq<Seq<char>> {
    split_on(ids, ',').map_values(|p: Seq<char>| inst_geo_key(trim_of(p)))
}

/// The statement that reads the parameters of the geometries whose ids are
/// listed, separated by commas, in `ids`.
pub fn query_geo_params_sql(ids: &str) -> (s: String)
    ensures
        s@ == "select id, param from ["@ + join_with(geo_param_keys(ids@), ", "@)
            + "] where param != NONE"@,
{
    let parts = split_chars(&chars_of(ids), ',');
    let ghost views = parts.deep_view();
    let ghost keys = geo_param_keys(ids@);
    assert(views == split_on(ids@, ','));
    let mut body = String::new();
    let mut i: usize = 0;
    while i < parts.len()
        invariant
            i <= parts.len(),
            views == parts.deep_view(),
            keys == views.map_values(|p: Seq<char>| inst_geo_key(trim_of(p))),
            body@ == join_with(keys.take(i as int), ", "@),
        decreases parts.len() - i,
    {
        assert(keys.take(i + 1).drop_last() =~= keys.take(i as int));
        assert(views[i as int] == parts[i as int]@);
        if i > 0 {
            push_str(&mut body, ", ");
        }
        let t = trim_chars(&parts[i]);
        let ts = string_of(&t);
        push_str(&mut body, "inst_geo:⟨");
        push_str(&mut body, ts.as_str());
        push_str(&mut body, "⟩");
        i = i + 1;
    }
    assert(keys.take(parts.len() as int) =~= keys);
    let mut s = owned("select id, param from [");
    push_str(&mut s, body.as_str());
    push_str(&mut s, "] where param != NONE");
    s
}

/// The statement that reads the elements that use the catalogue
/// components `spres`; none for no components.
pub fn query_ele_refnos_by_spres_sql(spres: &[RefU64]) -> (s: Option<String>)
    ensures
        s is None <==> spres@.len() == 0,
        s matches Some(t) ==> t@ == "\n        array::flatten(select value <-cate_relate.in from  ["@ + join_with(pe_keys64_of(spres@), ","@) + "])\n        "@,
{
    if spres.len() == 0 {
        return None;
    }
    let mut s = owned("\n        array::flatten(select value <-cate_relate.in from  [");
    let l = join_pe_keys64(spres);
    push_str(&mut s, l.as_str());
    push_str(&mut s, "])\n        ");
    Some(s)
}

/// The statements that relate each element of the tables `tables` to its
/// catalogue component, once (first deleting the relations when
/// `replace_exist`).
pub fn build_cate_relate_sql(tables: &Vec<String>, replace_exist: bool) -> (s: String)
    ensures
        s@ == (if replace_exist {
            "delete cate_relate;"@
        } else {
            Seq::empty()
        }) + "\n        let $a = select id from only cate_relate limit 1;\n        if $a == none {\n            for $table in ["@ + join_with(tables@.map_values(|t: String| t@), ","@) + "] {\n                for $e in (select REFNO, SPRE from type::table($table)) {\n                    let $id = type::thing(\"cate_relate\", meta::id($e.REFNO));\n                    relate ($e.REFNO)->$id->($e.SPRE);\n                }\n            }\n        }\n    "@,
{
    let mut s = if replace_exist {
        owned("delete cate_relate;")
    } else {
        String::new()
    };
    push_str(&mut s, "\n        let $a = select id from only cate_relate limit 1;\n        if $a == none {\n            for $table in [");
    let l = join_strings(tables, ",");
    push_str(&mut s, l.as_str());
    push_str(&mut s, "] {\n                for $e in (select REFNO, SPRE from type::table($table)) {\n                    let $id = type::thing(\"cate_relate\", meta::id($e.REFNO));\n                    relate ($e.REFNO)->$id->($e.SPRE);\n                }\n            }\n        }\n    ");
    s
}

/// Rows of bounding boxes read per page.
pub const AABB_PAGE: u64 = 1000;

/// The statement that reads a page of bounding boxes starting at `offset`.
pub fn aabb_page_sql(offset: u64) -> (s: String)
    ensures
        s@ == "select in as refno, aabb.d.* as aabb, in.noun as noun from inst_relate where aabb.d!=none and type=0 start "@ + decimal(offset as nat) + " limit "@ + decimal(AABB_PAGE as nat),
{
    let mut s = owned("select in as refno, aabb.d.* as aabb, in.noun as noun from inst_relate where aabb.d!=none and type=0 start ");
    push_decimal(&mut s, offset);
    push_str(&mut s, " limit ");
    push_decimal(&mut s, AABB_PAGE);
    s
}

/// Where the next page of bounding boxes starts after a page of `read`
/// rows at `offset`: none once a page comes back empty.
pub fn next_aabb_offset(offset: u64, read: usize) -> (r: Option<u64>)
    requires
        offset <= u64::MAX - AABB_PAGE,
    ensures
        r == (if read == 0 {
            None
        } else {
            Some((offset + AABB_PAGE) as u64)
        }),
{
    if read == 0 {
        None
    } else {
        Some(offset + AABB_PAGE)
    }
}

/// The statement that reads the floor each of `refnos` stands on and its
/// height above it, by a JSON array of their keys.
pub fn query_equi_or_valv_belong_floors_sql(refnos: &[RefU64]) -> (s: String)
    ensures
        s@ == "select id,(->nearest_relate.out.REFNO)[0] as floor,(->nearest_relate.dist)[0] as height from "@ + json_strings(pe_keys64_of(refnos@)) + ""@,
{
    let mut keys: Vec<String> = Vec::new();
    let mut i: usize = 0;
    while i < refnos.len()
        invariant
            i <= refnos.len(),
            string_views(keys@) == pe_keys64_of(refnos@.take(i as int)),
        decreases refnos.len() - i,
    {
        let k = refnos[i].to_pe_key();
        let ghost prev = keys@;
        keys.push(k);
        assert(string_views(keys@) =~= string_views(prev).push(pe_key_text(refnos@[i as int])));
        assert(refnos@.take(i + 1) =~= refnos@.take(i as int).push(refnos@[i as int]));
        i = i + 1;
        assert(string_views(keys@) =~= pe_keys64_of(refnos@.take(i as int)));
    }
    assert(refnos@.take(refnos.len() as int) =~= refnos@);
    let json = strings_to_json(&keys);
    let mut s = owned("select id,(->nearest_relate.out.REFNO)[0] as floor,(->nearest_relate.dist)[0] as height from ");
    push_str(&mut s, json.as_str());
    push_str(&mut s, "");
    s
}

} // verus!
