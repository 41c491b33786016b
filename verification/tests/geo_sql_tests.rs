use aios_surreal::geo_sql::{
    aabb_page_sql, build_cate_relate_sql, fetch_loops_and_height_sql, get_children_pbs_nodes_sql,
    next_aabb_offset, query_arrive_leave_points_of_branch_sql, query_arrive_leave_points_sql,
    query_bran_children_point_map_sql, query_ele_refnos_by_spres_sql,
    query_equi_or_valv_belong_floors_sql, query_geo_params_sql, query_inst_geo_ids_sql,
    query_latest_sesno_sql, query_pe_latest_sesno_sql, query_point_map_sql,
    query_refno_has_pos_neg_map_sql, query_refnos_by_geo_hash_sql, query_refnos_point_map_sql,
    query_tubi_info_by_ids_sql,
};
use aios_surreal::refno::{RefU64, RefnoEnum};

fn r(a: u32, b: u32) -> RefnoEnum {
    RefnoEnum::Refno(RefU64::from_parts(a, b))
}

#[test]
fn point_statements() {
    assert_eq!(query_arrive_leave_points_sql(&[]), None);
    let s = query_arrive_leave_points_sql(&[r(1, 2), r(3, 4)]).unwrap();
    assert!(s.contains("from array::flatten([pe:['1_2'],pe:['3_4']][? owner.noun in ['BRAN', 'HANG']]->inst_relate) where world_trans.d!=none"));
    assert!(query_arrive_leave_points_of_branch_sql(&r(5, 6)).contains("] from pe:['5_6'].children"));
    assert_eq!(
        query_tubi_info_by_ids_sql(&vec!["a".to_string(), "b".to_string()]),
        "SELECT * FROM tubi_info WHERE id IN [tubi_info:⟨a⟩,tubi_info:⟨b⟩];"
    );
    assert_eq!(
        query_point_map_sql(&r(1, 2)),
        "select id as refno, id->inst_relate.out.ptset as ptset_array, noun as att_type from pe:['1_2'];"
    );
    assert_eq!(
        query_refnos_point_map_sql(&[r(1, 2)]),
        "select id as refno, id->inst_relate.out.ptset as ptset_array, noun as att_type from [pe:['1_2']];"
    );
    assert_eq!(
        query_bran_children_point_map_sql(&r(1, 2)),
        "select in.id as refno, out.ptset as ptset_array, in.noun as att_type from pe:1_2<-pe_owner->inst_relate;"
    );
}

#[test]
fn geometry_statements() {
    let s = fetch_loops_and_height_sql(&r(1, 2));
    assert_eq!(s.matches("pe:['1_2']").count(), 3);
    assert!(query_refno_has_pos_neg_map_sql(&[r(1, 2)]).contains("from [pe:['1_2']]) group pos"));
    assert_eq!(
        query_refnos_by_geo_hash_sql("123"),
        "array::distinct(array::flatten(select value in<-inst_relate.in from inst_geo:⟨123⟩<-geo_relate));"
    );
    let g = query_inst_geo_ids_sql(&[r(1, 2)], false);
    assert!(g.contains("->geo_relate where out.aabb.d=none and !out.meshed and !out.bad)"));
    assert!(g.contains("from inst_relate:⟨1_2⟩\n"));
    assert!(query_inst_geo_ids_sql(&[], true).contains("->geo_relate where !out.bad)"));
    assert_eq!(
        query_geo_params_sql("1, 2 ,3"),
        "select id, param from [inst_geo:⟨1⟩, inst_geo:⟨2⟩, inst_geo:⟨3⟩] where param != NONE"
    );
    assert_eq!(query_ele_refnos_by_spres_sql(&[]), None);
    assert!(query_ele_refnos_by_spres_sql(&[RefU64::from_parts(7, 8)]).unwrap().contains("from  [pe:['7_8']])"));
    let b = build_cate_relate_sql(&vec!["ELBO".to_string(), "TEE".to_string()], true);
    assert!(b.starts_with("delete cate_relate;\n        let $a"));
    assert!(b.contains("for $table in [ELBO,TEE] {"));
    assert!(!build_cate_relate_sql(&vec![], false).starts_with("delete"));
}

#[test]
fn paging_floors_and_sessions() {
    assert_eq!(
        aabb_page_sql(2000),
        "select in as refno, aabb.d.* as aabb, in.noun as noun from inst_relate where aabb.d!=none and type=0 start 2000 limit 1000"
    );
    assert_eq!(next_aabb_offset(0, 1000), Some(1000));
    assert_eq!(next_aabb_offset(1000, 0), None);
    assert_eq!(
        query_equi_or_valv_belong_floors_sql(&[RefU64::from_parts(1, 2)]),
        "select id,(->nearest_relate.out.REFNO)[0] as floor,(->nearest_relate.dist)[0] as height from [\"pe:['1_2']\"]"
    );
    assert_eq!(
        query_pe_latest_sesno_sql(1112),
        "object::values((select math::max(sesno) from pe where dbnum=1112 group all)[0])[0];"
    );
    assert!(query_latest_sesno_sql(7).contains("where dbnum=7 limit 1;"));
    assert_eq!(
        get_children_pbs_nodes_sql("abc"),
        "select *, array::len(<-pbs_owner) as children_cnt from (select value in from pbs:⟨abc⟩<-pbs_owner);"
    );
}
