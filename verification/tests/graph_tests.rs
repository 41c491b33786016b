use aios_surreal::graph::{
    collect_children_filter_ids_sql, collect_children_with_expr_sql, collect_descendant_filter_ids_sql,
    collect_descendant_ids_has_inst_sql, collect_descendant_with_expr_sql,
    collect_descendants_filter_inst_sql, get_uda_type_refnos_sql, join_pe_keys_spaced,
    query_deep_children_filter_inst_sql, query_deep_children_refnos_filter_spre_sql,
    query_deep_children_refnos_pbs_sql, query_ele_filter_deep_children_pbs_sql,
    query_filter_ancestors_sql, query_filter_deep_children_by_path_sql,
    query_negative_geo_descendants_sql, query_visible_geo_descendants_sql, versioned_chunk_sql,
    NO_INSTANCES_CLAUSE,
};
use aios_surreal::refno::{RefU64, RefnoEnum};

fn r(a: u32, b: u32) -> RefnoEnum {
    RefnoEnum::Refno(RefU64::from_parts(a, b))
}

#[test]
fn descendant_statements() {
    assert_eq!(join_pe_keys_spaced(&[r(1, 2), r(3, 4)]), "pe:['1_2'], pe:['3_4']");
    assert_eq!(collect_descendant_with_expr_sql(&[], &["BOX"], None, "*"), None);
    let s = collect_descendant_filter_ids_sql(&[r(1, 2)], &["BOX", "CYLI"], None).unwrap();
    assert!(s.contains("array::map([pe:['1_2']], |$refno|"));
    assert!(s.contains("fn::collect_descendant_ids_by_types($refno, ['BOX','CYLI'], none, \"..\")"));
    assert!(s.contains("SELECT VALUE id FROM $ids;"));
    let s = collect_descendant_with_expr_sql(&[r(1, 2)], &[], Some("1..3"), "{ id }").unwrap();
    assert!(s.contains("($refno, [], none, \"1..3\")"));
    assert!(s.contains("SELECT { id } FROM $ids;"));
    let s = query_deep_children_filter_inst_sql(&[RefU64::from_parts(5, 6)], &["BRAN"], true).unwrap();
    assert!(s.contains("array::map([pe:['5_6']], |$refno|"));
    assert!(s.contains("fn::collect_descendants_filter_inst($refno, ['BRAN'], true, true, false)"));
    assert_eq!(query_deep_children_filter_inst_sql(&[], &[], false), None);
    let s = query_deep_children_refnos_filter_spre_sql(&[r(1, 1)], false).unwrap();
    assert!(s.contains("fn::collect_descendants_filter_spre($refno, [], false, none, \"..\")"));
    assert_eq!(
        collect_descendants_filter_inst_sql(&r(1, 1), &[], true),
        "fn::collect_descendants_filter_inst(pe:['1_1'], [], true, true, false);"
    );
    assert_eq!(
        versioned_chunk_sql(&[r(1, 1), r(2, 2)], true),
        format!("select value id from [pe:['1_1'],pe:['2_2']]{};", NO_INSTANCES_CLAUSE)
    );
    assert_eq!(versioned_chunk_sql(&[r(1, 1)], false), "select value id from [pe:['1_1']];");
    let s = collect_descendant_ids_has_inst_sql(&[r(1, 1)], &["BOX", "EQUI"], false).unwrap();
    assert!(s.contains("fn::collect_descendant_ids_has_inst($refno, [\"BOX\", \"EQUI\"], none)[? has_inst]"));
    let s = collect_descendant_ids_has_inst_sql(&[r(1, 1)], &[], true).unwrap();
    assert!(s.contains("($refno, [], true)"));
}

#[test]
fn children_ancestor_and_geometry_statements() {
    assert_eq!(
        collect_children_filter_ids_sql(&r(1, 2), &[]),
        "SELECT VALUE id FROM fn::collect_children(pe:['1_2'], none)"
    );
    assert_eq!(
        collect_children_with_expr_sql(&r(1, 2), &["EQUI"], "*"),
        "SELECT * FROM fn::collect_children(pe:['1_2'], ['EQUI'])"
    );
    assert_eq!(
        query_filter_ancestors_sql(&[r(1, 1)], &["SITE", "ZONE"]),
        "select value refno from [pe:['1_1']] where refno.TYPE in ['SITE','ZONE'] or refno.TYPEX in ['SITE','ZONE']"
    );
    assert_eq!(
        query_visible_geo_descendants_sql(&r(1, 2), true, None),
        "SELECT VALUE fn::visible_geo_descendants(pe:['1_2'], true, \"..\");"
    );
    assert_eq!(
        query_negative_geo_descendants_sql(&r(1, 2), false, Some("1..3")),
        "SELECT VALUE fn::negative_geo_descendants(pe:['1_2'], false, \"1..3\");"
    );
    assert_eq!(get_uda_type_refnos_sql(":MYTYPE", &[]), None);
    let s = get_uda_type_refnos_sql(":MYTYPE", &[r(1, 1)]).unwrap();
    assert!(s.starts_with("let $ukey = select value UKEY from UDET where DYUDNA = 'MYTYPE';"));
    assert!(s.ends_with("from [pe:['1_1']] where refno.TYPEX in $ukey;"));
    assert!(get_uda_type_refnos_sql("PLAIN", &[r(1, 1)]).unwrap().contains("DYUDNA = 'PLAIN'"));
    assert!(query_deep_children_refnos_pbs_sql("pbs:1").contains("from only pbs:1 ) )[? !deleted];"));
    assert_eq!(query_ele_filter_deep_children_pbs_sql(&vec![], &["EQUI"]), None);
    assert_eq!(
        query_ele_filter_deep_children_pbs_sql(&vec!["pbs:1".to_string(), "pbs:2".to_string()], &["EQUI"]),
        Some("select * from [pbs:1,pbs:2] where noun in ['EQUI']".to_string())
    );
    assert_eq!(
        query_filter_deep_children_by_path_sql("<-pe_owner", &r(1, 2), &["BRAN"]),
        "select value refno from array::flatten(object::values(select <-pe_owner from only pe:['1_2'])) where noun in ['BRAN']"
    );
}
