use aios_surreal::boolean_query::{
    batch_base_sql, batch_geos_sql, cut_sql, negative_entity_map, next_cut_source,
    query_boolean_targets_sql, query_cata_neg_boolean_groups_sql, query_geom_mesh_data_sql,
    query_negative_entities_batch_sql, query_negative_entities_sql, target_base_sql,
    target_geos_sql, target_plan, CutRelation, CutSource, ALL_TARGETS_SQL, BATCH_BASE_HEAD,
    CUT_HEAD, NEG_CUT_TAIL, NGMR_CUT_TAIL, TARGET_BASE_HEAD, TARGET_BASE_TAIL,
};
use aios_surreal::refno::{RefU64, RefnoEnum};

fn r(a: u32, b: u32) -> RefnoEnum {
    RefnoEnum::Refno(RefU64::from_parts(a, b))
}

#[test]
fn single_target_statements() {
    let x = r(17496, 106028);
    assert_eq!(
        target_base_sql(&x),
        format!("{}inst_relate:⟨17496_106028⟩{}", TARGET_BASE_HEAD, TARGET_BASE_TAIL)
    );
    assert!(target_base_sql(&x).contains("LIMIT 1"));
    let g = target_geos_sql(&x);
    assert!(g.contains("FROM inst_relate:17496_106028->out->geo_relate"));
    assert_eq!(
        cut_sql(&x, CutRelation::Neg, CutSource::Pe),
        format!("{}pe:['17496_106028']{}", CUT_HEAD, NEG_CUT_TAIL)
    );
    assert_eq!(
        cut_sql(&x, CutRelation::Ngmr, CutSource::Inst),
        format!("{}inst_relate:⟨17496_106028⟩{}", CUT_HEAD, NGMR_CUT_TAIL)
    );
    assert!(NGMR_CUT_TAIL.starts_with("<-ngmr_relate"));
}

#[test]
fn cutting_geometry_falls_back_once() {
    assert_eq!(next_cut_source(CutSource::Pe, 0), Some(CutSource::Inst));
    assert_eq!(next_cut_source(CutSource::Pe, 2), None);
    assert_eq!(next_cut_source(CutSource::Inst, 0), None);
}

#[test]
fn batch_statements_read_all_keys() {
    let refnos = [r(1, 2), r(3, 4)];
    let b = batch_base_sql(&refnos);
    assert!(b.starts_with(BATCH_BASE_HEAD));
    assert!(b.contains("FROM inst_relate:⟨1_2⟩,inst_relate:⟨3_4⟩\n"));
    assert!(batch_geos_sql(&[]).contains("FROM inst_relate\n"));
    let c = query_cata_neg_boolean_groups_sql(&refnos, false);
    assert!(c.ends_with("has_cata_neg and (bool_status != 'Success' or bool_status = none)"));
    let c = query_cata_neg_boolean_groups_sql(&refnos, true);
    assert!(c.ends_with("has_cata_neg "));
    let m = query_geom_mesh_data_sql(&r(1, 2), &[r(5, 6), r(7, 8)]);
    assert!(m.contains("from pe:['1_2']->inst_relate->inst_info->geo_relate"));
    assert!(m.contains("geom_refno in [pe:['5_6'],pe:['7_8']]  and out.aabb!=none"));
    assert_eq!(query_negative_entities_sql(&r(9, 9)), "RETURN fn::query_negative_entities(pe:['9_9'])");
    assert_eq!(query_negative_entities_batch_sql(&[]), None);
    assert!(query_negative_entities_batch_sql(&refnos).unwrap().contains("FROM [pe:['1_2'],pe:['3_4']]"));
    assert_eq!(query_boolean_targets_sql(&[]), ALL_TARGETS_SQL);
    assert!(query_boolean_targets_sql(&refnos).contains("SELECT VALUE id FROM [pe:['1_2'],pe:['3_4']]"));
}

#[test]
fn negative_map_keeps_last_relation_per_element() {
    let m = negative_entity_map(vec![
        (r(1, 1), vec![r(2, 2)]),
        (r(3, 3), vec![]),
        (r(1, 1), vec![r(4, 4)]),
    ]);
    assert_eq!(m, vec![(r(3, 3), vec![]), (r(1, 1), vec![r(4, 4)])]);
}

#[test]
fn target_plan_groups_rows_by_element() {
    let refnos = vec![r(1, 1), r(2, 2), r(1, 1), r(3, 3)];
    let bases = vec![(r(1, 1), true), (r(2, 2), false), (r(1, 1), true), (r(3, 3), true)];
    let geos = vec![r(3, 3), r(1, 1), r(1, 1)];
    let cuts = vec![(r(1, 1), false), (r(3, 3), true)];
    let plan = target_plan(&refnos, &bases, &geos, &cuts);
    assert_eq!(plan.len(), 2);
    assert_eq!(plan[0].refno, r(1, 1));
    assert_eq!(plan[0].base, 2);
    assert_eq!(plan[0].geos, vec![1, 2]);
    assert_eq!(plan[0].cuts, None);
    assert_eq!(plan[1].refno, r(3, 3));
    assert_eq!(plan[1].base, 3);
    assert_eq!(plan[1].geos, vec![0]);
    assert_eq!(plan[1].cuts, Some(1));
}
