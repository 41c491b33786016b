use aios_surreal::schema::{
    boolean_query_indexes, missing_zone_count, GEOM_INDEX_SQL, MISSING_ZONE_UPDATE_SQL,
    OWNER_INDEX_SQL,
};

#[test]
fn boolean_indexes_in_order() {
    let all = boolean_query_indexes();
    assert_eq!(all.len(), 9);
    assert_eq!(all[0], "DEFINE INDEX idx_inst_relate_in ON TABLE inst_relate COLUMNS in");
    assert_eq!(all[8], "DEFINE INDEX idx_geo_relate_geom_refno ON TABLE geo_relate COLUMNS geom_refno");
}

#[test]
fn zone_repair_runs_only_for_a_positive_count() {
    assert_eq!(missing_zone_count(&vec![]), 0);
    assert_eq!(missing_zone_count(&vec![0]), 0);
    assert_eq!(missing_zone_count(&vec![7, 3]), 7);
    assert!(MISSING_ZONE_UPDATE_SQL.contains("fn::find_ancestor_type($record.in, 'ZONE')"));
}

#[test]
fn index_statements() {
    assert_eq!(OWNER_INDEX_SQL, "DEFINE INDEX unique_pe_owner ON TABLE pe_owner COLUMNS in, out UNIQUE");
    assert!(GEOM_INDEX_SQL.contains("DEFINE INDEX unique_neg_relate ON TABLE neg_relate COLUMNS in, out UNIQUE;"));
}
