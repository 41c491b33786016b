use aios_surreal::queries::{
    AttributeQueryService, BasicQueryService, BatchQueryService, HierarchyQueryService,
    TimelineQueryService, VisibleInstPlan, AttrKind, split_named_attrs, apply_full_names,
};
use aios_surreal::refno::{RefU64, RefnoEnum};

fn r(a: u32, b: u32) -> RefnoEnum {
    RefnoEnum::Refno(RefU64::from_parts(a, b))
}

#[test]
fn hierarchy_statements() {
    assert_eq!(HierarchyQueryService::get_ancestor_types_sql(&r(1, 2)), "RETURN fn::ancestor(pe:['1_2']).noun");
    let c = HierarchyQueryService::get_children_refnos_sql(&r(1, 2));
    assert!(c.contains("LET $dt=<datetime>fn::ses_date(pe:['1_2']);"));
    assert!(c.contains("FROM fn::newest_pe(pe:['1_2'])<-pe_owner"));
    assert_eq!(HierarchyQueryService::get_siblings_sql(&r(3, 4)), "SELECT value in FROM pe:['3_4']<-pe_owner");
    assert!(HierarchyQueryService::get_children_ele_nodes_sql(&r(3, 4)).contains("FROM pe:['3_4']<-pe_owner WHERE in.id!=none"));
    let i = HierarchyQueryService::get_index_by_noun_in_parent_sql(&r(1, 1), &r(2, 2), Some("EQUI"));
    assert!(i.contains("array::find_index((SELECT value in.id FROM pe:['1_1']<-pe_owner WHERE in.noun='EQUI'), pe:['2_2'])"));
}

#[test]
fn timeline_statements() {
    assert!(TimelineQueryService::ses_date_sql(1112, 5).contains("SELECT date FROM ses:[1112, 5];"));
    assert!(TimelineQueryService::next_ses_sql(1112, 5).contains("WHERE record::id(id)[0] = 1112 AND record::id(id)[1] > 5"));
    assert!(TimelineQueryService::ses_range_by_dbnum_sql(7).contains("WHERE record::id(id)[0] = 7;"));
    assert!(TimelineQueryService::ses_records_at_time_sql(7, "2024-01-01T00:00:00+00:00").contains("date <= d'2024-01-01T00:00:00+00:00'"));
    let c = TimelineQueryService::ses_changes_in_range_sql(7, "A", "B");
    assert!(c.contains("AND date >= d'A' \n                AND date <= d'B'"));
    let g = TimelineQueryService::get_ses_record_sql(7, 9);
    assert!(g.contains("7 as dbnum,\n                9 as sesno,"));
    assert!(g.contains("FROM ses:[7, 9];"));
    assert!(TimelineQueryService::get_latest_ses_records_sql(7, 20).contains("LIMIT 20;"));
}

#[test]
fn basic_attribute_and_batch_statements() {
    assert_eq!(BasicQueryService::get_refno_by_name_sql("P1"), "SELECT value id FROM ONLY pe WHERE name=\"/P1\" LIMIT 1");
    assert_eq!(BasicQueryService::exists_sql(&r(1, 2)), "SELECT value record::exists(pe:['1_2'])");
    let u = AttributeQueryService::get_named_attmap_with_uda_sql(&r(5, 6));
    assert!(u.contains("FROM ONLY pe:['5_6'].refno FETCH pe;"));
    assert!(u.contains("FROM (ATT_UDA:5_6).udas"));
    assert_eq!(AttributeQueryService::get_ancestor_attmaps_sql(&r(1, 2)), "RETURN fn::ancestor(pe:['1_2']).refno.*");
    assert_eq!(
        AttributeQueryService::get_children_named_attmaps_sql(&r(1, 2)),
        "SELECT value in.refno.* FROM pe:['1_2']<-pe_owner WHERE in.id!=none AND !in.deleted"
    );
    assert_eq!(
        BatchQueryService::query_filter_children_sql(&r(1, 2), &[]),
        "SELECT value id FROM fn::collect_children(pe:['1_2'], none)"
    );
    assert_eq!(
        BatchQueryService::query_filter_children_atts_sql(&r(1, 2), &["PIPE", "BRAN"]),
        "SELECT value id.refno.* FROM fn::collect_children(pe:['1_2'], ['PIPE','BRAN'])"
    );
    assert_eq!(BatchQueryService::query_types_sql(&[r(1, 2)]), "SELECT value noun FROM [pe:['1_2']]");
    assert!(BatchQueryService::children_failure_aborts(1));
    assert!(!BatchQueryService::children_failure_aborts(3));
    assert_eq!(
        BatchQueryService::live_children_sql(&r(1, 2)),
        "SELECT value in FROM pe:['1_2']<-pe_owner WHERE record::exists(in.id) AND !in.deleted"
    );
    assert_eq!(
        BatchQueryService::children_full_names_sql(&r(1, 2)),
        "SELECT value [in, fn::default_full_name(in)] FROM pe:['1_2']<-pe_owner WHERE record::exists(in)"
    );
}

#[test]
fn next_and_previous_sibling() {
    let sibs = vec![r(1, 1), r(1, 2), r(1, 3)];
    let zero = RefnoEnum::Refno(RefU64(0));
    assert_eq!(HierarchyQueryService::next_prev_of(&sibs, r(1, 2), true), r(1, 3));
    assert_eq!(HierarchyQueryService::next_prev_of(&sibs, r(1, 2), false), r(1, 1));
    assert_eq!(HierarchyQueryService::next_prev_of(&sibs, r(1, 3), true), zero);
    assert_eq!(HierarchyQueryService::next_prev_of(&sibs, r(1, 1), false), zero);
    // an element that is not among the siblings counts as the first
    assert_eq!(HierarchyQueryService::next_prev_of(&sibs, r(9, 9), true), r(1, 2));
    assert_eq!(HierarchyQueryService::next_prev_of(&sibs, r(9, 9), false), zero);
    assert_eq!(HierarchyQueryService::next_prev_of(&vec![], r(1, 1), true), zero);
}

#[test]
fn next_then_previous_returns() {
    let sibs = vec![r(2, 1), r(2, 2), r(2, 3), r(2, 4)];
    for (i, &e) in sibs.iter().enumerate() {
        if i + 1 < sibs.len() {
            let n = HierarchyQueryService::next_prev_of(&sibs, e, true);
            assert_eq!(HierarchyQueryService::next_prev_of(&sibs, n, false), e);
        }
        if i > 0 {
            let p = HierarchyQueryService::next_prev_of(&sibs, e, false);
            assert_eq!(HierarchyQueryService::next_prev_of(&sibs, p, true), e);
        }
    }
}

#[test]
fn visible_instance_plan_by_type() {
    let t = |a: &str, b: &str| vec![a.to_string(), b.to_string()];
    assert_eq!(BasicQueryService::visible_inst_plan(&t("ELBO", "BRAN")), VisibleInstPlan::Itself);
    assert_eq!(BasicQueryService::visible_inst_plan(&t("BRAN", "PIPE")), VisibleInstPlan::Children);
    assert_eq!(BasicQueryService::visible_inst_plan(&t("HANG", "HANG")), VisibleInstPlan::Itself);
    assert_eq!(BasicQueryService::visible_inst_plan(&t("ZONE", "SITE")), VisibleInstPlan::Deep);
}

#[test]
fn attributes_sorted_for_the_view() {
    let a = |k: &str, kind: AttrKind| (k.to_string(), kind);
    let attrs = vec![
        a("REFNO", AttrKind::Reference { refno: 5, valid: true }),
        a("OWNER", AttrKind::Reference { refno: 7, valid: true }),
        a("SPRE", AttrKind::Reference { refno: 0, valid: false }),
        a("NAME", AttrKind::Other),
        a("CREF", AttrKind::Reference { refno: 9, valid: true }),
        a("SESNO", AttrKind::Invalid),
        a("LSTU", AttrKind::Invalid),
    ];
    let (keys, refnos, unset) = split_named_attrs(&attrs);
    assert_eq!(keys, vec!["OWNER".to_string(), "CREF".to_string()]);
    assert_eq!(refnos, vec![7, 9]);
    assert_eq!(unset, vec!["SPRE".to_string(), "LSTU".to_string()]);
    let values = apply_full_names(&keys, &vec!["/PIPE-1".to_string(), "".to_string()]);
    assert_eq!(
        values,
        vec![("OWNER".to_string(), "/PIPE-1".to_string()), ("CREF".to_string(), "unset".to_string())]
    );
    assert!(apply_full_names(&keys, &vec![]).is_empty());
}
