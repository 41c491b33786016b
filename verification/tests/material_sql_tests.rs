use aios_surreal::material::MaterialList;
use aios_surreal::material_rows::{MaterialSbListData, MaterialSubeData};
use aios_surreal::material_sql::{
    apply_rails, hvac_nouns, list_searches_element, list_statements, rail_rows, refnos_of_noun,
    sb_sube_sql, statement_run_count, MaterialStatement, GY_BEND_HEAD, SB_SUBE_HEAD,
};
use aios_surreal::refno::RefU64;

fn s(t: &str) -> String {
    t.to_string()
}

#[test]
fn statements_embed_the_json_array_of_pe_keys() {
    let refnos = vec![RefU64::from_parts(17496, 123), RefU64::from_parts(1, 2)];
    let sql = MaterialStatement::GyBend.sql(&refnos);
    assert_eq!(sql, format!("{}[\"pe:['17496_123']\",\"pe:['1_2']\"]", GY_BEND_HEAD));
    assert!(sql.starts_with("select\n    id as id,"));
    assert!(sql.contains("math::fixed((refno.ANGL / 360) * 2 * 3.1415"));
    let sql = MaterialStatement::GpsElbo.sql(&vec![]);
    assert!(sql.ends_with("from [];"));
    let sql = MaterialStatement::HvacStrt.sql(&vec![RefU64::from_parts(3, 4)]);
    assert!(sql.contains("string::concat(fn::shape_name(id), '直管') as description"));
    assert!(sql.ends_with("\tfrom [\"pe:['3_4']\"];"));
}

#[test]
fn ventilation_statements_skip_empty_sets() {
    assert_eq!(MaterialStatement::HvacCap.sql_for(&vec![]), None);
    assert!(MaterialStatement::HvacCap.sql_for(&vec![RefU64::from_parts(1, 1)]).is_some());
    assert_eq!(
        MaterialStatement::GyEqui.sql_for(&vec![]),
        Some(MaterialStatement::GyEqui.sql(&vec![]))
    );
}

#[test]
fn statements_read_their_child_types() {
    assert_eq!(
        MaterialStatement::GyFitting.nouns(),
        vec![s("ELBO"), s("TEE"), s("FLAN"), s("GASK"), s("OLET"), s("REDU"), s("CAP"), s("COUP")]
    );
    assert_eq!(
        MaterialStatement::YkDzcl.nouns(),
        vec![s("VALV"), s("TEE"), s("COUP"), s("INST"), s("BEND")]
    );
    assert_eq!(MaterialStatement::TxTxsb.nouns(), vec![s("ELCONN")]);
    assert_eq!(hvac_nouns().len(), 10);
    assert_eq!(hvac_nouns()[0], "BEND");
}

#[test]
fn lists_run_their_statements_in_order() {
    assert_eq!(
        list_statements(MaterialList::GyDzcl),
        vec![MaterialStatement::GyBend, MaterialStatement::GyTubi, MaterialStatement::GyFitting]
    );
    let hv = list_statements(MaterialList::TfHvac);
    assert_eq!(hv.len(), 10);
    assert_eq!(hv[0], MaterialStatement::HvacStrt);
    assert_eq!(hv[9], MaterialStatement::HvacStif);
    assert_eq!(list_statements(MaterialList::GpsDzcl).len(), 6);
    assert_eq!(list_statements(MaterialList::DqBran)[2], MaterialStatement::DqGensec);
}

#[test]
fn sites_are_searched_by_discipline() {
    assert!(list_searches_element(MaterialList::GyValv, "SITE", "/S-PIPE-1"));
    assert!(!list_searches_element(MaterialList::GyValv, "SITE", "/S-ELEC-1"));
    assert!(list_searches_element(MaterialList::GyValv, "ZONE", "/Z"));
    assert!(list_searches_element(MaterialList::DqBran, "SITE", "/S-ELEC"));
    assert!(list_searches_element(MaterialList::SbDzcl, "SITE", "/EQUI-1"));
    assert!(list_searches_element(MaterialList::TfHvac, "SITE", "/S-HVAC"));
    assert!(!list_searches_element(MaterialList::TfHvac, "ZONE", "/Z-HVAC"));
    assert!(list_searches_element(MaterialList::NtValv, "ZONE", "/Z"));
}

#[test]
fn zone_statements_run_once_per_matching_zone() {
    let zones = vec![s("/Z-MTGD-1"), s("/Z-A"), s("/Z-B"), s("/FAD-1")];
    assert_eq!(statement_run_count(MaterialStatement::DqStru, &zones), 3);
    assert_eq!(statement_run_count(MaterialStatement::DqGensec, &zones), 1);
    assert_eq!(statement_run_count(MaterialStatement::TxTxsb, &zones), 1);
    assert_eq!(statement_run_count(MaterialStatement::DqBran, &zones), 1);
    assert_eq!(statement_run_count(MaterialStatement::DqStru, &vec![]), 0);
}

#[test]
fn ventilation_elements_are_split_by_type() {
    let e = vec![
        (RefU64::from_parts(1, 1), s("STRT")),
        (RefU64::from_parts(1, 2), s("TAPE")),
        (RefU64::from_parts(1, 3), s("STRT")),
    ];
    assert_eq!(refnos_of_noun(&e, "STRT"), vec![RefU64::from_parts(1, 1), RefU64::from_parts(1, 3)]);
    assert_eq!(refnos_of_noun(&e, "CAP"), vec![]);
}

fn row(id: u32, name: &str) -> MaterialSbListData {
    MaterialSbListData {
        id: RefU64::from_parts(9, id),
        name: s(name),
        pos: None,
        length: None,
        room_code: None,
        boxs: vec![],
    }
}

#[test]
fn rail_rows_drop_pr_pd_and_keep_the_last_of_each_number() {
    let rows = vec![row(1, "A"), row(2, "PR-PD-1"), row(1, "B"), row(3, "PR-1"), row(4, "PD")];
    let kept = rail_rows(rows);
    let names: Vec<&str> = kept.iter().map(|r| r.name.as_str()).collect();
    assert_eq!(names, vec!["B", "PR-1", "PD"]);
}

#[test]
fn rails_set_height_and_length_of_their_equipment() {
    let mut rows = vec![row(1, "A"), row(2, "B")];
    let rails = vec![
        MaterialSubeData { refno: RefU64::from_parts(9, 1), pos: Some(s("1")), length: Some(s("2")) },
        MaterialSubeData { refno: RefU64::from_parts(9, 1), pos: Some(s("3")), length: None },
        MaterialSubeData { refno: RefU64::from_parts(8, 2), pos: Some(s("5")), length: Some(s("6")) },
    ];
    apply_rails(&mut rows, &rails);
    assert_eq!(rows[0].pos, Some(s("3")));
    assert_eq!(rows[0].length, None);
    assert_eq!(rows[1].pos, None);
    assert_eq!(rows[1].length, None);
}

#[test]
fn rail_statement_embeds_the_groups() {
    let g = vec![vec![s("BOX:1"), s("BOX:2"), s("BOX:3")], vec![]];
    assert_eq!(sb_sube_sql(&g), format!("{}[[\"BOX:1\",\"BOX:2\",\"BOX:3\"],[]]", SB_SUBE_HEAD));
}
