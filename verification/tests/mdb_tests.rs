use aios_surreal::mdb::{
    query_type_refnos_by_dbnum_sql, query_type_refnos_by_dbnums_sql,
    query_use_cate_refnos_by_dbnum_sql, site_node_names, site_relate_sql, world_mdb_name,
    MDB_SITE_NODES_SQL, MDB_WORLD_REFNO_SQL,
};
use aios_surreal::refno::{RefU64, RefnoEnum};

fn r(a: u32, b: u32) -> RefnoEnum {
    RefnoEnum::Refno(RefU64::from_parts(a, b))
}

#[test]
fn mdb_statements_and_names() {
    assert!(MDB_SITE_NODES_SQL.contains("let $dbnos = (select dbnos, array::len(dbnos) as n"));
    assert!(MDB_SITE_NODES_SQL.contains("from MDB where NAME = $mdb)"));
    assert!(MDB_WORLD_REFNO_SQL.contains("REFNO.noun='WORL' order by o) limit 1)[0]"));
    assert_eq!(world_mdb_name("ALL"), "/ALL");
    assert_eq!(world_mdb_name("/ALL"), "/ALL");
    assert_eq!(
        site_node_names(&vec!["/S1".to_string(), "".to_string(), "".to_string()]),
        vec!["/S1".to_string(), "SITE 2".to_string(), "SITE 3".to_string()]
    );
    assert_eq!(
        site_relate_sql(&[r(1, 2), r(1, 3)], &r(1, 0)),
        "relate pe:['1_2']->site_relate:[pe:['1_0'], 0]->pe:['1_0'];relate pe:['1_3']->site_relate:[pe:['1_0'], 1]->pe:['1_0'];"
    );
}

#[test]
fn type_statements() {
    assert_eq!(query_type_refnos_by_dbnums_sql("EQUI", &[]), "select value id from EQUI");
    assert_eq!(
        query_type_refnos_by_dbnums_sql("EQUI", &[1, 2]),
        "select value id from EQUI where REFNO.dbnum in [1,2]"
    );
    assert_eq!(
        query_type_refnos_by_dbnum_sql("BRAN", 7, Some(true), true),
        "select value id from BRAN_H where REFNO.dbnum=7 and (REFNO<-pe_owner.in)[0] != none"
    );
    assert_eq!(
        query_type_refnos_by_dbnum_sql("BRAN", 7, Some(false), false),
        "select value id from BRAN where REFNO.dbnum=7 and (REFNO<-pe_owner.in)[0] == none"
    );
    assert_eq!(query_type_refnos_by_dbnum_sql("BRAN", 7, None, false), "select value id from BRAN where REFNO.dbnum=7");
    assert_eq!(
        query_use_cate_refnos_by_dbnum_sql("ELBO", 9, false),
        "select value id from ELBO where REFNO.dbnum=9 and (SPRE != none or CATR != none)"
    );
}
