use aios_surreal::query_builder::{
    BatchQueryBuilder, FunctionQueryBuilder, PeQueryBuilder, QueryBuilder,
};
use aios_surreal::refno::{RefU64, RefnoEnum};

#[test]
fn test_query_builder() {
    let query = QueryBuilder::new()
        .select("*")
        .from("pe")
        .where_clause("noun = 'PIPE'")
        .limit(10)
        .order_by("name", false);

    assert_eq!(
        query.build(),
        "SELECT * FROM pe WHERE noun = 'PIPE' LIMIT 10 ORDER BY name ASC"
    );
}

#[test]
fn test_pe_query_builder() {
    let refno = RefnoEnum::from("12345_67890");
    let builder = PeQueryBuilder::new(refno);
    let query = builder.basic_query();

    assert!(query.build().contains("SELECT * OMIT id FROM ONLY"));
    assert!(query.build().contains("pe:['12345_67890']"));
}

#[test]
fn select_starts_over_and_order_can_descend() {
    let q = QueryBuilder::from_sql("junk".to_string()).select("id").order_by("dt", true);
    assert_eq!(q.build(), "SELECT id ORDER BY dt DESC");
    assert_eq!(QueryBuilder::new().build(), "");
}

#[test]
fn element_queries_name_the_element_key() {
    let b = PeQueryBuilder::new(RefnoEnum::Refno(RefU64::from_parts(17496, 106028)));
    assert_eq!(b.basic_query().build(), "SELECT * OMIT id FROM ONLY pe:['17496_106028'] LIMIT 1");
    assert_eq!(b.attributes_query().build(), "(SELECT * FROM pe:['17496_106028'].refno)[0]");
    assert_eq!(
        b.children_query().build(),
        "SELECT value in FROM pe:['17496_106028']<-pe_owner WHERE in.id!=none AND record::exists(in.id) AND !in.deleted"
    );
    assert_eq!(b.ancestors_query().build(), "RETURN fn::ancestor(pe:['17496_106028']).refno");
    assert_eq!(b.type_query().build(), "SELECT value noun FROM ONLY pe:['17496_106028'] LIMIT 1");
}

#[test]
fn batch_queries_list_keys_with_commas() {
    let b = BatchQueryBuilder::new(vec![RefnoEnum::from("1_2"), RefnoEnum::from("3/4")]);
    assert_eq!(b.types_query().build(), "SELECT value noun FROM [pe:['1_2'],pe:['3_4']]");
    assert_eq!(
        b.full_names_query().build(),
        "SELECT value fn::default_full_name(id) FROM [pe:['1_2'],pe:['3_4']]"
    );
    assert_eq!(
        b.all_children_query().build(),
        "array::flatten(SELECT value in FROM [pe:['1_2'],pe:['3_4']]<-pe_owner WHERE record::exists(in.id) AND !in.deleted)"
    );
    assert_eq!(BatchQueryBuilder::new(vec![]).types_query().build(), "SELECT value noun FROM []");
}

#[test]
fn function_queries_call_stored_functions() {
    let r = RefnoEnum::from("7_8");
    assert_eq!(FunctionQueryBuilder::default_name(r).build(), "RETURN fn::default_name(pe:['7_8'])");
    assert_eq!(
        FunctionQueryBuilder::default_full_name(r).build(),
        "RETURN fn::default_full_name(pe:['7_8'])"
    );
    assert_eq!(
        FunctionQueryBuilder::find_ancestor_type(r, "ZONE").build(),
        "RETURN fn::find_ancestor_type(pe:['7_8'], 'ZONE')"
    );
    assert_eq!(FunctionQueryBuilder::session_date(r).build(), "RETURN fn::ses_date(pe:['7_8'])");
    assert_eq!(FunctionQueryBuilder::get_world(1112).build(), "RETURN fn::get_world(1112)");
    assert_eq!(
        FunctionQueryBuilder::query_sites_of_db(r).build(),
        "RETURN fn::query_sites_of_db(pe:['7_8'])"
    );
    assert_eq!(
        FunctionQueryBuilder::get_sites_of_dbnum(0).build(),
        "RETURN fn::get_sites_of_dbnum(0)"
    );
}
