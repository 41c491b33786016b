use aios_surreal::pe_query::{
    get_index_by_noun_in_parent_sql, get_named_attmap_with_uda_sql, get_owner_refnos_by_types_sql,
    get_pe_sql, get_refno_by_name_sql, get_type_names_sql, insert_into_table_sql,
    is_owner_type_in_sql, join_decimals, noun_children_sql, noun_table_sql, path_expr_text,
    query_ancestor_refno_by_type_sql, query_bran_fixing_length_sql, query_foreign_refnos_sql,
    query_full_names_map_sql, query_history_pes_sql, query_refno_sesno_sql,
    query_refnos_by_type_sql, query_refnos_from_names_sql, query_same_type_refnos_sql,
    query_single_by_paths_sql, NOUN_CHILDREN_HEAD,
};
use aios_surreal::refno::{RefU64, RefnoEnum};

fn r(a: u32, b: u32) -> RefnoEnum {
    RefnoEnum::Refno(RefU64::from_parts(a, b))
}

#[test]
fn single_element_statements() {
    assert_eq!(get_pe_sql(&r(17496, 1)), "select * omit id from only pe:['17496_1'] limit 1;");
    assert_eq!(
        query_ancestor_refno_by_type_sql(&r(1, 2), "ZONE"),
        "return fn::ancestor(pe:['1_2'])[where noun='ZONE'][0]?.refno;"
    );
    assert_eq!(get_refno_by_name_sql("A-1"), "select value id from only pe where name=\"/A-1\" limit 1;");
    assert_eq!(
        query_bran_fixing_length_sql(&RefU64::from_parts(3, 4)),
        "return math::fixed(fn::bran_comp_len(pe:['3_4'])?:0.0,2)"
    );
    assert_eq!(
        query_refno_sesno_sql(&RefU64::from_parts(3, 4), 12, -1),
        "fn::latest_pe_sesno(pe:['3_4'], 12, -1)"
    );
    assert_eq!(
        query_history_pes_sql(&r(17496, 171606)),
        "\n            select value id from only pe_ses_h:['17496_171606', 0]..['17496_171606'];\n        "
    );
    let uda = get_named_attmap_with_uda_sql(&r(5, 6));
    assert!(uda.contains("from only pe:['5_6'].refno fetch pe;"));
    assert!(uda.contains("where !UHIDE and pe:['5_6'].noun in ELEL;"));
    assert!(uda.contains("from (ATT_UDA:5_6).udas"));
    assert!(uda.contains("{ DYUDNA } else { UDNA }"));
}

#[test]
fn list_statements() {
    let refnos = [r(1, 2), r(3, 4)];
    assert_eq!(get_type_names_sql(&refnos), "select value noun from [pe:['1_2'],pe:['3_4']]");
    assert_eq!(
        query_full_names_map_sql(&refnos),
        "select value [id, fn::default_full_name(id)] from pe:['1_2'],pe:['3_4']"
    );
    assert_eq!(is_owner_type_in_sql(&r(1, 2), &[]), None);
    assert_eq!(
        is_owner_type_in_sql(&r(1, 2), &["BRAN", "HANG"]),
        Some("select value owner.noun from only pe:['1_2'] where owner.noun IN ('BRAN','HANG') limit 1".to_string())
    );
    assert_eq!(
        get_owner_refnos_by_types_sql(&refnos, &["ZONE"]),
        Some("array::distinct(select value owner from [pe:['1_2'],pe:['3_4']] where owner.noun IN ['ZONE'])".to_string())
    );
    assert_eq!(
        query_foreign_refnos_sql(&[RefU64::from_parts(7, 8)], "SPRE"),
        "select refno, refno.SPRE as foreign_refno,refno.SPRE.refno.NAME as name from [pe:['7_8']];"
    );
    assert_eq!(join_decimals(&[1112, 7]), "1112,7");
    assert_eq!(
        query_refnos_by_type_sql("bran", &[1112, 7]),
        "select value id from BRAN where dbnum in [1112,7]"
    );
    assert_eq!(
        query_same_type_refnos_sql(&r(1, 2), &[5], true),
        "select value owner from type::table(pe:['1_2'].noun) where REFNO.dbnum in [5] and !deleted"
    );
    assert_eq!(insert_into_table_sql("t", "{a: 1}"), "insert ignore into t {a: 1}");
}

#[test]
fn index_paths_and_names() {
    assert_eq!(
        get_index_by_noun_in_parent_sql(&r(1, 1), &r(2, 2), Some("BRAN")),
        "\n        array::find_index((select value in.id from pe:['1_1']<-pe_owner where in.noun='BRAN'), pe:['2_2'])\n    "
    );
    assert_eq!(
        get_index_by_noun_in_parent_sql(&r(1, 1), &r(2, 2), None),
        "\n        array::find_index((select value in.id from pe:['1_1']<-pe_owner ), pe:['2_2'])\n    "
    );
    assert_eq!(path_expr_text("->SPRE->CATR"), "refno.SPRE.refno.CATR");
    assert_eq!(path_expr_text(".NAME"), "NAME");
    assert_eq!(path_expr_text("owner"), "owner");
    assert_eq!(
        query_single_by_paths_sql(&r(1, 2), &["->SPRE", "CATR->PRTREF"]),
        "(select value refno.* from (select value [refno.SPRE,CATR.refno.PRTREF] from only pe:['1_2']) where id != none)[0]"
    );
    assert_eq!(
        query_refnos_from_names_sql(&vec!["A".to_string(), "/B".to_string()]),
        "select refno,name,noun,owner,0 as children_count , 0 as version, 0 as order from pe where name in [\"/A\",\"/B\"] and !deleted"
    );
}

#[test]
fn noun_hierarchy_filters_are_escaped() {
    let s = noun_children_sql(&r(1, 2), "PIPE", Some("it's"));
    assert!(s.starts_with(NOUN_CHILDREN_HEAD));
    assert!(s.contains("FROM pe:['1_2'].children"));
    assert!(s.contains("AND noun = 'PIPE'\n        AND string::contains(name ?? '', 'it\\'s')\n        "));
    let s = noun_children_sql(&r(1, 2), "PIPE", None);
    assert!(s.contains("AND noun = 'PIPE'\n\n        "));
    let t = noun_table_sql("EQUI", None);
    assert!(t.contains("FROM EQUI\n        WHERE REFNO!=NONE \n        "));
    let t = noun_table_sql("EQUI", Some("a'b"));
    assert!(t.contains("WHERE REFNO!=NONE AND NAME != none AND string::contains(NAME, 'a\\'b')"));
}
