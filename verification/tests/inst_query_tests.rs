use aios_surreal::inst_query::{
    bool_insts_sql, chunk_ranges, delete_all_model_data_sql, delete_inst_relate_cascade_sql,
    geo_insts_sql, inst_batch_size, join_bool_keys, plain_insts_sql, query_tubi_insts_by_bran_sql,
    query_tubi_insts_by_flow_sql, without_bool_results, InstRead, BATCH_GEO_HEAD, EXPORT_BOOL_HEAD,
    EXPORT_BOOL_TAIL,
};
use aios_surreal::refno::{RefU64, RefnoEnum};

fn r(a: u32, b: u32) -> RefnoEnum {
    RefnoEnum::Refno(RefU64::from_parts(a, b))
}

#[test]
fn batches_and_chunks() {
    assert_eq!(inst_batch_size(None), 50);
    assert_eq!(inst_batch_size(Some(0)), 1);
    assert_eq!(inst_batch_size(Some(7)), 7);
    assert_eq!(chunk_ranges(5, 2), vec![(0, 2), (2, 4), (4, 5)]);
    assert_eq!(chunk_ranges(4, 2), vec![(0, 2), (2, 4)]);
    assert_eq!(chunk_ranges(0, 3), vec![]);
    assert_eq!(chunk_ranges(3, 50), vec![(0, 3)]);
}

#[test]
fn cut_results_come_first_and_the_rest_is_read_plainly() {
    let chunk = [r(1, 2), r(3, 4), r(5, 6)];
    assert_eq!(join_bool_keys(&chunk), "inst_relate_bool:1_2,inst_relate_bool:3_4,inst_relate_bool:5_6");
    let b = bool_insts_sql(InstRead::Export, &chunk);
    assert_eq!(b, format!("{}{}{}", EXPORT_BOOL_HEAD, join_bool_keys(&chunk), EXPORT_BOOL_TAIL));
    assert!(b.contains("FROM [inst_relate_bool:1_2,inst_relate_bool:3_4,inst_relate_bool:5_6]"));
    let rest = without_bool_results(&chunk, &vec![r(3, 4)]);
    assert_eq!(rest, vec![r(1, 2), r(5, 6)]);
    let g = geo_insts_sql(InstRead::Draw, &rest).unwrap();
    assert!(g.starts_with(BATCH_GEO_HEAD));
    assert!(g.contains("FROM [inst_relate:⟨1_2⟩,inst_relate:⟨5_6⟩]"));
    assert!(g.contains("geo_type IN ['Pos', 'CatePos']"));
    assert_eq!(geo_insts_sql(InstRead::Export, &[]), None);
    let p = plain_insts_sql(InstRead::Export, &chunk);
    assert!(p.contains("geo_type IN ['Pos', 'DesiPos', 'CatePos']"));
    assert!(p.contains("world_aabb_hash"));
}

#[test]
fn pipe_run_statements() {
    let s = query_tubi_insts_by_bran_sql(&r(24383, 66478));
    assert!(s.contains("FROM tubi_relate:[pe:['24383_66478'], 0]..[pe:['24383_66478'], 999999]\n            }\n"));
    let f = query_tubi_insts_by_flow_sql(&r(1, 2));
    assert!(f.contains("WHERE (in = pe:['1_2'] OR out = pe:['1_2'])"));
}

#[test]
fn deletes_are_wrapped_in_transactions() {
    assert_eq!(delete_inst_relate_cascade_sql(&[]), None);
    let s = delete_inst_relate_cascade_sql(&[r(1, 2), r(3, 4)]).unwrap();
    assert!(s.starts_with("BEGIN TRANSACTION;\n"));
    assert!(s.contains("from inst_relate:⟨1_2⟩->inst_info->geo_relate);"));
    assert!(s.ends_with("delete inst_relate:⟨1_2⟩,inst_relate:⟨3_4⟩;\nCOMMIT TRANSACTION;"));
    assert_eq!(
        delete_all_model_data_sql(),
        "BEGIN TRANSACTION;\ndelete inst_relate;\ndelete inst_geo;\ndelete inst_info;\ndelete tubi_relate;\ndelete geo_relate;\ndelete neg_relate;\ndelete ngmr_relate;\nCOMMIT TRANSACTION;"
    );
}
