//! Statements that set up the database: indexes, events and table
//! schemas, and the repair of instance relations that lack a zone.
use vstd::prelude::*;

verus! {

/// The unique indexes of the negative and nearest relations.
pub const GEOM_INDEX_SQL: &'static str = r#"
                DEFINE INDEX unique_neg_relate ON TABLE neg_relate COLUMNS in, out UNIQUE;
                DEFINE INDEX unique_nearest_relate ON TABLE nearest_relate COLUMNS in, out UNIQUE;
             "#;

/// The unique indexes of the room relations.
pub const ROOM_INDEX_SQL: &'static str = r#"
        DEFINE INDEX unique_room_relate ON TABLE room_relate COLUMNS in, out UNIQUE;
        DEFINE INDEX unique_room_panel_relate ON TABLE room_panel_relate COLUMNS in, out UNIQUE;
               "#;

/// The unique index of the ownership relation.
pub const OWNER_INDEX_SQL: &'static str = r#"DEFINE INDEX unique_pe_owner ON TABLE pe_owner COLUMNS in, out UNIQUE"#;

/// The full-text analyser and index of element names.
pub const FULLNAME_INDEX_SQL: &'static str = r#"DEFINE ANALYZER name_fulltext TOKENIZERS class FILTERS lowercase;
                    DEFINE INDEX fulltext_name ON TABLE pe FIELDS name SEARCH ANALYZER name_fulltext BM25 HIGHLIGHTS;
                "#;

/// The indexes of the element table.
pub const PE_INDEX_SQL: &'static str = r#"
        DEFINE index pe_name_index ON TABLE pe COLUMNS name;
        DEFINE index pe_refno_index ON TABLE pe COLUMNS refno;
        DEFINE index pe_cata_hash_index ON TABLE pe COLUMNS cata_hash;
        DEFINE index pe_dbnum_index ON TABLE pe COLUMNS dbnum;
        DEFINE INDEX sesno_index ON TABLE pe COLUMNS sesno;
        -- pe.owner 字段的索引，与 define_owner_index 建的 pe_owner 边表索引是两回事。
        -- 缺它时按 owner 过滤是全表扫：200,873 行上 count 一个 50 行的结果要 1.25s。
        DEFINE INDEX pe_owner_index ON TABLE pe COLUMNS owner;
        -- 模型树根层（get_mdb_world_site_ele_nodes / query_mdb_db_nums）的 noun+dbnum 过滤。
        -- 只有上面那条 pe_dbnum_index 时，dbnum 选择性极差（3 个值覆盖全表），规划器却会挑它，
        -- 结果比全表扫还慢：走 dbnum 索引 2.78s，纯全表扫 0.96s。这条复合索引把它压到 22ms。
        DEFINE INDEX pe_noun_dbnum_index ON TABLE pe COLUMNS noun, dbnum;
                "#;

/// The indexes of the session table.
pub const SES_INDEX_SQL: &'static str = r#"
        DEFINE INDEX date_index ON ses COLUMNS date;
        DEFINE INDEX dbnum_index ON ses COLUMNS dbnum;
        DEFINE INDEX sesno_index ON ses COLUMNS sesno;
                "#;

/// The event that keeps the per-database counters up to date.
pub const DBNUM_EVENT_SQL: &'static str = r#"
        DEFINE EVENT OVERWRITE update_dbnum_event ON pe WHEN $event = "CREATE" OR $event = "UPDATE" OR $event = "DELETE" THEN {
            -- 获取当前记录的 dbnum
            LET $dbnum = $value.dbnum;
            LET $id = record::id($value.id);
            let $ref_0 = array::at($id, 0);
            let $ref_1 = array::at($id, 1);
            let $is_delete = $value.deleted and $event = "UPDATE";
            let $max_sesno = if $after.sesno > $before.sesno?:0 { $after.sesno } else { $before.sesno };
            -- 根据事件类型处理  type::record("dbnum_info_table", $ref_0)
            IF $event = "CREATE"   {
                UPSERT type::record('dbnum_info_table', $ref_0) SET
                    dbnum = $dbnum,
                    count = count?:0 + 1,
                    sesno = $max_sesno,
                    max_ref1 = $ref_1;
            } ELSE IF $event = "DELETE" OR $is_delete  {
                UPSERT type::record('dbnum_info_table', $ref_0) SET
                    count = count - 1,
                    sesno = $max_sesno,
                    max_ref1 = $ref_1
                WHERE count > 0;
            };
        };
        "#;

/// The schema of the element transform table.
pub const PE_TRANSFORM_SCHEMA_SQL: &'static str = r#"
DEFINE TABLE IF NOT EXISTS pe_transform SCHEMAFULL;
DEFINE FIELD IF NOT EXISTS local_trans ON TABLE pe_transform TYPE option<record<trans>>;
DEFINE FIELD IF NOT EXISTS world_trans ON TABLE pe_transform TYPE option<record<trans>>;
DEFINE FIELD IF NOT EXISTS updated_at ON TABLE pe_transform TYPE datetime DEFAULT time::now();
"#;

/// The count of instance relations that lack a zone.
pub const MISSING_ZONE_COUNT_SQL: &'static str = r#"
        SELECT count() FROM inst_relate 
        WHERE zone_refno = NONE AND in != NONE;
    "#;

/// The statements that give every instance relation without a zone the zone above its element.
pub const MISSING_ZONE_UPDATE_SQL: &'static str = r#"
        LET $missing_zone_records = SELECT id, in FROM inst_relate 
                                    WHERE zone_refno = NONE 
                                    AND in != NONE;
        
        FOR $record IN $missing_zone_records {
            LET $zone = fn::find_ancestor_type($record.in, 'ZONE');
            IF $zone != NONE && $zone.refno != NONE {
                UPDATE $record.id SET zone_refno = $zone.refno;
            }
        }
    "#;

/// The indexes that speed up the boolean-operation reads, in the order
/// they are defined.
pub open spec fn boolean_index_statements() -> Seq<Seq<char>> {
    seq![
        "DEFINE INDEX idx_inst_relate_in ON TABLE inst_relate COLUMNS in"@,
        "DEFINE INDEX idx_inst_relate_bool_status ON TABLE inst_relate COLUMNS bool_status"@,
        "DEFINE INDEX idx_neg_relate_out ON TABLE neg_relate COLUMNS out"@,
        "DEFINE INDEX idx_neg_relate_in ON TABLE neg_relate COLUMNS in"@,
        "DEFINE INDEX idx_ngmr_relate_out ON TABLE ngmr_relate COLUMNS out"@,
        "DEFINE INDEX idx_ngmr_relate_in ON TABLE ngmr_relate COLUMNS in"@,
        "DEFINE INDEX idx_geo_relate_geo_type ON TABLE geo_relate COLUMNS geo_type"@,
        "DEFINE INDEX idx_geo_relate_trans ON TABLE geo_relate COLUMNS trans"@,
        "DEFINE INDEX idx_geo_relate_geom_refno ON TABLE geo_relate COLUMNS geom_refno"@,
    ]
}

/// The statements that define the boolean-operation indexes, one each, in
/// the order they run.
pub fn boolean_query_indexes() -> (r: Vec<&'static str>)
    ensures
        r@.map_values(|s: &str| s@) == boolean_index_statements(),
{
    let r = vec![
        "DEFINE INDEX idx_inst_relate_in ON TABLE inst_relate COLUMNS in",
        "DEFINE INDEX idx_inst_relate_bool_status ON TABLE inst_relate COLUMNS bool_status",
        "DEFINE INDEX idx_neg_relate_out ON TABLE neg_relate COLUMNS out",
        "DEFINE INDEX idx_neg_relate_in ON TABLE neg_relate COLUMNS in",
        "DEFINE INDEX idx_ngmr_relate_out ON TABLE ngmr_relate COLUMNS out",
        "DEFINE INDEX idx_ngmr_relate_in ON TABLE ngmr_relate COLUMNS in",
        "DEFINE INDEX idx_geo_relate_geo_type ON TABLE geo_relate COLUMNS geo_type",
        "DEFINE INDEX idx_geo_relate_trans ON TABLE geo_relate COLUMNS trans",
        "DEFINE INDEX idx_geo_relate_geom_refno ON TABLE geo_relate COLUMNS geom_refno",
    ];
    assert(r@.map_values(|s: &str| s@) =~= boolean_index_statements());
    r
}

/// The number of instance relations without a zone, read from the rows of
/// the count statement: the first row's count, or zero when there is none.
/// The repair statements run only when it is not zero.
pub fn missing_zone_count(counts: &Vec<usize>) -> (n: usize)
    ensures
        n == (if counts@.len() > 0 {
            counts@[0]
        } else {
            0
        }),
{
    if counts.len() > 0 {
        counts[0]
    } else {
        0
    }
}

} // verus!
