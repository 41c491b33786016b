//! Statements of the measurement table: listing with filters and paging,
//! lookups by field, counting, updating and deleting.
use vstd::prelude::*;
use crate::annotation_query::{filter_conditions, filters_where, limit_text, offset_text, opt_text, push_limit, where_text};
use crate::text::{push_decimal, push_str};

verus! {

/// `SELECT * FROM measurement` with the project and scene filters that are
/// given, the limit and the offset.
pub fn list_measurements_sql(
    project_id: Option<String>,
    scene_id: Option<String>,
    limit: Option<usize>,
    offset: Option<usize>,
) -> (r: String)
    ensures
        r@ == "SELECT * FROM measurement"@ + where_text(
            filter_conditions(opt_text(project_id), opt_text(scene_id), None),
        ) + limit_text(limit) + offset_text(offset),
{
    let mut sql = String::new();
    push_str(&mut sql, "SELECT * FROM measurement");
    let w = filters_where(project_id, scene_id, None);
    push_str(&mut sql, w.as_str());
    push_limit(&mut sql, limit);
    match offset {
        Some(o) => {
            push_str(&mut sql, " START ");
            push_decimal(&mut sql, o as u64);
        },
        None => {},
    }
    sql
}

/// The number of measurements matching the project and scene filters.
pub fn count_measurements_sql(project_id: Option<String>, scene_id: Option<String>) -> (r: String)
    ensures
        r@ == "SELECT count() FROM measurement"@ + where_text(
            filter_conditions(opt_text(project_id), opt_text(scene_id), None),
        ) + " GROUP ALL"@,
{
    let mut sql = String::new();
    push_str(&mut sql, "SELECT count() FROM measurement");
    let w = filters_where(project_id, scene_id, None);
    push_str(&mut sql, w.as_str());
    push_str(&mut sql, " GROUP ALL");
    sql
}

/// One measurement by its record id.
pub fn get_measurement_by_id_sql(id: &str) -> (r: String)
    ensures
        r@ == "SELECT * FROM "@ + id@ + " LIMIT 1"@,
{
    let mut sql = String::new();
    push_str(&mut sql, "SELECT * FROM ");
    push_str(&mut sql, id);
    push_str(&mut sql, " LIMIT 1");
    sql
}

/// Merges the fields of `updates_json` into a measurement and stamps the
/// update time.
pub fn update_measurement_sql(id: &str, updates_json: &str) -> (r: String)
    ensures
        r@ == "UPDATE "@ + id@ + " MERGE "@ + updates_json@ + " SET updated_at = time::now()"@,
{
    let mut sql = String::new();
    push_str(&mut sql, "UPDATE ");
    push_str(&mut sql, id);
    push_str(&mut sql, " MERGE ");
    push_str(&mut sql, updates_json);
    push_str(&mut sql, " SET updated_at = time::now()");
    sql
}

/// Deletes a measurement.
pub fn delete_measurement_sql(id: &str) -> (r: String)
    ensures
        r@ == "DELETE "@ + id@,
{
    let mut sql = String::new();
    push_str(&mut sql, "DELETE ");
    push_str(&mut sql, id);
    sql
}

/// The measurements of one type, up to `limit` of them.
pub fn list_measurements_by_type_sql(measurement_type: &str, limit: Option<usize>) -> (r: String)
    ensures
        r@ == "SELECT * FROM measurement WHERE measurement_type = '"@ + measurement_type@ + "'"@
            + limit_text(limit),
{
    let mut sql = String::new();
    push_str(&mut sql, "SELECT * FROM measurement WHERE measurement_type = '");
    push_str(&mut sql, measurement_type);
    push_str(&mut sql, "'");
    push_limit(&mut sql, limit);
    sql
}

/// The measurements of one creator, up to `limit` of them.
pub fn list_measurements_by_creator_sql(created_by: &str, limit: Option<usize>) -> (r: String)
    ensures
        r@ == "SELECT * FROM measurement WHERE created_by = '"@ + created_by@ + "'"@ + limit_text(
            limit,
        ),
{
    let mut sql = String::new();
    push_str(&mut sql, "SELECT * FROM measurement WHERE created_by = '");
    push_str(&mut sql, created_by);
    push_str(&mut sql, "'");
    push_limit(&mut sql, limit);
    sql
}

/// The measurements of one status, up to `limit` of them.
pub fn list_measurements_by_status_sql(status: &str, limit: Option<usize>) -> (r: String)
    ensures
        r@ == "SELECT * FROM measurement WHERE status = '"@ + status@ + "'"@ + limit_text(limit),
{
    let mut sql = String::new();
    push_str(&mut sql, "SELECT * FROM measurement WHERE status = '");
    push_str(&mut sql, status);
    push_str(&mut sql, "'");
    push_limit(&mut sql, limit);
    sql
}

} // verus!
