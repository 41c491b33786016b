//! Statements of the annotation table: listing with filters and paging,
//! lookups by field, counting, updating, resolving and deleting.
use vstd::prelude::*;
use crate::text::{decimal, join_strings, join_with, push_decimal, push_str};

verus! {

/// ` LIMIT n` for a given limit, nothing otherwise.
pub open spec fn limit_text(limit: Option<usize>) -> Seq<char> {
    match limit {
        Some(l) => " LIMIT "@ + decimal(l as nat),
        None => Seq::empty(),
    }
}

/// ` START n` for a given offset, nothing otherwise.
pub open spec fn offset_text(offset: Option<usize>) -> Seq<char> {
    match offset {
        Some(o) => " START "@ + decimal(o as nat),
        None => Seq::empty(),
    }
}

/// The condition `field = 'value'` for a given value.
pub open spec fn eq_condition(field: Seq<char>, value: Seq<char>) -> Seq<char> {
    field + " = '"@ + value + "'"@
}

/// The text of an optional string.
pub open spec fn opt_text(v: Option<String>) -> Option<Seq<char>> {
    match v {
        Some(s) => Some(s@),
        None => None,
    }
}

/// The conditions for the project, scene and status filters that are given,
/// in that order.
pub open spec fn filter_conditions(
    project_id: Option<Seq<char>>,
    scene_id: Option<Seq<char>>,
    status: Option<Seq<char>>,
) -> Seq<Seq<char>> {
    let a = match project_id {
        Some(p) => seq![eq_condition("project_id"@, p)],
        None => Seq::empty(),
    };
    let b = match scene_id {
        Some(s) => seq![eq_condition("scene_id"@, s)],
        None => Seq::empty(),
    };
    let c = match status {
        Some(s) => seq![eq_condition("status"@, s)],
        None => Seq::empty(),
    };
    a + b + c
}

/// ` WHERE c1 AND c2 ...` for a non-empty list of conditions, nothing for
/// an empty one.
pub open spec fn where_text(conditions: Seq<Seq<char>>) -> Seq<char> {
    if conditions.len() == 0 {
        Seq::empty()
    } else {
        " WHERE "@ + join_with(conditions, " AND "@)
    }
}

/// Appends ` LIMIT n` when a limit is given.
pub(crate) fn push_limit(sql: &mut String, limit: Option<usize>)
    ensures
        final(sql)@ == old(sql)@ + limit_text(limit),
{
    match limit {
        Some(l) => {
            push_str(sql, " LIMIT ");
            push_decimal(sql, l as u64);
        },
        None => {
            assert(old(sql)@ + limit_text(limit) =~= old(sql)@);
        },
    }
}

/// Appends `field = 'value'` to the condition list when a value is given.
fn push_condition(conditions: &mut Vec<String>, field: &str, value: Option<String>)
    ensures
        value is None ==> final(conditions)@ == old(conditions)@,
        value matches Some(v) ==> final(conditions)@.len() == old(conditions)@.len() + 1
            && final(conditions)@.drop_last() == old(conditions)@ && final(conditions)@.last()@
            == eq_condition(field@, v@),
{
    match value {
        Some(v) => {
            let mut c = String::new();
            push_str(&mut c, field);
            push_str(&mut c, " = '");
            push_str(&mut c, v.as_str());
            push_str(&mut c, "'");
            conditions.push(c);
            assert(conditions@.drop_last() =~= old(conditions)@);
        },
        None => {},
    }
}

/// The ` WHERE ...` text for the given filters.
pub(crate) fn filters_where(project_id: Option<String>, scene_id: Option<String>, status: Option<String>) -> (r: String)
    ensures
        r@ == where_text(filter_conditions(opt_text(project_id), opt_text(scene_id), opt_text(status))),
{
    let ghost target = filter_conditions(opt_text(project_id), opt_text(scene_id), opt_text(status));
    let mut conditions: Vec<String> = Vec::new();
    push_condition(&mut conditions, "project_id", project_id);
    push_condition(&mut conditions, "scene_id", scene_id);
    push_condition(&mut conditions, "status", status);
    assert(conditions@.map_values(|p: String| p@) =~= target) by {
        let a = match opt_text(project_id) {
            Some(p) => seq![eq_condition("project_id"@, p)],
            None => Seq::<Seq<char>>::empty(),
        };
        let b = match opt_text(scene_id) {
            Some(s) => seq![eq_condition("scene_id"@, s)],
            None => Seq::<Seq<char>>::empty(),
        };
        let c = match opt_text(status) {
            Some(s) => seq![eq_condition("status"@, s)],
            None => Seq::<Seq<char>>::empty(),
        };
        assert(target == a + b + c);
    }
    if conditions.len() == 0 {
        String::new()
    } else {
        let mut r = String::new();
        push_str(&mut r, " WHERE ");
        let joined = join_strings(&conditions, " AND ");
        push_str(&mut r, joined.as_str());
        r
    }
}

/// `SELECT * FROM annotation` with the given filters, limit and offset.
pub fn list_annotations_sql(
    project_id: Option<String>,
    scene_id: Option<String>,
    status: Option<String>,
    limit: Option<usize>,
    offset: Option<usize>,
) -> (r: String)
    ensures
        r@ == "SELECT * FROM annotation"@ + where_text(
            filter_conditions(opt_text(project_id), opt_text(scene_id), opt_text(status)),
        ) + limit_text(limit) + offset_text(offset),
{
    let mut sql = String::new();
    push_str(&mut sql, "SELECT * FROM annotation");
    let w = filters_where(project_id, scene_id, status);
    push_str(&mut sql, w.as_str());
    push_limit(&mut sql, limit);
    match offset {
        Some(o) => {
            push_str(&mut sql, " START ");
            push_decimal(&mut sql, o as u64);
        },
        None => {},
    }
    sql
}

/// The number of annotations matching the given filters.
pub fn count_annotations_sql(
    project_id: Option<String>,
    scene_id: Option<String>,
    status: Option<String>,
) -> (r: String)
    ensures
        r@ == "SELECT count() FROM annotation"@ + where_text(
            filter_conditions(opt_text(project_id), opt_text(scene_id), opt_text(status)),
        ) + " GROUP ALL"@,
{
    let mut sql = String::new();
    push_str(&mut sql, "SELECT count() FROM annotation");
    let w = filters_where(project_id, scene_id, status);
    push_str(&mut sql, w.as_str());
    push_str(&mut sql, " GROUP ALL");
    sql
}

/// One annotation by its record id.
pub fn get_annotation_by_id_sql(id: &str) -> (r: String)
    ensures
        r@ == "SELECT * FROM "@ + id@ + " LIMIT 1"@,
{
    let mut sql = String::new();
    push_str(&mut sql, "SELECT * FROM ");
    push_str(&mut sql, id);
    push_str(&mut sql, " LIMIT 1");
    sql
}

/// Merges the fields of `updates_json` into an annotation and stamps the
/// update time.
pub fn update_annotation_sql(id: &str, updates_json: &str) -> (r: String)
    ensures
        r@ == "UPDATE "@ + id@ + " MERGE "@ + updates_json@ + " SET updated_at = time::now()"@,
{
    let mut sql = String::new();
    push_str(&mut sql, "UPDATE ");
    push_str(&mut sql, id);
    push_str(&mut sql, " MERGE ");
    push_str(&mut sql, updates_json);
    push_str(&mut sql, " SET updated_at = time::now()");
    sql
}

/// Deletes an annotation.
pub fn delete_annotation_sql(id: &str) -> (r: String)
    ensures
        r@ == "DELETE "@ + id@,
{
    let mut sql = String::new();
    push_str(&mut sql, "DELETE ");
    push_str(&mut sql, id);
    sql
}

/// Marks an annotation resolved now.
pub fn resolve_annotation_sql(id: &str) -> (r: String)
    ensures
        r@ == "UPDATE "@ + id@
            + " SET status = 'Resolved', resolved_at = time::now(), updated_at = time::now()"@,
{
    let mut sql = String::new();
    push_str(&mut sql, "UPDATE ");
    push_str(&mut sql, id);
    push_str(&mut sql, " SET status = 'Resolved', resolved_at = time::now(), updated_at = time::now()");
    sql
}

/// The annotations whose `field` equals `value`, with an optional limit.
fn list_by_field_sql(field: &str, value: &str, limit: Option<usize>) -> (r: String)
    ensures
        r@ == "SELECT * FROM annotation WHERE "@ + eq_condition(field@, value@) + limit_text(limit),
{
    let mut sql = String::new();
    push_str(&mut sql, "SELECT * FROM annotation WHERE ");
    push_str(&mut sql, field);
    push_str(&mut sql, " = '");
    push_str(&mut sql, value);
    push_str(&mut sql, "'");
    push_limit(&mut sql, limit);
    sql
}

/// The annotations of one type.
pub fn list_annotations_by_type_sql(annotation_type: &str, limit: Option<usize>) -> (r: String)
    ensures
        r@ == "SELECT * FROM annotation WHERE "@ + eq_condition("annotation_type"@, annotation_type@)
            + limit_text(limit),
{
    list_by_field_sql("annotation_type", annotation_type, limit)
}

/// The annotations created by one user.
pub fn list_annotations_by_creator_sql(creator: &str, limit: Option<usize>) -> (r: String)
    ensures
        r@ == "SELECT * FROM annotation WHERE "@ + eq_condition("created_by"@, creator@) + limit_text(
            limit,
        ),
{
    list_by_field_sql("created_by", creator, limit)
}

/// The annotations assigned to one user.
pub fn list_annotations_by_assignee_sql(assignee: &str, limit: Option<usize>) -> (r: String)
    ensures
        r@ == "SELECT * FROM annotation WHERE "@ + eq_condition("assigned_to"@, assignee@)
            + limit_text(limit),
{
    list_by_field_sql("assigned_to", assignee, limit)
}

/// The annotations attached to one plant object.
pub fn list_annotations_by_associated_object_sql(refno: u64, limit: Option<usize>) -> (r: String)
    ensures
        r@ == "SELECT * FROM annotation WHERE "@ + decimal(refno as nat) + " IN associated_refnos"@
            + limit_text(limit),
{
    let mut sql = String::new();
    push_str(&mut sql, "SELECT * FROM annotation WHERE ");
    push_decimal(&mut sql, refno);
    push_str(&mut sql, " IN associated_refnos");
    push_limit(&mut sql, limit);
    sql
}

/// The annotations of one priority, newest first.
pub fn list_annotations_by_priority_sql(priority: &str, limit: Option<usize>) -> (r: String)
    ensures
        r@ == "SELECT * FROM annotation WHERE priority = '"@ + priority@
            + "' ORDER BY created_at DESC"@ + limit_text(limit),
{
    let mut sql = String::new();
    push_str(&mut sql, "SELECT * FROM annotation WHERE priority = '");
    push_str(&mut sql, priority);
    push_str(&mut sql, "' ORDER BY created_at DESC");
    push_limit(&mut sql, limit);
    sql
}

/// The annotations created within a time range, newest first.
pub fn list_annotations_by_time_range_sql(start_time: &str, end_time: &str, limit: Option<usize>) -> (r: String)
    ensures
        r@ == "SELECT * FROM annotation WHERE created_at >= '"@ + start_time@
            + "' AND created_at <= '"@ + end_time@ + "' ORDER BY created_at DESC"@ + limit_text(
            limit,
        ),
{
    let mut sql = String::new();
    push_str(&mut sql, "SELECT * FROM annotation WHERE created_at >= '");
    push_str(&mut sql, start_time);
    push_str(&mut sql, "' AND created_at <= '");
    push_str(&mut sql, end_time);
    push_str(&mut sql, "' ORDER BY created_at DESC");
    push_limit(&mut sql, limit);
    sql
}

} // verus!
