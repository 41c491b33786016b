//! Records written to the geometry, measurement and annotation tables, and
//! the SurrealQL `CREATE` statements that store them.
//!
//! Values that the database receives in a rendered form (coordinates,
//! JSON documents, timestamps) are held as their text.
use vstd::prelude::*;
use crate::text::{decimal, join_with, owned, push_decimal, push_str, replace_all, str_replace};

verus! {

/// The indentation of each assignment line of a `CREATE` statement.
pub open spec fn indent() -> Seq<char> {
    "                "@
}

/// One assignment line `name = value,` followed by a line break.
pub open spec fn field_line(name: Seq<char>, value: Seq<char>) -> Seq<char> {
    indent() + name + " = "@ + value + ",\n"@
}

/// The closing assignment line `name = value;`.
pub open spec fn last_line(name: Seq<char>, value: Seq<char>) -> Seq<char> {
    indent() + name + " = "@ + value + ";"@
}

/// `'text'`.
pub open spec fn quoted(t: Seq<char>) -> Seq<char> {
    "'"@ + t + "'"@
}

/// A text with every `'` doubled, as SurrealQL string literals need.
pub open spec fn escape_quotes(t: Seq<char>) -> Seq<char> {
    replace_all(t, "'"@, "''"@)
}

/// `'text'` for a present text, `NONE` otherwise.
pub open spec fn quoted_or_none(v: Option<String>) -> Seq<char> {
    match v {
        Some(s) => quoted(s@),
        None => "NONE"@,
    }
}

/// The text itself when present, `NONE` otherwise.
pub open spec fn raw_or_none(v: Option<String>) -> Seq<char> {
    match v {
        Some(s) => s@,
        None => "NONE"@,
    }
}

/// `d'timestamp'` for a present timestamp, `fallback` otherwise.
pub open spec fn time_or(v: Option<String>, fallback: Seq<char>) -> Seq<char> {
    match v {
        Some(s) => "d'"@ + s@ + "'"@,
        None => fallback,
    }
}

/// `{ d: json }` for a present transform document, `NONE` otherwise.
pub open spec fn trans_or_none(v: Option<String>) -> Seq<char> {
    match v {
        Some(s) => "{ d: "@ + s@ + " }"@,
        None => "NONE"@,
    }
}

/// `true` or `false`.
pub open spec fn bool_text(b: bool) -> Seq<char> {
    if b {
        "true"@
    } else {
        "false"@
    }
}

/// A point given by the texts of its coordinates.
pub struct PointText {
    pub x: String,
    pub y: String,
    pub z: String,
}

/// `{ x: X, y: Y, z: Z }`.
pub open spec fn point_text(p: PointText) -> Seq<char> {
    "{ x: "@ + p.x@ + ", y: "@ + p.y@ + ", z: "@ + p.z@ + " }"@
}

fn push_field(sql: &mut String, name: &str, value: &str)
    ensures
        final(sql)@ == old(sql)@ + field_line(name@, value@),
{
    proof {
        reveal_strlit("                ");
    }
    push_str(sql, "                ");
    push_str(sql, name);
    push_str(sql, " = ");
    push_str(sql, value);
    push_str(sql, ",\n");
    assert(final(sql)@ =~= old(sql)@ + field_line(name@, value@));
}

fn push_last(sql: &mut String, name: &str, value: &str)
    ensures
        final(sql)@ == old(sql)@ + last_line(name@, value@),
{
    push_str(sql, "                ");
    push_str(sql, name);
    push_str(sql, " = ");
    push_str(sql, value);
    push_str(sql, ";");
    assert(final(sql)@ =~= old(sql)@ + last_line(name@, value@));
}

/// `'text'`.
fn quote(t: &str) -> (r: String)
    ensures
        r@ == quoted(t@),
{
    let mut r = String::new();
    push_str(&mut r, "'");
    push_str(&mut r, t);
    push_str(&mut r, "'");
    r
}

/// `text` with quotes doubled.
fn escape(t: &str) -> (r: String)
    ensures
        r@ == escape_quotes(t@),
{
    proof {
        reveal_strlit("'");
    }
    str_replace(t, "'", "''")
}

fn quote_or_none(v: &Option<String>) -> (r: String)
    ensures
        r@ == quoted_or_none(*v),
{
    match v {
        Some(s) => quote(s.as_str()),
        None => owned("NONE"),
    }
}

fn raw_or_none_exec(v: &Option<String>) -> (r: String)
    ensures
        r@ == raw_or_none(*v),
{
    match v {
        Some(s) => owned(s.as_str()),
        None => owned("NONE"),
    }
}

fn time_or_exec(v: &Option<String>, fallback: &str) -> (r: String)
    ensures
        r@ == time_or(*v, fallback@),
{
    match v {
        Some(s) => {
            let mut r = String::new();
            push_str(&mut r, "d'");
            push_str(&mut r, s.as_str());
            push_str(&mut r, "'");
            r
        },
        None => owned(fallback),
    }
}

fn trans_or_none_exec(v: &Option<String>) -> (r: String)
    ensures
        r@ == trans_or_none(*v),
{
    match v {
        Some(s) => {
            let mut r = String::new();
            push_str(&mut r, "{ d: ");
            push_str(&mut r, s.as_str());
            push_str(&mut r, " }");
            r
        },
        None => owned("NONE"),
    }
}

fn bool_str(b: bool) -> (r: &'static str)
    ensures
        r@ == bool_text(b),
{
    if b {
        "true"
    } else {
        "false"
    }
}

fn point_string(p: &PointText) -> (r: String)
    ensures
        r@ == point_text(*p),
{
    let mut r = String::new();
    push_str(&mut r, "{ x: ");
    push_str(&mut r, p.x.as_str());
    push_str(&mut r, ", y: ");
    push_str(&mut r, p.y.as_str());
    push_str(&mut r, ", z: ");
    push_str(&mut r, p.z.as_str());
    push_str(&mut r, " }");
    r
}

/// The points, rendered and separated by `, `.
pub open spec fn points_text(points: Seq<PointText>) -> Seq<char> {
    join_with(points.map_values(|p: PointText| point_text(p)), ", "@)
}

fn points_string(points: &Vec<PointText>) -> (r: String)
    ensures
        r@ == points_text(points@),
{
    let ghost items = points@.map_values(|p: PointText| point_text(p));
    let mut r = String::new();
    let mut i: usize = 0;
    while i < points.len()
        invariant
            i <= points.len(),
            items == points@.map_values(|p: PointText| point_text(p)),
            r@ == join_with(items.take(i as int), ", "@),
        decreases points.len() - i,
    {
        assert(items.take(i + 1).drop_last() =~= items.take(i as int));
        if i > 0 {
            push_str(&mut r, ", ");
        }
        let p = point_string(&points[i]);
        push_str(&mut r, p.as_str());
        i = i + 1;
    }
    assert(items.take(points.len() as int) =~= items);
    r
}

/// `[a, b, ...]` of reference numbers, or `NONE`.
pub open spec fn refno_list_or_none(v: Option<Vec<u64>>) -> Seq<char> {
    match v {
        Some(list) => "["@ + join_with(list@.map_values(|r: u64| decimal(r as nat)), ", "@) + "]"@,
        None => "NONE"@,
    }
}

fn refno_list_exec(v: &Option<Vec<u64>>) -> (r: String)
    ensures
        r@ == refno_list_or_none(*v),
{
    match v {
        Some(list) => {
            let ghost items = list@.map_values(|r: u64| decimal(r as nat));
            let mut r = String::new();
            push_str(&mut r, "[");
            let ghost start = r@;
            let mut i: usize = 0;
            while i < list.len()
                invariant
                    i <= list.len(),
                    start == "["@,
                    items == list@.map_values(|r: u64| decimal(r as nat)),
                    r@ == start + join_with(items.take(i as int), ", "@),
                decreases list.len() - i,
            {
                assert(items.take(i + 1).drop_last() =~= items.take(i as int));
                let ghost before = r@;
                if i > 0 {
                    push_str(&mut r, ", ");
                }
                push_decimal(&mut r, list[i]);
                assert(r@ =~= start + join_with(items.take(i + 1), ", "@));
                i = i + 1;
            }
            assert(items.take(list.len() as int) =~= items);
            push_str(&mut r, "]");
            r
        },
        None => owned("NONE"),
    }
}

/// A lower-case hexadecimal digit.
pub open spec fn is_lower_hex(c: char) -> bool {
    ('0' <= c && c <= '9') || ('a' <= c && c <= 'f')
}

/// The hyphenated lower-case text of a version-4 UUID: 36 characters,
/// hyphens at places 8, 13, 18 and 23, hexadecimal digits elsewhere, the
/// version digit `4` at place 14 and a variant digit `8`, `9`, `a` or `b`
/// at place 19.
pub open spec fn is_uuid_v4_text(s: Seq<char>) -> bool {
    &&& s.len() == 36
    &&& forall|i: int|
        0 <= i < 36 ==> if i == 8 || i == 13 || i == 18 || i == 23 {
            #[trigger] s[i] == '-'
        } else {
            is_lower_hex(s[i])
        }
    &&& s[14] == '4'
    &&& (s[19] == '8' || s[19] == '9' || s[19] == 'a' || s[19] == 'b')
}

/// A text that identifies a new record: a random version-4 UUID.
///
/// Calls `uuid::Uuid::new_v4` and renders it with its `Display` form (the
/// hyphenated lower-case hexadecimal form, with the version and variant
/// bits that `new_v4` sets). The digits are random; only their shape is
/// claimed.
#[verifier::external_body]
fn fresh_uuid_text() -> (r: String)
    ensures
        is_uuid_v4_text(r@),
{
    uuid::Uuid::new_v4().to_string()
}

/// The current UTC time as `YYYY-MM-DDTHH:MM:SS`.
///
/// Calls `chrono::Utc::now`, takes the naive UTC time and formats it with
/// `%Y-%m-%dT%H:%M:%S`. The value depends on the clock, and its length too:
/// a year past 9999 is written with a sign and more digits, and nothing
/// bounds the clock. Nothing is claimed of it.
#[verifier::external_body]
fn utc_now_text() -> String {
    chrono::Utc::now().naive_utc().format("%Y-%m-%dT%H:%M:%S").to_string()
}

/// A measurement taken in the 3D view.
pub struct Measurement {
    pub id: String,
    pub name: String,
    pub measurement_type: String,
    pub points: Vec<PointText>,
    /// The measured value, as its text.
    pub value: Option<String>,
    pub unit: Option<String>,
    pub priority: Option<String>,
    pub status: Option<String>,
    pub project_id: Option<String>,
    pub scene_id: Option<String>,
    pub created_by: Option<String>,
    /// `YYYY-MM-DDTHH:MM:SS`.
    pub created_at: Option<String>,
    /// `YYYY-MM-DDTHH:MM:SS`.
    pub updated_at: Option<String>,
    pub notes: Option<String>,
    /// The metadata document, as JSON text.
    pub metadata: Option<String>,
}

/// The statement that stores a measurement.
pub open spec fn measurement_surql(m: Measurement) -> Seq<char> {
    "CREATE "@ + m.id@ + " SET\n"@ + field_line("name"@, quoted(escape_quotes(m.name@)))
        + field_line("measurement_type"@, quoted(m.measurement_type@)) + field_line(
        "points"@,
        "["@ + points_text(m.points@) + "]"@,
    ) + field_line("value"@, raw_or_none(m.value)) + field_line(
        "unit"@,
        quoted_or_none(m.unit),
    ) + field_line("priority"@, quoted_or_none(m.priority)) + field_line(
        "status"@,
        quoted_or_none(m.status),
    ) + field_line("project_id"@, quoted_or_none(m.project_id)) + field_line(
        "scene_id"@,
        quoted_or_none(m.scene_id),
    ) + field_line("created_by"@, quoted_or_none(m.created_by)) + field_line(
        "created_at"@,
        time_or(m.created_at, "time::now()"@),
    ) + field_line("updated_at"@, time_or(m.updated_at, "time::now()"@)) + field_line(
        "notes"@,
        quoted_or_none(m.notes),
    ) + last_line("metadata"@, raw_or_none(m.metadata))
}

impl Measurement {
    /// A new draft measurement of medium priority with a fresh
    /// `measurement:<uuid>` id, created and updated now.
    pub fn new(name: String, measurement_type: String, points: Vec<PointText>) -> (r: Self)
        ensures
            r.name == name,
            r.measurement_type == measurement_type,
            r.points == points,
            r.value is None,
            r.unit is None,
            r.priority matches Some(p) && p@ == "Medium"@,
            r.status matches Some(s) && s@ == "Draft"@,
            r.project_id is None,
            r.scene_id is None,
            r.created_by is None,
            r.created_at is Some,
            r.updated_at is Some,
            r.notes is None,
            r.metadata is None,
            exists|u: Seq<char>| is_uuid_v4_text(u) && r.id@ == "measurement:"@ + u,
    {
        let mut id = owned("measurement:");
        let suffix = fresh_uuid_text();
        push_str(&mut id, suffix.as_str());
        Measurement {
            id,
            name,
            measurement_type,
            points,
            value: None,
            unit: None,
            priority: Some(owned("Medium")),
            status: Some(owned("Draft")),
            project_id: None,
            scene_id: None,
            created_by: None,
            created_at: Some(utc_now_text()),
            updated_at: Some(utc_now_text()),
            notes: None,
            metadata: None,
        }
    }

    /// Sets the measured value text.
    pub fn with_value(self, value: String) -> (r: Self)
        ensures
            r == (Measurement { value: Some(value), ..self }),
    {
        Measurement { value: Some(value), ..self }
    }

    /// Sets the unit.
    pub fn with_unit(self, unit: String) -> (r: Self)
        ensures
            r == (Measurement { unit: Some(unit), ..self }),
    {
        Measurement { unit: Some(unit), ..self }
    }

    /// Sets the priority.
    pub fn with_priority(self, priority: String) -> (r: Self)
        ensures
            r == (Measurement { priority: Some(priority), ..self }),
    {
        Measurement { priority: Some(priority), ..self }
    }

    /// Sets the status.
    pub fn with_status(self, status: String) -> (r: Self)
        ensures
            r == (Measurement { status: Some(status), ..self }),
    {
        Measurement { status: Some(status), ..self }
    }

    /// Sets the project.
    pub fn with_project(self, project_id: String) -> (r: Self)
        ensures
            r == (Measurement { project_id: Some(project_id), ..self }),
    {
        Measurement { project_id: Some(project_id), ..self }
    }

    /// Sets the scene.
    pub fn with_scene(self, scene_id: String) -> (r: Self)
        ensures
            r == (Measurement { scene_id: Some(scene_id), ..self }),
    {
        Measurement { scene_id: Some(scene_id), ..self }
    }

    /// Sets the creator.
    pub fn with_created_by(self, created_by: String) -> (r: Self)
        ensures
            r == (Measurement { created_by: Some(created_by), ..self }),
    {
        Measurement { created_by: Some(created_by), ..self }
    }

    /// Sets the notes.
    pub fn with_notes(self, notes: String) -> (r: Self)
        ensures
            r == (Measurement { notes: Some(notes), ..self }),
    {
        Measurement { notes: Some(notes), ..self }
    }

    /// Sets the metadata document text.
    pub fn with_metadata(self, metadata: String) -> (r: Self)
        ensures
            r == (Measurement { metadata: Some(metadata), ..self }),
    {
        Measurement { metadata: Some(metadata), ..self }
    }

    /// The statement that stores the measurement; quotes in the name are
    /// doubled.
    pub fn to_surql(&self) -> (r: String)
        ensures
            r@ == measurement_surql(*self),
    {
        let mut sql = String::new();
        push_str(&mut sql, "CREATE ");
        push_str(&mut sql, self.id.as_str());
        push_str(&mut sql, " SET\n");
        let name = quote(escape(self.name.as_str()).as_str());
        push_field(&mut sql, "name", name.as_str());
        let mt = quote(self.measurement_type.as_str());
        push_field(&mut sql, "measurement_type", mt.as_str());
        let mut pts = owned("[");
        let inner = points_string(&self.points);
        push_str(&mut pts, inner.as_str());
        push_str(&mut pts, "]");
        push_field(&mut sql, "points", pts.as_str());
        push_field(&mut sql, "value", raw_or_none_exec(&self.value).as_str());
        push_field(&mut sql, "unit", quote_or_none(&self.unit).as_str());
        push_field(&mut sql, "priority", quote_or_none(&self.priority).as_str());
        push_field(&mut sql, "status", quote_or_none(&self.status).as_str());
        push_field(&mut sql, "project_id", quote_or_none(&self.project_id).as_str());
        push_field(&mut sql, "scene_id", quote_or_none(&self.scene_id).as_str());
        push_field(&mut sql, "created_by", quote_or_none(&self.created_by).as_str());
        push_field(&mut sql, "created_at", time_or_exec(&self.created_at, "time::now()").as_str());
        push_field(&mut sql, "updated_at", time_or_exec(&self.updated_at, "time::now()").as_str());
        push_field(&mut sql, "notes", quote_or_none(&self.notes).as_str());
        push_last(&mut sql, "metadata", raw_or_none_exec(&self.metadata).as_str());
        assert(sql@ =~= measurement_surql(*self));
        sql
    }
}

/// A review annotation placed in the 3D view.
pub struct Annotation {
    pub id: String,
    pub title: String,
    pub description: String,
    pub annotation_type: String,
    pub position: Option<PointText>,
    pub color: Option<String>,
    pub priority: Option<String>,
    pub status: Option<String>,
    /// The drawing style document, as JSON text.
    pub style: Option<String>,
    pub associated_refnos: Option<Vec<u64>>,
    pub project_id: Option<String>,
    pub scene_id: Option<String>,
    pub created_by: Option<String>,
    pub assigned_to: Option<String>,
    /// `YYYY-MM-DDTHH:MM:SS`.
    pub created_at: Option<String>,
    /// `YYYY-MM-DDTHH:MM:SS`.
    pub updated_at: Option<String>,
    /// `YYYY-MM-DDTHH:MM:SS`.
    pub resolved_at: Option<String>,
    /// The metadata document, as JSON text.
    pub metadata: Option<String>,
}

/// The position text or `NONE`.
pub open spec fn position_or_none(p: Option<PointText>) -> Seq<char> {
    match p {
        Some(pt) => point_text(pt),
        None => "NONE"@,
    }
}

/// The statement that stores an annotation.
pub open spec fn annotation_surql(a: Annotation) -> Seq<char> {
    "CREATE "@ + a.id@ + " SET\n"@ + field_line("title"@, quoted(escape_quotes(a.title@)))
        + field_line("description"@, quoted(escape_quotes(a.description@))) + field_line(
        "annotation_type"@,
        quoted(a.annotation_type@),
    ) + field_line("position"@, position_or_none(a.position)) + field_line(
        "color"@,
        quoted_or_none(a.color),
    ) + field_line("priority"@, quoted_or_none(a.priority)) + field_line(
        "status"@,
        quoted_or_none(a.status),
    ) + field_line("style"@, raw_or_none(a.style)) + field_line(
        "associated_refnos"@,
        refno_list_or_none(a.associated_refnos),
    ) + field_line("project_id"@, quoted_or_none(a.project_id)) + field_line(
        "scene_id"@,
        quoted_or_none(a.scene_id),
    ) + field_line("created_by"@, quoted_or_none(a.created_by)) + field_line(
        "assigned_to"@,
        quoted_or_none(a.assigned_to),
    ) + field_line("created_at"@, time_or(a.created_at, "time::now()"@)) + field_line(
        "updated_at"@,
        time_or(a.updated_at, "time::now()"@),
    ) + field_line("resolved_at"@, time_or(a.resolved_at, "NONE"@)) + last_line(
        "metadata"@,
        raw_or_none(a.metadata),
    )
}

impl Annotation {
    /// A new draft annotation of medium priority, coloured `#1E90FF`, with a
    /// fresh `annotation:<uuid>` id, created and updated now.
    pub fn new(title: String, description: String, annotation_type: String) -> (r: Self)
        ensures
            r.title == title,
            r.description == description,
            r.annotation_type == annotation_type,
            r.position is None,
            r.color matches Some(c) && c@ == "#1E90FF"@,
            r.priority matches Some(p) && p@ == "Medium"@,
            r.status matches Some(s) && s@ == "Draft"@,
            r.style is None,
            r.associated_refnos is None,
            r.project_id is None,
            r.scene_id is None,
            r.created_by is None,
            r.assigned_to is None,
            r.created_at is Some,
            r.updated_at is Some,
            r.resolved_at is None,
            r.metadata is None,
            exists|u: Seq<char>| is_uuid_v4_text(u) && r.id@ == "annotation:"@ + u,
    {
        let mut id = owned("annotation:");
        let suffix = fresh_uuid_text();
        push_str(&mut id, suffix.as_str());
        Annotation {
            id,
            title,
            description,
            annotation_type,
            position: None,
            color: Some(owned("#1E90FF")),
            priority: Some(owned("Medium")),
            status: Some(owned("Draft")),
            style: None,
            associated_refnos: None,
            project_id: None,
            scene_id: None,
            created_by: None,
            assigned_to: None,
            created_at: Some(utc_now_text()),
            updated_at: Some(utc_now_text()),
            resolved_at: None,
            metadata: None,
        }
    }

    /// Sets the position.
    pub fn with_position(self, position: PointText) -> (r: Self)
        ensures
            r == (Annotation { position: Some(position), ..self }),
    {
        Annotation { position: Some(position), ..self }
    }

    /// Sets the colour.
    pub fn with_color(self, color: String) -> (r: Self)
        ensures
            r == (Annotation { color: Some(color), ..self }),
    {
        Annotation { color: Some(color), ..self }
    }

    /// Sets the priority.
    pub fn with_priority(self, priority: String) -> (r: Self)
        ensures
            r == (Annotation { priority: Some(priority), ..self }),
    {
        Annotation { priority: Some(priority), ..self }
    }

    /// Sets the status.
    pub fn with_status(self, status: String) -> (r: Self)
        ensures
            r == (Annotation { status: Some(status), ..self }),
    {
        Annotation { status: Some(status), ..self }
    }

    /// Sets the style document text.
    pub fn with_style(self, style: String) -> (r: Self)
        ensures
            r == (Annotation { style: Some(style), ..self }),
    {
        Annotation { style: Some(style), ..self }
    }

    /// Sets the associated plant objects.
    pub fn with_associated_objects(self, refnos: Vec<u64>) -> (r: Self)
        ensures
            r == (Annotation { associated_refnos: Some(refnos), ..self }),
    {
        Annotation { associated_refnos: Some(refnos), ..self }
    }

    /// Sets the project.
    pub fn with_project(self, project_id: String) -> (r: Self)
        ensures
            r == (Annotation { project_id: Some(project_id), ..self }),
    {
        Annotation { project_id: Some(project_id), ..self }
    }

    /// Sets the scene.
    pub fn with_scene(self, scene_id: String) -> (r: Self)
        ensures
            r == (Annotation { scene_id: Some(scene_id), ..self }),
    {
        Annotation { scene_id: Some(scene_id), ..self }
    }

    /// Sets the creator.
    pub fn with_created_by(self, created_by: String) -> (r: Self)
        ensures
            r == (Annotation { created_by: Some(created_by), ..self }),
    {
        Annotation { created_by: Some(created_by), ..self }
    }

    /// Sets the assignee.
    pub fn with_assigned_to(self, assigned_to: String) -> (r: Self)
        ensures
            r == (Annotation { assigned_to: Some(assigned_to), ..self }),
    {
        Annotation { assigned_to: Some(assigned_to), ..self }
    }

    /// Sets the metadata document text.
    pub fn with_metadata(self, metadata: String) -> (r: Self)
        ensures
            r == (Annotation { metadata: Some(metadata), ..self }),
    {
        Annotation { metadata: Some(metadata), ..self }
    }

    /// The statement that stores the annotation; quotes in the title and the
    /// description are doubled.
    pub fn to_surql(&self) -> (r: String)
        ensures
            r@ == annotation_surql(*self),
    {
        let mut sql = String::new();
        push_str(&mut sql, "CREATE ");
        push_str(&mut sql, self.id.as_str());
        push_str(&mut sql, " SET\n");
        push_field(&mut sql, "title", quote(escape(self.title.as_str()).as_str()).as_str());
        push_field(
            &mut sql,
            "description",
            quote(escape(self.description.as_str()).as_str()).as_str(),
        );
        push_field(&mut sql, "annotation_type", quote(self.annotation_type.as_str()).as_str());
        let position = match &self.position {
            Some(p) => point_string(p),
            None => owned("NONE"),
        };
        push_field(&mut sql, "position", position.as_str());
        push_field(&mut sql, "color", quote_or_none(&self.color).as_str());
        push_field(&mut sql, "priority", quote_or_none(&self.priority).as_str());
        push_field(&mut sql, "status", quote_or_none(&self.status).as_str());
        push_field(&mut sql, "style", raw_or_none_exec(&self.style).as_str());
        push_field(&mut sql, "associated_refnos", refno_list_exec(&self.associated_refnos).as_str());
        push_field(&mut sql, "project_id", quote_or_none(&self.project_id).as_str());
        push_field(&mut sql, "scene_id", quote_or_none(&self.scene_id).as_str());
        push_field(&mut sql, "created_by", quote_or_none(&self.created_by).as_str());
        push_field(&mut sql, "assigned_to", quote_or_none(&self.assigned_to).as_str());
        push_field(&mut sql, "created_at", time_or_exec(&self.created_at, "time::now()").as_str());
        push_field(&mut sql, "updated_at", time_or_exec(&self.updated_at, "time::now()").as_str());
        push_field(&mut sql, "resolved_at", time_or_exec(&self.resolved_at, "NONE").as_str());
        push_last(&mut sql, "metadata", raw_or_none_exec(&self.metadata).as_str());
        assert(sql@ =~= annotation_surql(*self));
        sql
    }
}

/// A geometry instance: its parameters and how it is drawn.
pub struct InstGeo {
    pub id: String,
    /// The geometry parameter document, as JSON text.
    pub param: String,
    pub meshed: bool,
    pub visible: bool,
    /// The transform document, as JSON text.
    pub trans: Option<String>,
    pub geo_type: String,
    /// `YYYY-MM-DDTHH:MM:SS`.
    pub created_at: Option<String>,
    /// `YYYY-MM-DDTHH:MM:SS`.
    pub updated_at: Option<String>,
    /// A unit mesh scaled by its transform, rather than by its vertices.
    pub unit_flag: bool,
}

/// The statement that stores a geometry instance.
pub open spec fn inst_geo_surql(g: InstGeo) -> Seq<char> {
    "CREATE inst_geo:"@ + g.id@ + " SET\n"@ + field_line("param"@, g.param@) + field_line(
        "meshed"@,
        bool_text(g.meshed),
    ) + field_line("visible"@, bool_text(g.visible)) + field_line(
        "trans"@,
        trans_or_none(g.trans),
    ) + field_line("geo_type"@, quoted(g.geo_type@)) + field_line(
        "created_at"@,
        time_or(g.created_at, "time::now()"@),
    ) + field_line("updated_at"@, time_or(g.updated_at, "time::now()"@)) + last_line(
        "unit_flag"@,
        bool_text(g.unit_flag),
    )
}

impl InstGeo {
    /// A geometry instance without transform or timestamps.
    pub fn new(
        id: String,
        param: String,
        meshed: bool,
        visible: bool,
        geo_type: String,
        unit_flag: bool,
    ) -> (r: Self)
        ensures
            r == (InstGeo {
                id,
                param,
                meshed,
                visible,
                trans: None,
                geo_type,
                created_at: None,
                updated_at: None,
                unit_flag,
            }),
    {
        InstGeo {
            id,
            param,
            meshed,
            visible,
            trans: None,
            geo_type,
            created_at: None,
            updated_at: None,
            unit_flag,
        }
    }

    /// Sets the transform document text.
    pub fn with_trans(self, trans: String) -> (r: Self)
        ensures
            r == (InstGeo { trans: Some(trans), ..self }),
    {
        InstGeo { trans: Some(trans), ..self }
    }

    /// Sets the creation time.
    pub fn with_created_at(self, created_at: String) -> (r: Self)
        ensures
            r == (InstGeo { created_at: Some(created_at), ..self }),
    {
        InstGeo { created_at: Some(created_at), ..self }
    }

    /// Sets the update time.
    pub fn with_updated_at(self, updated_at: String) -> (r: Self)
        ensures
            r == (InstGeo { updated_at: Some(updated_at), ..self }),
    {
        InstGeo { updated_at: Some(updated_at), ..self }
    }

    /// The statement that stores the geometry instance.
    pub fn to_surql(&self) -> (r: String)
        ensures
            r@ == inst_geo_surql(*self),
    {
        let mut sql = String::new();
        push_str(&mut sql, "CREATE inst_geo:");
        push_str(&mut sql, self.id.as_str());
        push_str(&mut sql, " SET\n");
        push_field(&mut sql, "param", self.param.as_str());
        push_field(&mut sql, "meshed", bool_str(self.meshed));
        push_field(&mut sql, "visible", bool_str(self.visible));
        push_field(&mut sql, "trans", trans_or_none_exec(&self.trans).as_str());
        push_field(&mut sql, "geo_type", quote(self.geo_type.as_str()).as_str());
        push_field(&mut sql, "created_at", time_or_exec(&self.created_at, "time::now()").as_str());
        push_field(&mut sql, "updated_at", time_or_exec(&self.updated_at, "time::now()").as_str());
        push_last(&mut sql, "unit_flag", bool_str(self.unit_flag));
        assert(sql@ =~= inst_geo_surql(*self));
        sql
    }
}

/// A link from a geometry instance to the geometry data it draws.
pub struct GeoRelate {
    pub id: String,
    pub input: String,
    pub out: String,
    /// The transform document, as JSON text.
    pub trans: Option<String>,
    pub visible: bool,
    pub meshed: bool,
    pub geo_type: String,
    pub geom_refno: Option<String>,
}

/// The statement that stores a geometry link.
pub open spec fn geo_relate_surql(g: GeoRelate) -> Seq<char> {
    "CREATE geo_relate:"@ + g.id@ + " SET\n"@ + field_line("in"@, g.input@) + field_line(
        "out"@,
        g.out@,
    ) + field_line("trans"@, trans_or_none(g.trans)) + field_line(
        "visible"@,
        bool_text(g.visible),
    ) + field_line("meshed"@, bool_text(g.meshed)) + field_line("geo_type"@, quoted(g.geo_type@))
        + last_line("geom_refno"@, quoted_or_none(g.geom_refno))
}

impl GeoRelate {
    /// A link without transform or geometry reference number.
    pub fn new(
        id: String,
        input: String,
        out: String,
        visible: bool,
        meshed: bool,
        geo_type: String,
    ) -> (r: Self)
        ensures
            r == (GeoRelate {
                id,
                input,
                out,
                trans: None,
                visible,
                meshed,
                geo_type,
                geom_refno: None,
            }),
    {
        GeoRelate { id, input, out, trans: None, visible, meshed, geo_type, geom_refno: None }
    }

    /// Sets the transform document text.
    pub fn with_trans(self, trans: String) -> (r: Self)
        ensures
            r == (GeoRelate { trans: Some(trans), ..self }),
    {
        GeoRelate { trans: Some(trans), ..self }
    }

    /// Sets the geometry reference number.
    pub fn with_geom_refno(self, geom_refno: String) -> (r: Self)
        ensures
            r == (GeoRelate { geom_refno: Some(geom_refno), ..self }),
    {
        GeoRelate { geom_refno: Some(geom_refno), ..self }
    }

    /// The statement that stores the link.
    pub fn to_surql(&self) -> (r: String)
        ensures
            r@ == geo_relate_surql(*self),
    {
        let mut sql = String::new();
        push_str(&mut sql, "CREATE geo_relate:");
        push_str(&mut sql, self.id.as_str());
        push_str(&mut sql, " SET\n");
        push_field(&mut sql, "in", self.input.as_str());
        push_field(&mut sql, "out", self.out.as_str());
        push_field(&mut sql, "trans", trans_or_none_exec(&self.trans).as_str());
        push_field(&mut sql, "visible", bool_str(self.visible));
        push_field(&mut sql, "meshed", bool_str(self.meshed));
        push_field(&mut sql, "geo_type", quote(self.geo_type.as_str()).as_str());
        push_last(&mut sql, "geom_refno", quote_or_none(&self.geom_refno).as_str());
        assert(sql@ =~= geo_relate_surql(*self));
        sql
    }
}

} // verus!
