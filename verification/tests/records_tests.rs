use aios_surreal::annotation_query::{
    count_annotations_sql, delete_annotation_sql, get_annotation_by_id_sql,
    list_annotations_by_associated_object_sql, list_annotations_by_assignee_sql,
    list_annotations_by_creator_sql, list_annotations_by_priority_sql,
    list_annotations_by_time_range_sql, list_annotations_by_type_sql, list_annotations_sql,
    resolve_annotation_sql, update_annotation_sql,
};
use aios_surreal::inst_structs::{Annotation, GeoRelate, InstGeo, Measurement, PointText};
use aios_surreal::measurement_query::{
    count_measurements_sql, delete_measurement_sql, get_measurement_by_id_sql,
    list_measurements_by_creator_sql, list_measurements_by_status_sql,
    list_measurements_by_type_sql, list_measurements_sql, update_measurement_sql,
};

fn pt(x: f32, y: f32, z: f32) -> PointText {
    PointText { x: x.to_string(), y: y.to_string(), z: z.to_string() }
}

#[test]
fn test_inst_geo_creation() {
    let param = "{\"height\":2.0,\"radius\":1.0,\"type\":\"cylinder\"}".to_string();
    let inst_geo = InstGeo::new("geo_123".to_string(), param.clone(), true, true, "Pos".to_string(), true);

    assert_eq!(inst_geo.id, "geo_123");
    assert_eq!(inst_geo.param, param);
    assert_eq!(inst_geo.meshed, true);
    assert_eq!(inst_geo.visible, true);
    assert_eq!(inst_geo.geo_type, "Pos");
    assert_eq!(inst_geo.unit_flag, true);
}

#[test]
fn test_inst_geo_to_surql() {
    let param = "{\"height\":2.0,\"radius\":1.0,\"type\":\"cylinder\"}".to_string();
    let inst_geo = InstGeo::new("geo_123".to_string(), param, true, true, "Pos".to_string(), true);

    let sql = inst_geo.to_surql();
    assert!(sql.contains("CREATE inst_geo:geo_123"));
    assert!(sql.contains("meshed = true"));
    assert!(sql.contains("visible = true"));
    assert!(sql.contains("geo_type = 'Pos'"));
    assert!(sql.contains("unit_flag = true"));
}

#[test]
fn test_geo_relate_creation() {
    let geo_relate = GeoRelate::new(
        "relate_123".to_string(),
        "inst_456".to_string(),
        "geo_789".to_string(),
        true,
        true,
        "Pos".to_string(),
    );

    assert_eq!(geo_relate.id, "relate_123");
    assert_eq!(geo_relate.input, "inst_456");
    assert_eq!(geo_relate.out, "geo_789");
    assert_eq!(geo_relate.visible, true);
    assert_eq!(geo_relate.meshed, true);
    assert_eq!(geo_relate.geo_type, "Pos");
}

#[test]
fn test_geo_relate_to_surql() {
    let geo_relate = GeoRelate::new(
        "relate_123".to_string(),
        "inst_456".to_string(),
        "geo_789".to_string(),
        true,
        true,
        "Pos".to_string(),
    );

    let sql = geo_relate.to_surql();
    assert!(sql.contains("CREATE geo_relate:relate_123"));
    assert!(sql.contains("in = inst_456"));
    assert!(sql.contains("out = geo_789"));
    assert!(sql.contains("visible = true"));
    assert!(sql.contains("meshed = true"));
    assert!(sql.contains("geo_type = 'Pos'"));
}

#[test]
fn geo_statements_are_exact() {
    let g = GeoRelate::new("r".to_string(), "i".to_string(), "o".to_string(), false, true, "Neg".to_string())
        .with_trans("[1]".to_string())
        .with_geom_refno("1_2".to_string());
    let ind = "                ";
    let expected = format!(
        "CREATE geo_relate:r SET\n{ind}in = i,\n{ind}out = o,\n{ind}trans = {{ d: [1] }},\n{ind}visible = false,\n{ind}meshed = true,\n{ind}geo_type = 'Neg',\n{ind}geom_refno = '1_2';"
    );
    assert_eq!(g.to_surql(), expected);
    let i = InstGeo::new("g".to_string(), "{}".to_string(), false, false, "Pos".to_string(), false)
        .with_created_at("2024-01-02T03:04:05".to_string());
    let expected = format!(
        "CREATE inst_geo:g SET\n{ind}param = {{}},\n{ind}meshed = false,\n{ind}visible = false,\n{ind}trans = NONE,\n{ind}geo_type = 'Pos',\n{ind}created_at = d'2024-01-02T03:04:05',\n{ind}updated_at = time::now(),\n{ind}unit_flag = false;"
    );
    assert_eq!(i.to_surql(), expected);
}

#[test]
fn test_measurement_structure() {
    let points = vec![pt(0.0, 0.0, 0.0), pt(1.0, 1.0, 1.0)];

    let measurement = Measurement::new("Test Measurement".to_string(), "Distance".to_string(), points)
        .with_value(1.732f64.to_string())
        .with_unit("mm".to_string())
        .with_priority("High".to_string());

    assert_eq!(measurement.name, "Test Measurement");
    assert_eq!(measurement.measurement_type, "Distance");
    assert_eq!(measurement.value, Some(1.732f64.to_string()));
    assert_eq!(measurement.unit, Some("mm".to_string()));
    assert_eq!(measurement.priority, Some("High".to_string()));
}

#[test]
fn test_measurement_to_surql() {
    let points = vec![pt(0.0, 0.0, 0.0), pt(1.0, 1.0, 1.0)];

    let measurement = Measurement::new("Test Distance".to_string(), "Distance".to_string(), points)
        .with_value(1.414f64.to_string())
        .with_unit("mm".to_string())
        .with_project("proj_001".to_string());

    let sql = measurement.to_surql();

    assert!(sql.contains("CREATE measurement:"));
    assert!(sql.contains("name = 'Test Distance'"));
    assert!(sql.contains("measurement_type = 'Distance'"));
    assert!(sql.contains("value = 1.414"));
    assert!(sql.contains("unit = 'mm'"));
    assert!(sql.contains("project_id = 'proj_001'"));
}

#[test]
fn measurement_statement_escapes_the_name_and_lists_points() {
    let m = Measurement::new("It's".to_string(), "Angle".to_string(), vec![pt(1.5, 2.0, -3.0), pt(0.0, 0.0, 0.0)]);
    assert!(m.id.starts_with("measurement:"));
    assert_eq!(m.id.len(), "measurement:".len() + 36);
    let sql = m.to_surql();
    assert!(sql.contains("name = 'It''s',\n"));
    assert!(sql.contains("points = [{ x: 1.5, y: 2, z: -3 }, { x: 0, y: 0, z: 0 }],\n"));
    assert!(sql.contains("priority = 'Medium',\n"));
    assert!(sql.contains("status = 'Draft',\n"));
    assert!(sql.contains("value = NONE,\n"));
    assert!(sql.ends_with("metadata = NONE;"));
}

#[test]
fn annotation_statement_is_exact() {
    let mut a = Annotation::new("Bob's note".to_string(), "a 'b'".to_string(), "Text".to_string())
        .with_position(pt(1.0, 2.0, 3.0))
        .with_associated_objects(vec![5, 6])
        .with_style("{\"w\":2}".to_string())
        .with_assigned_to("amy".to_string());
    assert!(a.id.starts_with("annotation:"));
    a.id = "annotation:x".to_string();
    a.created_at = Some("2024-01-02T03:04:05".to_string());
    a.updated_at = None;
    let ind = "                ";
    let expected = format!(
        "CREATE annotation:x SET\n{ind}title = 'Bob''s note',\n{ind}description = 'a ''b''',\n{ind}annotation_type = 'Text',\n{ind}position = {{ x: 1, y: 2, z: 3 }},\n{ind}color = '#1E90FF',\n{ind}priority = 'Medium',\n{ind}status = 'Draft',\n{ind}style = {{\"w\":2}},\n{ind}associated_refnos = [5, 6],\n{ind}project_id = NONE,\n{ind}scene_id = NONE,\n{ind}created_by = NONE,\n{ind}assigned_to = 'amy',\n{ind}created_at = d'2024-01-02T03:04:05',\n{ind}updated_at = time::now(),\n{ind}resolved_at = NONE,\n{ind}metadata = NONE;"
    );
    assert_eq!(a.to_surql(), expected);
}

#[test]
fn annotation_statements() {
    assert_eq!(list_annotations_sql(None, None, None, None, None), "SELECT * FROM annotation");
    assert_eq!(
        list_annotations_sql(Some("p".to_string()), None, Some("Draft".to_string()), Some(10), Some(20)),
        "SELECT * FROM annotation WHERE project_id = 'p' AND status = 'Draft' LIMIT 10 START 20"
    );
    assert_eq!(
        count_annotations_sql(None, Some("s".to_string()), None),
        "SELECT count() FROM annotation WHERE scene_id = 's' GROUP ALL"
    );
    assert_eq!(get_annotation_by_id_sql("annotation:1"), "SELECT * FROM annotation:1 LIMIT 1");
    assert_eq!(
        update_annotation_sql("annotation:1", "{\"a\":1}"),
        "UPDATE annotation:1 MERGE {\"a\":1} SET updated_at = time::now()"
    );
    assert_eq!(delete_annotation_sql("annotation:1"), "DELETE annotation:1");
    assert_eq!(
        resolve_annotation_sql("annotation:1"),
        "UPDATE annotation:1 SET status = 'Resolved', resolved_at = time::now(), updated_at = time::now()"
    );
    assert_eq!(
        list_annotations_by_type_sql("Text", Some(5)),
        "SELECT * FROM annotation WHERE annotation_type = 'Text' LIMIT 5"
    );
    assert_eq!(
        list_annotations_by_creator_sql("bob", None),
        "SELECT * FROM annotation WHERE created_by = 'bob'"
    );
    assert_eq!(
        list_annotations_by_assignee_sql("amy", None),
        "SELECT * FROM annotation WHERE assigned_to = 'amy'"
    );
    assert_eq!(
        list_annotations_by_associated_object_sql(42, Some(1)),
        "SELECT * FROM annotation WHERE 42 IN associated_refnos LIMIT 1"
    );
    assert_eq!(
        list_annotations_by_priority_sql("High", None),
        "SELECT * FROM annotation WHERE priority = 'High' ORDER BY created_at DESC"
    );
    assert_eq!(
        list_annotations_by_time_range_sql("a", "b", Some(3)),
        "SELECT * FROM annotation WHERE created_at >= 'a' AND created_at <= 'b' ORDER BY created_at DESC LIMIT 3"
    );
}

#[test]
fn measurement_statements() {
    assert_eq!(
        list_measurements_sql(Some("p".to_string()), Some("s".to_string()), None, Some(4)),
        "SELECT * FROM measurement WHERE project_id = 'p' AND scene_id = 's' START 4"
    );
    assert_eq!(count_measurements_sql(None, None), "SELECT count() FROM measurement GROUP ALL");
    assert_eq!(get_measurement_by_id_sql("m:1"), "SELECT * FROM m:1 LIMIT 1");
    assert_eq!(update_measurement_sql("m:1", "{}"), "UPDATE m:1 MERGE {} SET updated_at = time::now()");
    assert_eq!(delete_measurement_sql("m:1"), "DELETE m:1");
    assert_eq!(
        list_measurements_by_type_sql("Angle", Some(2)),
        "SELECT * FROM measurement WHERE measurement_type = 'Angle' LIMIT 2"
    );
    assert_eq!(
        list_measurements_by_creator_sql("bob", None),
        "SELECT * FROM measurement WHERE created_by = 'bob'"
    );
    assert_eq!(
        list_measurements_by_status_sql("Draft", Some(1)),
        "SELECT * FROM measurement WHERE status = 'Draft' LIMIT 1"
    );
}

fn is_uuid_v4(u: &str) -> bool {
    let b: Vec<char> = u.chars().collect();
    b.len() == 36
        && b.iter().enumerate().all(|(i, c)| {
            if [8, 13, 18, 23].contains(&i) {
                *c == '-'
            } else {
                c.is_ascii_digit() || ('a'..='f').contains(c)
            }
        })
        && b[14] == '4'
        && ['8', '9', 'a', 'b'].contains(&b[19])
}

#[test]
fn new_records_get_prefixed_uuid_ids() {
    let m = Measurement::new("d".to_string(), "Distance".to_string(), vec![]);
    assert!(m.id.starts_with("measurement:"));
    assert!(is_uuid_v4(&m.id["measurement:".len()..]));
    let a = Annotation::new("t".to_string(), "d".to_string(), "Text".to_string());
    assert!(a.id.starts_with("annotation:"));
    assert!(is_uuid_v4(&a.id["annotation:".len()..]));
    assert_ne!(Measurement::new("d".to_string(), "Distance".to_string(), vec![]).id, m.id);
}
