use aios_surreal::material::{
    change_hvac_result_to_map, filter_equi_children, get_hvac_chinese_name_map, MaterialGyData,
    MaterialYkInstData,
};
use aios_surreal::refno::RefU64;

#[test]
fn process_rows_become_titled_columns() {
    let row = MaterialGyData {
        id: RefU64::from_parts(24383, 66478),
        code: "CPP00102".to_string(),
        noun: "ELBO".to_string(),
    };
    let m = row.into_hashmap();
    assert_eq!(m.len(), 3);
    assert_eq!(m.get("参考号"), Some(&"24383/66478".to_string()));
    assert_eq!(m.get("编码"), Some(&"CPP00102".to_string()));
    assert_eq!(m.get("类型"), Some(&"ELBO".to_string()));
    let row = MaterialGyData { id: RefU64::from_parts(1, 2), code: "C".to_string(), noun: "N".to_string() };
    let m = row.into_yk_hashmap();
    assert_eq!(m.get("品名"), Some(&"N".to_string()));
    assert_eq!(m.get("类型"), None);
}

#[test]
fn instrument_rows_fill_missing_cells_with_empty_text() {
    let row = MaterialYkInstData {
        id: RefU64::from_parts(1, 2),
        name: "PT-001".to_string(),
        pipe_name: None,
        room_code: Some("R101".to_string()),
    };
    let m = row.into_hashmap();
    assert_eq!(m.len(), 4);
    assert_eq!(m.get("参考号"), Some(&"1/2".to_string()));
    assert_eq!(m.get("传感器标识"), Some(&"PT-001".to_string()));
    assert_eq!(m.get("对应根阀编号"), Some(&"".to_string()));
    assert_eq!(m.get("房间号"), Some(&"R101".to_string()));
}

#[test]
fn ventilation_titles_and_renaming() {
    let titles = get_hvac_chinese_name_map();
    assert_eq!(titles.len(), 28);
    assert_eq!(titles.get("seg_code"), Some(&"管段编号".to_string()));
    let rows = vec![vec![
        ("duct_weight".to_string(), "12".to_string()),
        ("unknown".to_string(), "x".to_string()),
        ("fl_wei".to_string(), "3".to_string()),
        ("id".to_string(), "1/2".to_string()),
    ]];
    let out = change_hvac_result_to_map(rows);
    assert_eq!(out.len(), 1);
    assert_eq!(out[0].len(), 2);
    assert_eq!(out[0].get("法兰重量"), Some(&"12".to_string()));
    assert_eq!(out[0].get("参考号"), Some(&"1/2".to_string()));
}

fn group(items: &[&str]) -> Vec<String> {
    items.iter().map(|s| s.to_string()).collect()
}

#[test]
fn trays_keep_their_first_box_group() {
    let datas = vec![
        vec![
            group(&["BOX:1", "BOX:2"]),
            group(&["BOX:1", "CYL:2", "BOX:3"]),
            group(&["BOX:a", "BOX:b", "BOX:c"]),
            group(&["BOX:x", "BOX:y", "BOX:z", "BOX:w"]),
        ],
        vec![group(&["CYL:1", "CYL:2", "CYL:3"])],
        vec![group(&["BOX:1", "BOX:2", "BOX:3", "BOX:4"])],
    ];
    let out = filter_equi_children(datas);
    assert_eq!(
        out,
        vec![group(&["BOX:a", "BOX:b", "BOX:c"]), group(&["BOX:1", "BOX:2", "BOX:3", "BOX:4"])]
    );
}
