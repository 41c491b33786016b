use aios_surreal::material::MaterialList;
use aios_surreal::material_rows::{
    MaterialDqMaterialList, MaterialDqMaterialListStru, MaterialGpsDzclData, MaterialGyDataBend,
    MaterialGyEquiList, MaterialGyValvList, MaterialNtValvData, MaterialSbListData,
    MaterialSubeData, MaterialTfHavcFlexList, MaterialTfHavcList, MaterialTfHavcTapeList,
    MaterialTxTxsbData, MaterialYkEquiListData,
};
use aios_surreal::refno::RefU64;

fn s(t: &str) -> String {
    t.to_string()
}

#[test]
fn bend_row_shows_its_count() {
    let m = MaterialGyDataBend { id: RefU64::from_parts(1, 2), code: s("C1"), noun: s("BEND"), count: s("3.14") }
        .into_hashmap();
    assert_eq!(m.len(), 4);
    assert_eq!(m.get("参考号"), Some(&s("1/2")));
    assert_eq!(m.get("部件"), Some(&s("BEND")));
    assert_eq!(m.get("数量"), Some(&s("3.14")));
}

#[test]
fn valve_row_defaults_missing_numbers_to_zero() {
    let m = MaterialGyValvList {
        id: RefU64::from_parts(7, 8),
        valv_name: s("V-1"),
        room_code: None,
        valv_belong: s("P1"),
        valv_length: Some(s("200")),
        valv_weight: None,
        valv_x: None,
        valv_y: Some(s("1.5")),
        valv_z: None,
        valv_supp: s("否"),
    }
    .into_hashmap();
    assert_eq!(m.len(), 10);
    assert_eq!(m.get("所在房间号"), Some(&s("")));
    assert_eq!(m.get("阀门长度"), Some(&s("200")));
    assert_eq!(m.get("阀门重量"), Some(&s("0")));
    assert_eq!(m.get("阀门重心Y"), Some(&s("1.5")));
    assert_eq!(m.get("是否阀门支架"), Some(&s("否")));
}

#[test]
fn equipment_nozzles_become_json_arrays() {
    let m = MaterialGyEquiList {
        id: RefU64::from_parts(1, 1),
        name: s("E-1"),
        room_code: Some(s("R1")),
        nozz_name: vec![s("N1"), s("N\"2\\")],
        nozz_pos: s("[[1.0,2.0,3.0]]"),
        nozz_cref: vec![],
    }
    .into_hashmap();
    assert_eq!(m.get("管口号"), Some(&s("[\"N1\",\"N\\\"2\\\\\"]")));
    assert_eq!(m.get("管口坐标"), Some(&s("[[1.0,2.0,3.0]]")));
    assert_eq!(m.get("相连管道编号"), Some(&s("[]")));
    assert_eq!(m.get("所在房间号"), Some(&s("R1")));
}

fn hvac_list() -> MaterialTfHavcList {
    MaterialTfHavcList {
        id: RefU64::from_parts(3, 4),
        bolt_qty: -2,
        description: s("矩形直管"),
        duct_area: s("[0.5]"),
        duct_weight: s("12.5"),
        fl_len: s("1"),
        fl_type: s("L30"),
        fl_wei: s("2"),
        height: s("300"),
        length: s("1000"),
        material: vec![s("镀锌钢板")],
        nut_qty: 16,
        other_qty: s("-"),
        other_type: s("-"),
        pressure: s("P1"),
        room_no: None,
        seg_code: s("S1"),
        stif_len: s("0"),
        stif_sctn: s(""),
        stif_wei: s("0"),
        stud: s("-"),
        sub_code: s("B1"),
        system: s("SYS"),
        wall_thk: s("[0.75]"),
        washer_len: s("3"),
        washer_type: vec![s("W1"), s("W2")],
        washer_qty: 32,
        width: s("400"),
    }
}

#[test]
fn straight_duct_columns() {
    let m = hvac_list().into_hashmap();
    assert_eq!(m.len(), 28);
    assert_eq!(m.get("材质"), Some(&s("[\"镀锌钢板\"]")));
    assert_eq!(m.get("螺栓数量"), Some(&s("-2")));
    assert_eq!(m.get("螺母数量"), Some(&s("16")));
    assert_eq!(m.get("螺母数量_2"), Some(&s("32")));
    assert_eq!(m.get("垫圈类型"), Some(&s("[\"W1\",\"W2\"]")));
    assert_eq!(m.get("所在房间号"), Some(&s("")));
    assert_eq!(m.get("风管壁厚"), Some(&s("[0.75]")));
}

#[test]
fn tapered_and_flexible_duct_columns() {
    let h = hvac_list();
    let tape = MaterialTfHavcTapeList {
        id: h.id,
        bolt_qty: s("[8.0,8.0]"),
        description: h.description.clone(),
        duct_area: h.duct_area.clone(),
        duct_weight: h.duct_weight.clone(),
        fl_len: h.fl_len.clone(),
        fl_type: h.fl_type.clone(),
        fl_wei: h.fl_wei.clone(),
        height: vec![s("300"), s("250")],
        length: h.length.clone(),
        material: vec![],
        nut_qty: vec![8, -1],
        other_qty: s("-"),
        other_type: s("-"),
        pressure: s("P1"),
        room_no: Some(s("R9")),
        seg_code: s("S1"),
        stif_len: s("0"),
        stif_sctn: s(""),
        stif_wei: s("0"),
        stud: s("-"),
        sub_code: s("B1"),
        system: s("SYS"),
        wall_thk: s("[]"),
        washer_len: s("3"),
        washer_type: vec![],
        washer_qty: vec![],
        width: vec![s("400"), s("350")],
    };
    let m = tape.into_hashmap();
    assert_eq!(m.len(), 28);
    assert_eq!(m.get("风管宽度"), Some(&s("[\"400\",\"350\"]")));
    assert_eq!(m.get("风管高度"), Some(&s("[\"300\",\"250\"]")));
    assert_eq!(m.get("螺母数量"), Some(&s("[8,-1]")));
    assert_eq!(m.get("螺母数量_2"), Some(&s("[]")));
    assert_eq!(m.get("螺栓数量"), Some(&s("[8.0,8.0]")));
    assert_eq!(m.get("所在房间号"), Some(&s("R9")));
    let flex = MaterialTfHavcFlexList {
        id: h.id,
        bolt_qty: s("[]"),
        description: s("软管"),
        duct_area: s("[]"),
        duct_weight: s("0"),
        fl_len: s("0"),
        fl_type: s(""),
        fl_wei: s("0"),
        height: s("200"),
        length: s("500"),
        material: vec![s("铝箔")],
        nut_qty: vec![4],
        other_qty: s("-"),
        other_type: s("-"),
        pressure: s(""),
        room_no: None,
        seg_code: s(""),
        stif_len: s("0"),
        stif_sctn: s(""),
        stif_wei: s("0"),
        stud: s("-"),
        sub_code: s(""),
        system: s(""),
        wall_thk: s("[]"),
        washer_len: s("0"),
        washer_type: vec![],
        washer_qty: vec![8],
        width: s("200"),
    };
    let m = flex.into_hashmap();
    assert_eq!(m.get("风管宽度"), Some(&s("200")));
    assert_eq!(m.get("螺母数量"), Some(&s("[4]")));
    assert_eq!(m.get("材质"), Some(&s("[\"铝箔\"]")));
}

#[test]
fn electrical_tray_and_support_columns() {
    let t = MaterialDqMaterialList {
        id: RefU64::from_parts(5, 6),
        num: Some(s("1")),
        project_num: None,
        project_name: None,
        major: s("主托盘"),
        room_code: None,
        name: s("T-1"),
        pos: None,
        bran_type: None,
        material: Some(s("碳钢Q235")),
        width: Some(s("300")),
        height: None,
        size_num: None,
        b_painting: Some(s("Y")),
        painting_color: None,
        b_cover: Some(s("是")),
        b_partition: None,
        partition_num: None,
        spre: Some(s("SP")),
        catr: None,
        horizontal_or_vertical: None,
        stander_num: None,
        item_num: None,
        unit: None,
        count: None,
    };
    let m = t.into_hashmap();
    assert_eq!(m.len(), 25);
    assert_eq!(m.get("元件等级名称"), Some(&s("SP")));
    assert_eq!(m.get("spre"), Some(&s("SP")));
    assert_eq!(m.get("托盘标高"), Some(&s("0")));
    assert_eq!(m.get("托盘宽度mm"), Some(&s("300")));
    assert_eq!(m.get("数量"), Some(&s("0")));
    assert_eq!(m.get("有无盖板"), None);
    let st = MaterialDqMaterialListStru {
        id: RefU64::from_parts(5, 7),
        num: None,
        project_num: None,
        project_name: None,
        major: s("支吊架"),
        room_code: None,
        pos: None,
        material: None,
        width: None,
        height: None,
        supp_name: Some(s("S-1")),
        size_num: Some(s("L50")),
        b_painting: None,
        painting_color: None,
        b_cover: None,
        b_partition: None,
        partition_num: None,
        spre: None,
        catr: None,
        horizontal_or_vertical: None,
        stander_num: None,
        item_num: None,
        unit: None,
        count: Some(s("2")),
    };
    let m = st.into_hashmap();
    assert_eq!(m.len(), 23);
    assert_eq!(m.get("托盘支吊架名称"), Some(&s("S-1")));
    assert_eq!(m.get("规格型号"), Some(&s("L50")));
    assert_eq!(m.get("元件等级名称"), Some(&s("")));
    assert_eq!(m.get("数量"), None);
}

#[test]
fn other_discipline_rows() {
    let m = MaterialYkEquiListData {
        id: RefU64::from_parts(1, 3),
        equi_name: s("YE"),
        room_code: None,
        pos: Some(s("4.5")),
        floor_height: None,
    }
    .into_hashmap();
    assert_eq!(m.get("设备绝对标高"), Some(&s("4.5")));
    assert_eq!(m.get("设备相对楼板标高"), Some(&s("0")));
    let m = MaterialGpsDzclData {
        id: RefU64::from_parts(1, 4),
        code: s("G"),
        noun: s("TUBI"),
        radius: None,
        length: Some(s("99")),
        thick: None,
        count: Some(s("12")),
    }
    .into_hashmap();
    assert_eq!(m.get("外径/Φ"), Some(&s("0.0")));
    assert_eq!(m.get("长度"), Some(&s("12")));
    assert_eq!(m.get("数量"), Some(&s("12")));
    assert_eq!(m.get("厚度"), Some(&s("0")));
    let m = MaterialTxTxsbData {
        id: RefU64::from_parts(1, 5),
        equi_name: s("T"),
        ptre_desc: s("D"),
        belong_factory: s("F"),
        room_code: Some(s("R")),
        x: Some(s("1")),
        y: None,
        z: Some(s("-3")),
        ptre_name: s("M"),
    }
    .into_hashmap();
    assert_eq!(m.len(), 9);
    assert_eq!(m.get("全局坐标Y"), Some(&s("0")));
    assert_eq!(m.get("全局坐标Z"), Some(&s("-3")));
    let m = MaterialSbListData {
        id: RefU64::from_parts(1, 6),
        name: s("SB"),
        pos: None,
        length: Some(s("6.1")),
        room_code: None,
        boxs: vec![],
    }
    .into_hashmap();
    assert_eq!(m.len(), 5);
    assert_eq!(m.get("轨道长度"), Some(&s("6.1")));
    assert_eq!(m.get("安装标高"), Some(&s("0")));
    let m = MaterialNtValvData {
        id: RefU64::from_parts(1, 7),
        name: s("NV"),
        room_code: None,
        bran_name: s("B"),
        valv_size: s("[1.0,2.0,0.0]"),
        material: s("钢"),
        valv_use: s("FD"),
    }
    .into_hashmap();
    assert_eq!(m.get("阀门尺寸"), Some(&s("[1.0,2.0,0.0]")));
    assert_eq!(m.get("阀门功能"), Some(&s("FD")));
    let _ = MaterialSubeData { refno: RefU64::from_parts(1, 6), pos: None, length: None };
    let _ = MaterialList::SbDzcl;
}
