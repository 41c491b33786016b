//! The rows of the discipline material lists and their named columns.
//!
//! Numbers that the database hands back as floating point are held here as
//! the text they are shown with (`to_string` of the number), and lists of
//! such numbers as their JSON text: those are the only ways the columns use
//! them.
use vstd::prelude::*;
use vstd::hash_map::StringHashMap;
use crate::json::{
    ints_to_json, json_ints, json_strings, string_views, strings_to_json,
};
use crate::material::{cell, cell_text, texts};
use crate::refno::RefU64;
use crate::text::{owned, signed_decimal, signed_decimal_string};

verus! {

/// The text of an optional cell, `default` when absent.
#[verifier::opaque]
pub open spec fn cell_or_text(v: Option<String>, default: Seq<char>) -> Seq<char> {
    match v {
        Some(s) => s@,
        None => default,
    }
}

/// An optional cell, `default` when absent.
fn cell_or(v: Option<String>, default: &str) -> (r: String)
    ensures
        r@ == cell_or_text(v, default@),
{
    reveal(cell_or_text);
    match v {
        Some(s) => s,
        None => owned(default),
    }
}

/// An optional cell read in place, empty when absent.
fn cell_ref(v: &Option<String>) -> (r: String)
    ensures
        r@ == cell_text(*v),
{
    reveal(cell_text);
    match v {
        Some(s) => s.clone(),
        None => String::new(),
    }
}

/// An optional cell read in place, `default` when absent.
fn cell_or_ref(v: &Option<String>, default: &str) -> (r: String)
    ensures
        r@ == cell_or_text(*v, default@),
{
    reveal(cell_or_text);
    match v {
        Some(s) => s.clone(),
        None => owned(default),
    }
}

/// A bend or pipe row of the process list, with its length or count.
pub struct MaterialGyDataBend {
    pub id: RefU64,
    pub code: String,
    pub noun: String,
    /// The count, as shown.
    pub count: String,
}

impl MaterialGyDataBend {
    /// The columns 参考号, 编码, 部件 and 数量.
    pub fn into_hashmap(self) -> (r: StringHashMap<String>)
        ensures
            texts(r@) == map![
                "参考号"@ => self.id.pdms_text(),
                "编码"@ => self.code@,
                "部件"@ => self.noun@,
                "数量"@ => self.count@,
            ],
    {
        let mut map: StringHashMap<String> = StringHashMap::new();
        map.insert(owned("参考号"), self.id.to_pdms_str());
        map.insert(owned("编码"), self.code);
        map.insert(owned("部件"), self.noun);
        map.insert(owned("数量"), self.count);
        assert(texts(map@) =~= map![
            "参考号"@ => self.id.pdms_text(),
            "编码"@ => self.code@,
            "部件"@ => self.noun@,
            "数量"@ => self.count@,
        ]);
        map
    }
}

/// A valve row of the process list.
pub struct MaterialGyValvList {
    pub id: RefU64,
    pub valv_name: String,
    pub room_code: Option<String>,
    pub valv_belong: String,
    /// Length, weight and centre of gravity, as shown.
    pub valv_length: Option<String>,
    pub valv_weight: Option<String>,
    pub valv_x: Option<String>,
    pub valv_y: Option<String>,
    pub valv_z: Option<String>,
    pub valv_supp: String,
}

impl MaterialGyValvList {
    /// The valve columns; an absent room is empty and an absent number `0`.
    pub fn into_hashmap(self) -> (r: StringHashMap<String>)
        ensures
            texts(r@) == map![
                "参考号"@ => self.id.pdms_text(),
                "阀门位号"@ => self.valv_name@,
                "所在房间号"@ => cell_text(self.room_code),
                "阀门归属"@ => self.valv_belong@,
                "阀门长度"@ => cell_or_text(self.valv_length, "0"@),
                "阀门重量"@ => cell_or_text(self.valv_weight, "0"@),
                "阀门重心X"@ => cell_or_text(self.valv_x, "0"@),
                "阀门重心Y"@ => cell_or_text(self.valv_y, "0"@),
                "阀门重心Z"@ => cell_or_text(self.valv_z, "0"@),
                "是否阀门支架"@ => self.valv_supp@,
            ],
    {
        let ghost old = self;
        let mut map: StringHashMap<String> = StringHashMap::new();
        map.insert(owned("参考号"), self.id.to_pdms_str());
        map.insert(owned("阀门位号"), self.valv_name);
        map.insert(owned("所在房间号"), cell(self.room_code));
        map.insert(owned("阀门归属"), self.valv_belong);
        map.insert(owned("阀门长度"), cell_or(self.valv_length, "0"));
        map.insert(owned("阀门重量"), cell_or(self.valv_weight, "0"));
        map.insert(owned("阀门重心X"), cell_or(self.valv_x, "0"));
        map.insert(owned("阀门重心Y"), cell_or(self.valv_y, "0"));
        map.insert(owned("阀门重心Z"), cell_or(self.valv_z, "0"));
        map.insert(owned("是否阀门支架"), self.valv_supp);
        assert(texts(map@) =~= map![
            "参考号"@ => old.id.pdms_text(),
            "阀门位号"@ => old.valv_name@,
            "所在房间号"@ => cell_text(old.room_code),
            "阀门归属"@ => old.valv_belong@,
            "阀门长度"@ => cell_or_text(old.valv_length, "0"@),
            "阀门重量"@ => cell_or_text(old.valv_weight, "0"@),
            "阀门重心X"@ => cell_or_text(old.valv_x, "0"@),
            "阀门重心Y"@ => cell_or_text(old.valv_y, "0"@),
            "阀门重心Z"@ => cell_or_text(old.valv_z, "0"@),
            "是否阀门支架"@ => old.valv_supp@,
        ]);
        map
    }
}

/// An equipment row of the process list with its nozzles.
pub struct MaterialGyEquiList {
    pub id: RefU64,
    pub name: String,
    pub room_code: Option<String>,
    pub nozz_name: Vec<String>,
    /// The nozzle positions, as JSON text.
    pub nozz_pos: String,
    pub nozz_cref: Vec<String>,
}

impl MaterialGyEquiList {
    /// The equipment columns; nozzle names and connections become JSON
    /// arrays.
    pub fn into_hashmap(self) -> (r: StringHashMap<String>)
        ensures
            texts(r@) == map![
                "参考号"@ => self.id.pdms_text(),
                "设备位号"@ => self.name@,
                "所在房间号"@ => cell_text(self.room_code),
                "管口号"@ => json_strings(string_views(self.nozz_name@)),
                "管口坐标"@ => self.nozz_pos@,
                "相连管道编号"@ => json_strings(string_views(self.nozz_cref@)),
            ],
    {
        let ghost old = self;
        let names = strings_to_json(&self.nozz_name);
        let crefs = strings_to_json(&self.nozz_cref);
        let mut map: StringHashMap<String> = StringHashMap::new();
        map.insert(owned("参考号"), self.id.to_pdms_str());
        map.insert(owned("设备位号"), self.name);
        map.insert(owned("所在房间号"), cell(self.room_code));
        map.insert(owned("管口号"), names);
        map.insert(owned("管口坐标"), self.nozz_pos);
        map.insert(owned("相连管道编号"), crefs);
        assert(texts(map@) =~= map![
            "参考号"@ => old.id.pdms_text(),
            "设备位号"@ => old.name@,
            "所在房间号"@ => cell_text(old.room_code),
            "管口号"@ => json_strings(string_views(old.nozz_name@)),
            "管口坐标"@ => old.nozz_pos@,
            "相连管道编号"@ => json_strings(string_views(old.nozz_cref@)),
        ]);
        map
    }
}

/// A straight duct row of the ventilation list.
pub struct MaterialTfHavcList {
    pub id: RefU64,
    pub bolt_qty: i32,
    pub description: String,
    pub duct_area: String,
    pub duct_weight: String,
    pub fl_len: String,
    pub fl_type: String,
    pub fl_wei: String,
    pub height: String,
    pub length: String,
    pub material: Vec<String>,
    pub nut_qty: i32,
    pub other_qty: String,
    pub other_type: String,
    pub pressure: String,
    pub room_no: Option<String>,
    pub seg_code: String,
    pub stif_len: String,
    pub stif_sctn: String,
    pub stif_wei: String,
    pub stud: String,
    pub sub_code: String,
    pub system: String,
    pub wall_thk: String,
    pub washer_len: String,
    pub washer_type: Vec<String>,
    pub washer_qty: i32,
    pub width: String,
}

impl MaterialTfHavcList {
    /// The duct columns; lists become JSON arrays and an absent room is empty.
    pub fn into_hashmap(self) -> (r: StringHashMap<String>)
        ensures
            texts(r@) == map![
                "参考号"@ => self.id.pdms_text(),
                "描述"@ => self.description@,
                "管段编号"@ => self.seg_code@,
                "子项号"@ => self.sub_code@,
                "材质"@ => json_strings(string_views(self.material@)),
                "压力等级"@ => self.pressure@,
                "风管长度"@ => self.length@,
                "风管宽度"@ => self.width@,
                "风管高度"@ => self.height@,
                "风管壁厚"@ => self.wall_thk@,
                "风管面积"@ => self.duct_area@,
                "风管重量"@ => self.duct_weight@,
                "加强筋型材"@ => self.stif_sctn@,
                "加强筋长度"@ => self.stif_len@,
                "加强筋重量"@ => self.stif_wei@,
                "法兰规格"@ => self.fl_type@,
                "法兰长度"@ => self.fl_len@,
                "法兰重量"@ => self.fl_wei@,
                "垫圈类型"@ => json_strings(string_views(self.washer_type@)),
                "垫圈长度"@ => self.washer_len@,
                "螺栓数量"@ => signed_decimal(self.bolt_qty as int),
                "其它材料类型"@ => self.other_type@,
                "其它材料数量"@ => self.other_qty@,
                "螺杆"@ => self.stud@,
                "螺母数量"@ => signed_decimal(self.nut_qty as int),
                "螺母数量_2"@ => signed_decimal(self.washer_qty as int),
                "所在房间号"@ => cell_text(self.room_no),
                "系统"@ => self.system@,
            ],
    {
        let ghost old = self;
        let v0 = strings_to_json(&self.material);
        let v1 = strings_to_json(&self.washer_type);
        let mut map: StringHashMap<String> = StringHashMap::new();
        map.insert(owned("参考号"), self.id.to_pdms_str());
        map.insert(owned("描述"), self.description);
        map.insert(owned("管段编号"), self.seg_code);
        map.insert(owned("子项号"), self.sub_code);
        map.insert(owned("材质"), v0);
        map.insert(owned("压力等级"), self.pressure);
        map.insert(owned("风管长度"), self.length);
        map.insert(owned("风管宽度"), self.width);
        map.insert(owned("风管高度"), self.height);
        map.insert(owned("风管壁厚"), self.wall_thk);
        map.insert(owned("风管面积"), self.duct_area);
        map.insert(owned("风管重量"), self.duct_weight);
        map.insert(owned("加强筋型材"), self.stif_sctn);
        map.insert(owned("加强筋长度"), self.stif_len);
        map.insert(owned("加强筋重量"), self.stif_wei);
        map.insert(owned("法兰规格"), self.fl_type);
        map.insert(owned("法兰长度"), self.fl_len);
        map.insert(owned("法兰重量"), self.fl_wei);
        map.insert(owned("垫圈类型"), v1);
        map.insert(owned("垫圈长度"), self.washer_len);
        map.insert(owned("螺栓数量"), signed_decimal_string(self.bolt_qty));
        map.insert(owned("其它材料类型"), self.other_type);
        map.insert(owned("其它材料数量"), self.other_qty);
        map.insert(owned("螺杆"), self.stud);
        map.insert(owned("螺母数量"), signed_decimal_string(self.nut_qty));
        map.insert(owned("螺母数量_2"), signed_decimal_string(self.washer_qty));
        map.insert(owned("所在房间号"), cell(self.room_no));
        map.insert(owned("系统"), self.system);
        assert(texts(map@) =~= map![
            "参考号"@ => old.id.pdms_text(),
            "描述"@ => old.description@,
            "管段编号"@ => old.seg_code@,
            "子项号"@ => old.sub_code@,
            "材质"@ => json_strings(string_views(old.material@)),
            "压力等级"@ => old.pressure@,
            "风管长度"@ => old.length@,
            "风管宽度"@ => old.width@,
            "风管高度"@ => old.height@,
            "风管壁厚"@ => old.wall_thk@,
            "风管面积"@ => old.duct_area@,
            "风管重量"@ => old.duct_weight@,
            "加强筋型材"@ => old.stif_sctn@,
            "加强筋长度"@ => old.stif_len@,
            "加强筋重量"@ => old.stif_wei@,
            "法兰规格"@ => old.fl_type@,
            "法兰长度"@ => old.fl_len@,
            "法兰重量"@ => old.fl_wei@,
            "垫圈类型"@ => json_strings(string_views(old.washer_type@)),
            "垫圈长度"@ => old.washer_len@,
            "螺栓数量"@ => signed_decimal(old.bolt_qty as int),
            "其它材料类型"@ => old.other_type@,
            "其它材料数量"@ => old.other_qty@,
            "螺杆"@ => old.stud@,
            "螺母数量"@ => signed_decimal(old.nut_qty as int),
            "螺母数量_2"@ => signed_decimal(old.washer_qty as int),
            "所在房间号"@ => cell_text(old.room_no),
            "系统"@ => old.system@,
        ]);
        map
    }
}

/// A tapered duct row of the ventilation list (two widths and heights).
pub struct MaterialTfHavcTapeList {
    pub id: RefU64,
    pub bolt_qty: String,
    pub description: String,
    pub duct_area: String,
    pub duct_weight: String,
    pub fl_len: String,
    pub fl_type: String,
    pub fl_wei: String,
    pub height: Vec<String>,
    pub length: String,
    pub material: Vec<String>,
    pub nut_qty: Vec<i32>,
    pub other_qty: String,
    pub other_type: String,
    pub pressure: String,
    pub room_no: Option<String>,
    pub seg_code: String,
    pub stif_len: String,
    pub stif_sctn: String,
    pub stif_wei: String,
    pub stud: String,
    pub sub_code: String,
    pub system: String,
    pub wall_thk: String,
    pub washer_len: String,
    pub washer_type: Vec<String>,
    pub washer_qty: Vec<i32>,
    pub width: Vec<String>,
}

impl MaterialTfHavcTapeList {
    /// The duct columns; lists become JSON arrays and an absent room is empty.
    pub fn into_hashmap(self) -> (r: StringHashMap<String>)
        ensures
            texts(r@) == map![
                "参考号"@ => self.id.pdms_text(),
                "描述"@ => self.description@,
                "管段编号"@ => self.seg_code@,
                "子项号"@ => self.sub_code@,
                "材质"@ => json_strings(string_views(self.material@)),
                "压力等级"@ => self.pressure@,
                "风管长度"@ => self.length@,
                "风管宽度"@ => json_strings(string_views(self.width@)),
                "风管高度"@ => json_strings(string_views(self.height@)),
                "风管壁厚"@ => self.wall_thk@,
                "风管面积"@ => self.duct_area@,
                "风管重量"@ => self.duct_weight@,
                "加强筋型材"@ => self.stif_sctn@,
                "加强筋长度"@ => self.stif_len@,
                "加强筋重量"@ => self.stif_wei@,
                "法兰规格"@ => self.fl_type@,
                "法兰长度"@ => self.fl_len@,
                "法兰重量"@ => self.fl_wei@,
                "垫圈类型"@ => json_strings(string_views(self.washer_type@)),
                "垫圈长度"@ => self.washer_len@,
                "螺栓数量"@ => self.bolt_qty@,
                "其它材料类型"@ => self.other_type@,
                "其它材料数量"@ => self.other_qty@,
                "螺杆"@ => self.stud@,
                "螺母数量"@ => json_ints(self.nut_qty@),
                "螺母数量_2"@ => json_ints(self.washer_qty@),
                "所在房间号"@ => cell_text(self.room_no),
                "系统"@ => self.system@,
            ],
    {
        let ghost old = self;
        let v0 = strings_to_json(&self.material);
        let v1 = strings_to_json(&self.width);
        let v2 = strings_to_json(&self.height);
        let v3 = strings_to_json(&self.washer_type);
        let v4 = ints_to_json(&self.nut_qty);
        let v5 = ints_to_json(&self.washer_qty);
        let mut map: StringHashMap<String> = StringHashMap::new();
        map.insert(owned("参考号"), self.id.to_pdms_str());
        map.insert(owned("描述"), self.description);
        map.insert(owned("管段编号"), self.seg_code);
        map.insert(owned("子项号"), self.sub_code);
        map.insert(owned("材质"), v0);
        map.insert(owned("压力等级"), self.pressure);
        map.insert(owned("风管长度"), self.length);
        map.insert(owned("风管宽度"), v1);
        map.insert(owned("风管高度"), v2);
        map.insert(owned("风管壁厚"), self.wall_thk);
        map.insert(owned("风管面积"), self.duct_area);
        map.insert(owned("风管重量"), self.duct_weight);
        map.insert(owned("加强筋型材"), self.stif_sctn);
        map.insert(owned("加强筋长度"), self.stif_len);
        map.insert(owned("加强筋重量"), self.stif_wei);
        map.insert(owned("法兰规格"), self.fl_type);
        map.insert(owned("法兰长度"), self.fl_len);
        map.insert(owned("法兰重量"), self.fl_wei);
        map.insert(owned("垫圈类型"), v3);
        map.insert(owned("垫圈长度"), self.washer_len);
        map.insert(owned("螺栓数量"), self.bolt_qty);
        map.insert(owned("其它材料类型"), self.other_type);
        map.insert(owned("其它材料数量"), self.other_qty);
        map.insert(owned("螺杆"), self.stud);
        map.insert(owned("螺母数量"), v4);
        map.insert(owned("螺母数量_2"), v5);
        map.insert(owned("所在房间号"), cell(self.room_no));
        map.insert(owned("系统"), self.system);
        assert(texts(map@) =~= map![
            "参考号"@ => old.id.pdms_text(),
            "描述"@ => old.description@,
            "管段编号"@ => old.seg_code@,
            "子项号"@ => old.sub_code@,
            "材质"@ => json_strings(string_views(old.material@)),
            "压力等级"@ => old.pressure@,
            "风管长度"@ => old.length@,
            "风管宽度"@ => json_strings(string_views(old.width@)),
            "风管高度"@ => json_strings(string_views(old.height@)),
            "风管壁厚"@ => old.wall_thk@,
            "风管面积"@ => old.duct_area@,
            "风管重量"@ => old.duct_weight@,
            "加强筋型材"@ => old.stif_sctn@,
            "加强筋长度"@ => old.stif_len@,
            "加强筋重量"@ => old.stif_wei@,
            "法兰规格"@ => old.fl_type@,
            "法兰长度"@ => old.fl_len@,
            "法兰重量"@ => old.fl_wei@,
            "垫圈类型"@ => json_strings(string_views(old.washer_type@)),
            "垫圈长度"@ => old.washer_len@,
            "螺栓数量"@ => old.bolt_qty@,
            "其它材料类型"@ => old.other_type@,
            "其它材料数量"@ => old.other_qty@,
            "螺杆"@ => old.stud@,
            "螺母数量"@ => json_ints(old.nut_qty@),
            "螺母数量_2"@ => json_ints(old.washer_qty@),
            "所在房间号"@ => cell_text(old.room_no),
            "系统"@ => old.system@,
        ]);
        map
    }
}

/// A flexible duct row of the ventilation list.
pub struct MaterialTfHavcFlexList {
    pub id: RefU64,
    pub bolt_qty: String,
    pub description: String,
    pub duct_area: String,
    pub duct_weight: String,
    pub fl_len: String,
    pub fl_type: String,
    pub fl_wei: String,
    pub height: String,
    pub length: String,
    pub material: Vec<String>,
    pub nut_qty: Vec<i32>,
    pub other_qty: String,
    pub other_type: String,
    pub pressure: String,
    pub room_no: Option<String>,
    pub seg_code: String,
    pub stif_len: String,
    pub stif_sctn: String,
    pub stif_wei: String,
    pub stud: String,
    pub sub_code: String,
    pub system: String,
    pub wall_thk: String,
    pub washer_len: String,
    pub washer_type: Vec<String>,
    pub washer_qty: Vec<i32>,
    pub width: String,
}

impl MaterialTfHavcFlexList {
    /// The duct columns; lists become JSON arrays and an absent room is empty.
    pub fn into_hashmap(self) -> (r: StringHashMap<String>)
        ensures
            texts(r@) == map![
                "参考号"@ => self.id.pdms_text(),
                "描述"@ => self.description@,
                "管段编号"@ => self.seg_code@,
                "子项号"@ => self.sub_code@,
                "材质"@ => json_strings(string_views(self.material@)),
                "压力等级"@ => self.pressure@,
                "风管长度"@ => self.length@,
                "风管宽度"@ => self.width@,
                "风管高度"@ => self.height@,
                "风管壁厚"@ => self.wall_thk@,
                "风管面积"@ => self.duct_area@,
                "风管重量"@ => self.duct_weight@,
                "加强筋型材"@ => self.stif_sctn@,
                "加强筋长度"@ => self.stif_len@,
                "加强筋重量"@ => self.stif_wei@,
                "法兰规格"@ => self.fl_type@,
                "法兰长度"@ => self.fl_len@,
                "法兰重量"@ => self.fl_wei@,
                "垫圈类型"@ => json_strings(string_views(self.washer_type@)),
                "垫圈长度"@ => self.washer_len@,
                "螺栓数量"@ => self.bolt_qty@,
                "其它材料类型"@ => self.other_type@,
                "其它材料数量"@ => self.other_qty@,
                "螺杆"@ => self.stud@,
                "螺母数量"@ => json_ints(self.nut_qty@),
                "螺母数量_2"@ => json_ints(self.washer_qty@),
                "所在房间号"@ => cell_text(self.room_no),
                "系统"@ => self.system@,
            ],
    {
        let ghost old = self;
        let v0 = strings_to_json(&self.material);
        let v1 = strings_to_json(&self.washer_type);
        let v2 = ints_to_json(&self.nut_qty);
        let v3 = ints_to_json(&self.washer_qty);
        let mut map: StringHashMap<String> = StringHashMap::new();
        map.insert(owned("参考号"), self.id.to_pdms_str());
        map.insert(owned("描述"), self.description);
        map.insert(owned("管段编号"), self.seg_code);
        map.insert(owned("子项号"), self.sub_code);
        map.insert(owned("材质"), v0);
        map.insert(owned("压力等级"), self.pressure);
        map.insert(owned("风管长度"), self.length);
        map.insert(owned("风管宽度"), self.width);
        map.insert(owned("风管高度"), self.height);
        map.insert(owned("风管壁厚"), self.wall_thk);
        map.insert(owned("风管面积"), self.duct_area);
        map.insert(owned("风管重量"), self.duct_weight);
        map.insert(owned("加强筋型材"), self.stif_sctn);
        map.insert(owned("加强筋长度"), self.stif_len);
        map.insert(owned("加强筋重量"), self.stif_wei);
        map.insert(owned("法兰规格"), self.fl_type);
        map.insert(owned("法兰长度"), self.fl_len);
        map.insert(owned("法兰重量"), self.fl_wei);
        map.insert(owned("垫圈类型"), v1);
        map.insert(owned("垫圈长度"), self.washer_len);
        map.insert(owned("螺栓数量"), self.bolt_qty);
        map.insert(owned("其它材料类型"), self.other_type);
        map.insert(owned("其它材料数量"), self.other_qty);
        map.insert(owned("螺杆"), self.stud);
        map.insert(owned("螺母数量"), v2);
        map.insert(owned("螺母数量_2"), v3);
        map.insert(owned("所在房间号"), cell(self.room_no));
        map.insert(owned("系统"), self.system);
        assert(texts(map@) =~= map![
            "参考号"@ => old.id.pdms_text(),
            "描述"@ => old.description@,
            "管段编号"@ => old.seg_code@,
            "子项号"@ => old.sub_code@,
            "材质"@ => json_strings(string_views(old.material@)),
            "压力等级"@ => old.pressure@,
            "风管长度"@ => old.length@,
            "风管宽度"@ => old.width@,
            "风管高度"@ => old.height@,
            "风管壁厚"@ => old.wall_thk@,
            "风管面积"@ => old.duct_area@,
            "风管重量"@ => old.duct_weight@,
            "加强筋型材"@ => old.stif_sctn@,
            "加强筋长度"@ => old.stif_len@,
            "加强筋重量"@ => old.stif_wei@,
            "法兰规格"@ => old.fl_type@,
            "法兰长度"@ => old.fl_len@,
            "法兰重量"@ => old.fl_wei@,
            "垫圈类型"@ => json_strings(string_views(old.washer_type@)),
            "垫圈长度"@ => old.washer_len@,
            "螺栓数量"@ => old.bolt_qty@,
            "其它材料类型"@ => old.other_type@,
            "其它材料数量"@ => old.other_qty@,
            "螺杆"@ => old.stud@,
            "螺母数量"@ => json_ints(old.nut_qty@),
            "螺母数量_2"@ => json_ints(old.washer_qty@),
            "所在房间号"@ => cell_text(old.room_no),
            "系统"@ => old.system@,
        ]);
        map
    }
}

/// A tray or earthing row of the electrical list.
pub struct MaterialDqMaterialList {
    pub id: RefU64,
    pub num: Option<String>,
    pub project_num: Option<String>,
    pub project_name: Option<String>,
    pub major: String,
    pub room_code: Option<String>,
    pub name: String,
    pub pos: Option<String>,
    pub bran_type: Option<String>,
    pub material: Option<String>,
    pub width: Option<String>,
    pub height: Option<String>,
    pub size_num: Option<String>,
    pub b_painting: Option<String>,
    pub painting_color: Option<String>,
    pub b_cover: Option<String>,
    pub b_partition: Option<String>,
    pub partition_num: Option<String>,
    pub spre: Option<String>,
    pub catr: Option<String>,
    pub horizontal_or_vertical: Option<String>,
    pub stander_num: Option<String>,
    pub item_num: Option<String>,
    pub unit: Option<String>,
    pub count: Option<String>,
}

impl MaterialDqMaterialList {
    /// The tray columns; absent texts are empty and absent numbers `0`.
    pub fn into_hashmap(self) -> (r: StringHashMap<String>)
        ensures
            texts(r@) == map![
                "参考号"@ => self.id.pdms_text(),
                "机组号"@ => cell_text(self.num),
                "子项号"@ => cell_text(self.project_num),
                "元件等级名称"@ => cell_text(self.spre),
                "子项名称"@ => cell_text(self.project_name),
                "专业"@ => self.major@,
                "房间号"@ => cell_text(self.room_code),
                "托盘段号"@ => self.name@,
                "托盘标高"@ => cell_or_text(self.pos, "0"@),
                "托盘类型"@ => cell_text(self.bran_type),
                "材质"@ => cell_text(self.material),
                "托盘宽度mm"@ => cell_or_text(self.width, "0"@),
                "托盘高度mm"@ => cell_or_text(self.height, "0"@),
                "规格型号"@ => cell_or_text(self.size_num, "0"@),
                "是否刷漆"@ => cell_text(self.b_painting),
                "刷漆颜色"@ => cell_text(self.painting_color),
                "有无隔板"@ => cell_text(self.b_partition),
                "隔板编号"@ => cell_text(self.partition_num),
                "spre"@ => cell_text(self.spre),
                "catr"@ => cell_text(self.catr),
                "水平/竖向"@ => cell_text(self.horizontal_or_vertical),
                "标准号"@ => cell_text(self.stander_num),
                "物项编号"@ => cell_text(self.item_num),
                "单位"@ => cell_text(self.unit),
                "数量"@ => cell_or_text(self.count, "0"@),
            ],
    {
        let ghost old = self;
        let v0 = cell_ref(&self.spre);
        let v1 = cell_ref(&self.spre);
        let mut map: StringHashMap<String> = StringHashMap::new();
        map.insert(owned("参考号"), self.id.to_pdms_str());
        map.insert(owned("机组号"), cell(self.num));
        map.insert(owned("子项号"), cell(self.project_num));
        map.insert(owned("元件等级名称"), v0);
        map.insert(owned("子项名称"), cell(self.project_name));
        map.insert(owned("专业"), self.major);
        map.insert(owned("房间号"), cell(self.room_code));
        map.insert(owned("托盘段号"), self.name);
        map.insert(owned("托盘标高"), cell_or(self.pos, "0"));
        map.insert(owned("托盘类型"), cell(self.bran_type));
        map.insert(owned("材质"), cell(self.material));
        map.insert(owned("托盘宽度mm"), cell_or(self.width, "0"));
        map.insert(owned("托盘高度mm"), cell_or(self.height, "0"));
        map.insert(owned("规格型号"), cell_or(self.size_num, "0"));
        map.insert(owned("是否刷漆"), cell(self.b_painting));
        map.insert(owned("刷漆颜色"), cell(self.painting_color));
        map.insert(owned("有无隔板"), cell(self.b_partition));
        map.insert(owned("隔板编号"), cell(self.partition_num));
        map.insert(owned("spre"), v1);
        map.insert(owned("catr"), cell(self.catr));
        map.insert(owned("水平/竖向"), cell(self.horizontal_or_vertical));
        map.insert(owned("标准号"), cell(self.stander_num));
        map.insert(owned("物项编号"), cell(self.item_num));
        map.insert(owned("单位"), cell(self.unit));
        map.insert(owned("数量"), cell_or(self.count, "0"));
        assert(texts(map@) =~= map![
            "参考号"@ => old.id.pdms_text(),
            "机组号"@ => cell_text(old.num),
            "子项号"@ => cell_text(old.project_num),
            "元件等级名称"@ => cell_text(old.spre),
            "子项名称"@ => cell_text(old.project_name),
            "专业"@ => old.major@,
            "房间号"@ => cell_text(old.room_code),
            "托盘段号"@ => old.name@,
            "托盘标高"@ => cell_or_text(old.pos, "0"@),
            "托盘类型"@ => cell_text(old.bran_type),
            "材质"@ => cell_text(old.material),
            "托盘宽度mm"@ => cell_or_text(old.width, "0"@),
            "托盘高度mm"@ => cell_or_text(old.height, "0"@),
            "规格型号"@ => cell_or_text(old.size_num, "0"@),
            "是否刷漆"@ => cell_text(old.b_painting),
            "刷漆颜色"@ => cell_text(old.painting_color),
            "有无隔板"@ => cell_text(old.b_partition),
            "隔板编号"@ => cell_text(old.partition_num),
            "spre"@ => cell_text(old.spre),
            "catr"@ => cell_text(old.catr),
            "水平/竖向"@ => cell_text(old.horizontal_or_vertical),
            "标准号"@ => cell_text(old.stander_num),
            "物项编号"@ => cell_text(old.item_num),
            "单位"@ => cell_text(old.unit),
            "数量"@ => cell_or_text(old.count, "0"@),
        ]);
        map
    }
}

/// A tray support row of the electrical list.
pub struct MaterialDqMaterialListStru {
    pub id: RefU64,
    pub num: Option<String>,
    pub project_num: Option<String>,
    pub project_name: Option<String>,
    pub major: String,
    pub room_code: Option<String>,
    pub pos: Option<String>,
    pub material: Option<String>,
    pub width: Option<String>,
    pub height: Option<String>,
    pub supp_name: Option<String>,
    pub size_num: Option<String>,
    pub b_painting: Option<String>,
    pub painting_color: Option<String>,
    pub b_cover: Option<String>,
    pub b_partition: Option<String>,
    pub partition_num: Option<String>,
    pub spre: Option<String>,
    pub catr: Option<String>,
    pub horizontal_or_vertical: Option<String>,
    pub stander_num: Option<String>,
    pub item_num: Option<String>,
    pub unit: Option<String>,
    pub count: Option<String>,
}

impl MaterialDqMaterialListStru {
    /// The support columns; absent texts are empty and absent numbers `0` (the count is not listed).
    pub fn into_hashmap(self) -> (r: StringHashMap<String>)
        ensures
            texts(r@) == map![
                "参考号"@ => self.id.pdms_text(),
                "机组号"@ => cell_text(self.num),
                "子项号"@ => cell_text(self.project_num),
                "元件等级名称"@ => cell_text(self.spre),
                "子项名称"@ => cell_text(self.project_name),
                "专业"@ => self.major@,
                "房间号"@ => cell_text(self.room_code),
                "托盘标高"@ => cell_or_text(self.pos, "0"@),
                "材质"@ => cell_text(self.material),
                "托盘支吊架名称"@ => cell_text(self.supp_name),
                "托盘宽度mm"@ => cell_or_text(self.width, "0"@),
                "托盘高度mm"@ => cell_or_text(self.height, "0"@),
                "规格型号"@ => cell_text(self.size_num),
                "是否刷漆"@ => cell_text(self.b_painting),
                "刷漆颜色"@ => cell_text(self.painting_color),
                "有无隔板"@ => cell_text(self.b_partition),
                "隔板编号"@ => cell_text(self.partition_num),
                "spre"@ => cell_text(self.spre),
                "catr"@ => cell_text(self.catr),
                "水平/竖向"@ => cell_text(self.horizontal_or_vertical),
                "标准号"@ => cell_text(self.stander_num),
                "物项编号"@ => cell_text(self.item_num),
                "单位"@ => cell_text(self.unit),
            ],
    {
        let ghost old = self;
        let v0 = cell_ref(&self.spre);
        let v1 = cell_ref(&self.spre);
        let mut map: StringHashMap<String> = StringHashMap::new();
        map.insert(owned("参考号"), self.id.to_pdms_str());
        map.insert(owned("机组号"), cell(self.num));
        map.insert(owned("子项号"), cell(self.project_num));
        map.insert(owned("元件等级名称"), v0);
        map.insert(owned("子项名称"), cell(self.project_name));
        map.insert(owned("专业"), self.major);
        map.insert(owned("房间号"), cell(self.room_code));
        map.insert(owned("托盘标高"), cell_or(self.pos, "0"));
        map.insert(owned("材质"), cell(self.material));
        map.insert(owned("托盘支吊架名称"), cell(self.supp_name));
        map.insert(owned("托盘宽度mm"), cell_or(self.width, "0"));
        map.insert(owned("托盘高度mm"), cell_or(self.height, "0"));
        map.insert(owned("规格型号"), cell(self.size_num));
        map.insert(owned("是否刷漆"), cell(self.b_painting));
        map.insert(owned("刷漆颜色"), cell(self.painting_color));
        map.insert(owned("有无隔板"), cell(self.b_partition));
        map.insert(owned("隔板编号"), cell(self.partition_num));
        map.insert(owned("spre"), v1);
        map.insert(owned("catr"), cell(self.catr));
        map.insert(owned("水平/竖向"), cell(self.horizontal_or_vertical));
        map.insert(owned("标准号"), cell(self.stander_num));
        map.insert(owned("物项编号"), cell(self.item_num));
        map.insert(owned("单位"), cell(self.unit));
        assert(texts(map@) =~= map![
            "参考号"@ => old.id.pdms_text(),
            "机组号"@ => cell_text(old.num),
            "子项号"@ => cell_text(old.project_num),
            "元件等级名称"@ => cell_text(old.spre),
            "子项名称"@ => cell_text(old.project_name),
            "专业"@ => old.major@,
            "房间号"@ => cell_text(old.room_code),
            "托盘标高"@ => cell_or_text(old.pos, "0"@),
            "材质"@ => cell_text(old.material),
            "托盘支吊架名称"@ => cell_text(old.supp_name),
            "托盘宽度mm"@ => cell_or_text(old.width, "0"@),
            "托盘高度mm"@ => cell_or_text(old.height, "0"@),
            "规格型号"@ => cell_text(old.size_num),
            "是否刷漆"@ => cell_text(old.b_painting),
            "刷漆颜色"@ => cell_text(old.painting_color),
            "有无隔板"@ => cell_text(old.b_partition),
            "隔板编号"@ => cell_text(old.partition_num),
            "spre"@ => cell_text(old.spre),
            "catr"@ => cell_text(old.catr),
            "水平/竖向"@ => cell_text(old.horizontal_or_vertical),
            "标准号"@ => cell_text(old.stander_num),
            "物项编号"@ => cell_text(old.item_num),
            "单位"@ => cell_text(old.unit),
        ]);
        map
    }
}

/// An equipment row of the instrument list.
pub struct MaterialYkEquiListData {
    pub id: RefU64,
    pub equi_name: String,
    pub room_code: Option<String>,
    pub pos: Option<String>,
    pub floor_height: Option<String>,
}

impl MaterialYkEquiListData {
    /// The instrument equipment columns; an absent room is empty and an absent height `0`.
    pub fn into_hashmap(self) -> (r: StringHashMap<String>)
        ensures
            texts(r@) == map![
                "参考号"@ => self.id.pdms_text(),
                "仪控设备位号"@ => self.equi_name@,
                "所在房间号"@ => cell_text(self.room_code),
                "设备绝对标高"@ => cell_or_text(self.pos, "0"@),
                "设备相对楼板标高"@ => cell_or_text(self.floor_height, "0"@),
            ],
    {
        let ghost old = self;
        let mut map: StringHashMap<String> = StringHashMap::new();
        map.insert(owned("参考号"), self.id.to_pdms_str());
        map.insert(owned("仪控设备位号"), self.equi_name);
        map.insert(owned("所在房间号"), cell(self.room_code));
        map.insert(owned("设备绝对标高"), cell_or(self.pos, "0"));
        map.insert(owned("设备相对楼板标高"), cell_or(self.floor_height, "0"));
        assert(texts(map@) =~= map![
            "参考号"@ => old.id.pdms_text(),
            "仪控设备位号"@ => old.equi_name@,
            "所在房间号"@ => cell_text(old.room_code),
            "设备绝对标高"@ => cell_or_text(old.pos, "0"@),
            "设备相对楼板标高"@ => cell_or_text(old.floor_height, "0"@),
        ]);
        map
    }
}

/// A bulk material row of the water list.
pub struct MaterialGpsDzclData {
    pub id: RefU64,
    pub code: String,
    pub noun: String,
    pub radius: Option<String>,
    pub length: Option<String>,
    pub thick: Option<String>,
    pub count: Option<String>,
}

impl MaterialGpsDzclData {
    /// The water material columns; an absent diameter is `0.0`, other absent numbers `0`, and the length column shows the count.
    pub fn into_hashmap(self) -> (r: StringHashMap<String>)
        ensures
            texts(r@) == map![
                "参考号"@ => self.id.pdms_text(),
                "物项编码"@ => self.code@,
                "品名"@ => self.noun@,
                "外径/Φ"@ => cell_or_text(self.radius, "0.0"@),
                "长度"@ => cell_or_text(self.count, "0"@),
                "厚度"@ => cell_or_text(self.thick, "0"@),
                "数量"@ => cell_or_text(self.count, "0"@),
            ],
    {
        let ghost old = self;
        let mut map: StringHashMap<String> = StringHashMap::new();
        map.insert(owned("参考号"), self.id.to_pdms_str());
        map.insert(owned("物项编码"), self.code);
        map.insert(owned("品名"), self.noun);
        map.insert(owned("外径/Φ"), cell_or(self.radius, "0.0"));
        map.insert(owned("长度"), cell_or_ref(&self.count, "0"));
        map.insert(owned("厚度"), cell_or(self.thick, "0"));
        map.insert(owned("数量"), cell_or(self.count, "0"));
        assert(texts(map@) =~= map![
            "参考号"@ => old.id.pdms_text(),
            "物项编码"@ => old.code@,
            "品名"@ => old.noun@,
            "外径/Φ"@ => cell_or_text(old.radius, "0.0"@),
            "长度"@ => cell_or_text(old.count, "0"@),
            "厚度"@ => cell_or_text(old.thick, "0"@),
            "数量"@ => cell_or_text(old.count, "0"@),
        ]);
        map
    }
}

/// A device row of the communication list.
pub struct MaterialTxTxsbData {
    pub id: RefU64,
    pub equi_name: String,
    pub ptre_desc: String,
    pub belong_factory: String,
    pub room_code: Option<String>,
    pub x: Option<String>,
    pub y: Option<String>,
    pub z: Option<String>,
    pub ptre_name: String,
}

impl MaterialTxTxsbData {
    /// The device columns; an absent room is empty and an absent coordinate `0`.
    pub fn into_hashmap(self) -> (r: StringHashMap<String>)
        ensures
            texts(r@) == map![
                "参考号"@ => self.id.pdms_text(),
                "设备位号"@ => self.equi_name@,
                "设备名称"@ => self.ptre_desc@,
                "所属厂房的编号"@ => self.belong_factory@,
                "房间号"@ => cell_text(self.room_code),
                "全局坐标X"@ => cell_or_text(self.x, "0"@),
                "全局坐标Y"@ => cell_or_text(self.y, "0"@),
                "全局坐标Z"@ => cell_or_text(self.z, "0"@),
                "设备型号"@ => self.ptre_name@,
            ],
    {
        let ghost old = self;
        let mut map: StringHashMap<String> = StringHashMap::new();
        map.insert(owned("参考号"), self.id.to_pdms_str());
        map.insert(owned("设备位号"), self.equi_name);
        map.insert(owned("设备名称"), self.ptre_desc);
        map.insert(owned("所属厂房的编号"), self.belong_factory);
        map.insert(owned("房间号"), cell(self.room_code));
        map.insert(owned("全局坐标X"), cell_or(self.x, "0"));
        map.insert(owned("全局坐标Y"), cell_or(self.y, "0"));
        map.insert(owned("全局坐标Z"), cell_or(self.z, "0"));
        map.insert(owned("设备型号"), self.ptre_name);
        assert(texts(map@) =~= map![
            "参考号"@ => old.id.pdms_text(),
            "设备位号"@ => old.equi_name@,
            "设备名称"@ => old.ptre_desc@,
            "所属厂房的编号"@ => old.belong_factory@,
            "房间号"@ => cell_text(old.room_code),
            "全局坐标X"@ => cell_or_text(old.x, "0"@),
            "全局坐标Y"@ => cell_or_text(old.y, "0"@),
            "全局坐标Z"@ => cell_or_text(old.z, "0"@),
            "设备型号"@ => old.ptre_name@,
        ]);
        map
    }
}

/// An equipment row of the equipment list, with the groups of its rails.
pub struct MaterialSbListData {
    pub id: RefU64,
    pub name: String,
    pub pos: Option<String>,
    pub length: Option<String>,
    pub room_code: Option<String>,
    pub boxs: Vec<Vec<String>>,
}

impl MaterialSbListData {
    /// The equipment columns; an absent room is empty and an absent number `0`.
    pub fn into_hashmap(self) -> (r: StringHashMap<String>)
        ensures
            texts(r@) == map![
                "参考号"@ => self.id.pdms_text(),
                "设备位号"@ => self.name@,
                "所在房间"@ => cell_text(self.room_code),
                "轨道长度"@ => cell_or_text(self.length, "0"@),
                "安装标高"@ => cell_or_text(self.pos, "0"@),
            ],
    {
        let ghost old = self;
        let mut map: StringHashMap<String> = StringHashMap::new();
        map.insert(owned("参考号"), self.id.to_pdms_str());
        map.insert(owned("设备位号"), self.name);
        map.insert(owned("所在房间"), cell(self.room_code));
        map.insert(owned("轨道长度"), cell_or(self.length, "0"));
        map.insert(owned("安装标高"), cell_or(self.pos, "0"));
        assert(texts(map@) =~= map![
            "参考号"@ => old.id.pdms_text(),
            "设备位号"@ => old.name@,
            "所在房间"@ => cell_text(old.room_code),
            "轨道长度"@ => cell_or_text(old.length, "0"@),
            "安装标高"@ => cell_or_text(old.pos, "0"@),
        ]);
        map
    }
}

/// A valve row of the heating list.
pub struct MaterialNtValvData {
    pub id: RefU64,
    pub name: String,
    pub room_code: Option<String>,
    pub bran_name: String,
    pub valv_size: String,
    pub material: String,
    pub valv_use: String,
}

impl MaterialNtValvData {
    /// The valve columns; an absent room is empty.
    pub fn into_hashmap(self) -> (r: StringHashMap<String>)
        ensures
            texts(r@) == map![
                "参考号"@ => self.id.pdms_text(),
                "阀门位号"@ => self.name@,
                "所在房间号"@ => cell_text(self.room_code),
                "阀门归属"@ => self.bran_name@,
                "阀门尺寸"@ => self.valv_size@,
                "阀门材质"@ => self.material@,
                "阀门功能"@ => self.valv_use@,
            ],
    {
        let ghost old = self;
        let mut map: StringHashMap<String> = StringHashMap::new();
        map.insert(owned("参考号"), self.id.to_pdms_str());
        map.insert(owned("阀门位号"), self.name);
        map.insert(owned("所在房间号"), cell(self.room_code));
        map.insert(owned("阀门归属"), self.bran_name);
        map.insert(owned("阀门尺寸"), self.valv_size);
        map.insert(owned("阀门材质"), self.material);
        map.insert(owned("阀门功能"), self.valv_use);
        assert(texts(map@) =~= map![
            "参考号"@ => old.id.pdms_text(),
            "阀门位号"@ => old.name@,
            "所在房间号"@ => cell_text(old.room_code),
            "阀门归属"@ => old.bran_name@,
            "阀门尺寸"@ => old.valv_size@,
            "阀门材质"@ => old.material@,
            "阀门功能"@ => old.valv_use@,
        ]);
        map
    }
}

/// The rail of an equipment group: the equipment it belongs to, its
/// height and its length, as shown.
pub struct MaterialSubeData {
    pub refno: RefU64,
    pub pos: Option<String>,
    pub length: Option<String>,
}

} // verus!
