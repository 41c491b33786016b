//! Material-list rows and their conversion into named columns.
//!
//! Each row type becomes a map from the Chinese column title to the cell
//! text; ventilation rows are renamed column by column through a fixed
//! title table; equipment trays keep their first box group.
use vstd::prelude::*;
use vstd::hash_map::StringHashMap;
use crate::refno::RefU64;
use crate::text::{chars_of, has_prefix, has_substring, occurs_at_exec, owned, str_contains, str_equal};

verus! {

/// The texts of a string-valued map.
pub open spec fn texts(m: Map<Seq<char>, String>) -> Map<Seq<char>, Seq<char>> {
    m.map_values(|s: String| s@)
}

/// A process (工艺) material row.
pub struct MaterialGyData {
    pub id: RefU64,
    pub code: String,
    pub noun: String,
}

impl MaterialGyData {
    /// The columns 参考号, 编码 and 类型.
    pub fn into_hashmap(self) -> (r: StringHashMap<String>)
        ensures
            texts(r@) == map![
                "参考号"@ => self.id.pdms_text(),
                "编码"@ => self.code@,
                "类型"@ => self.noun@,
            ],
    {
        let mut map: StringHashMap<String> = StringHashMap::new();
        map.insert(owned("参考号"), self.id.to_pdms_str());
        map.insert(owned("编码"), self.code);
        map.insert(owned("类型"), self.noun);
        assert(texts(map@) =~= map![
            "参考号"@ => self.id.pdms_text(),
            "编码"@ => self.code@,
            "类型"@ => self.noun@,
        ]);
        map
    }

    /// The columns 参考号, 编码 and 品名, as the instrument list names them.
    pub fn into_yk_hashmap(self) -> (r: StringHashMap<String>)
        ensures
            texts(r@) == map![
                "参考号"@ => self.id.pdms_text(),
                "编码"@ => self.code@,
                "品名"@ => self.noun@,
            ],
    {
        let mut map: StringHashMap<String> = StringHashMap::new();
        map.insert(owned("参考号"), self.id.to_pdms_str());
        map.insert(owned("编码"), self.code);
        map.insert(owned("品名"), self.noun);
        assert(texts(map@) =~= map![
            "参考号"@ => self.id.pdms_text(),
            "编码"@ => self.code@,
            "品名"@ => self.noun@,
        ]);
        map
    }
}

/// An instrument (仪控) row.
pub struct MaterialYkInstData {
    pub id: RefU64,
    pub name: String,
    pub pipe_name: Option<String>,
    pub room_code: Option<String>,
}

/// The text of an optional cell, empty when absent.
#[verifier::opaque]
pub open spec fn cell_text(v: Option<String>) -> Seq<char> {
    match v {
        Some(s) => s@,
        None => Seq::empty(),
    }
}

/// An optional cell, empty when absent.
pub(crate) fn cell(v: Option<String>) -> (r: String)
    ensures
        r@ == cell_text(v),
{
    reveal(cell_text);
    match v {
        Some(s) => s,
        None => String::new(),
    }
}

impl MaterialYkInstData {
    /// The columns 参考号, 传感器标识, 对应根阀编号 and 房间号; absent
    /// cells are empty.
    pub fn into_hashmap(self) -> (r: StringHashMap<String>)
        ensures
            texts(r@) == map![
                "参考号"@ => self.id.pdms_text(),
                "传感器标识"@ => self.name@,
                "对应根阀编号"@ => cell_text(self.pipe_name),
                "房间号"@ => cell_text(self.room_code),
            ],
    {
        let mut map: StringHashMap<String> = StringHashMap::new();
        map.insert(owned("参考号"), self.id.to_pdms_str());
        map.insert(owned("传感器标识"), self.name);
        map.insert(owned("对应根阀编号"), cell(self.pipe_name));
        map.insert(owned("房间号"), cell(self.room_code));
        assert(texts(map@) =~= map![
            "参考号"@ => self.id.pdms_text(),
            "传感器标识"@ => self.name@,
            "对应根阀编号"@ => cell_text(self.pipe_name),
            "房间号"@ => cell_text(self.room_code),
        ]);
        map
    }
}

/// The column titles of the ventilation material list, by field name.
pub open spec fn hvac_titles() -> Map<Seq<char>, Seq<char>> {
    map![
        "id"@ => "参考号"@,
        "description"@ => "描述"@,
        "seg_code"@ => "管段编号"@,
        "sub_code"@ => "子项号"@,
        "material"@ => "材质"@,
        "pressure"@ => "压力等级"@,
        "length"@ => "风管长度"@,
        "width"@ => "风管宽度"@,
        "height"@ => "风管高度"@,
        "wall_thk"@ => "风管壁厚"@,
        "duct_area"@ => "风管面积"@,
        "duct_weight"@ => "法兰重量"@,
        "stif_sctn"@ => "加强筋型材"@,
        "stif_len"@ => "加强筋长度"@,
        "stif_wei"@ => "加强筋重量"@,
        "fl_type"@ => "法兰规格"@,
        "fl_len"@ => "法兰长度"@,
        "fl_wei"@ => "法兰重量"@,
        "washer_type"@ => "垫圈类型"@,
        "washer_len"@ => "垫圈长度"@,
        "bolt_qty"@ => "螺栓数量"@,
        "other_type"@ => "其它材料类型"@,
        "other_qty"@ => "其它材料数量"@,
        "stud"@ => "螺杆"@,
        "nut_qty"@ => "螺母数量"@,
        "washer_qty"@ => "螺母数量_2"@,
        "room_no"@ => "所在房间号"@,
        "system"@ => "系统"@,
    ]
}

/// Adds `title => text` to `map`.
fn put(map: &mut StringHashMap<String>, key: &str, title: &str)
    ensures
        final(map)@ == old(map)@.insert(key@, final(map)@[key@]),
        final(map)@[key@]@ == title@,
{
    map.insert(owned(key), owned(title));
}

/// The table from field names to Chinese column titles of the ventilation
/// material list.
pub fn get_hvac_chinese_name_map() -> (r: StringHashMap<String>)
    ensures
        texts(r@) == hvac_titles(),
{
    let mut m: StringHashMap<String> = StringHashMap::new();
    put(&mut m, "id", "参考号");
    put(&mut m, "description", "描述");
    put(&mut m, "seg_code", "管段编号");
    put(&mut m, "sub_code", "子项号");
    put(&mut m, "material", "材质");
    put(&mut m, "pressure", "压力等级");
    put(&mut m, "length", "风管长度");
    put(&mut m, "width", "风管宽度");
    put(&mut m, "height", "风管高度");
    put(&mut m, "wall_thk", "风管壁厚");
    put(&mut m, "duct_area", "风管面积");
    put(&mut m, "duct_weight", "法兰重量");
    put(&mut m, "stif_sctn", "加强筋型材");
    put(&mut m, "stif_len", "加强筋长度");
    put(&mut m, "stif_wei", "加强筋重量");
    put(&mut m, "fl_type", "法兰规格");
    put(&mut m, "fl_len", "法兰长度");
    put(&mut m, "fl_wei", "法兰重量");
    put(&mut m, "washer_type", "垫圈类型");
    put(&mut m, "washer_len", "垫圈长度");
    put(&mut m, "bolt_qty", "螺栓数量");
    put(&mut m, "other_type", "其它材料类型");
    put(&mut m, "other_qty", "其它材料数量");
    put(&mut m, "stud", "螺杆");
    put(&mut m, "nut_qty", "螺母数量");
    put(&mut m, "washer_qty", "螺母数量_2");
    put(&mut m, "room_no", "所在房间号");
    put(&mut m, "system", "系统");
    assert(texts(m@) =~= hvac_titles());
    m
}

/// One ventilation row with its columns renamed by `titles`: fields
/// without a title are dropped, and when two fields share a title the
/// earlier one is kept.
pub open spec fn renamed_row(row: Seq<(String, String)>, titles: Map<Seq<char>, Seq<char>>) -> Map<
    Seq<char>,
    String,
>
    decreases row.len(),
{
    if row.len() == 0 {
        Map::empty()
    } else {
        let m = renamed_row(row.drop_last(), titles);
        let k = row.last().0;
        let v = row.last().1;
        if titles.contains_key(k@) && !m.contains_key(titles[k@]) {
            m.insert(titles[k@], v)
        } else {
            m
        }
    }
}

/// Renames the fields of one row.
fn rename_row(row: Vec<(String, String)>, titles: &StringHashMap<String>) -> (r: StringHashMap<String>)
    ensures
        r@ == renamed_row(row@, texts(titles@)),
{
    let ghost all = row@;
    let count = row.len();
    let mut map: StringHashMap<String> = StringHashMap::new();
    for pair in it: row
        invariant
            it.seq() == all,
            map@ == renamed_row(all.take(it.index() as int), texts(titles@)),
    {
        let ghost i = it.index();
        assert(all.take(i + 1).drop_last() =~= all.take(i as int));
        assert(all.take(i + 1).last() == pair);
        let (k, v) = pair;
        match titles.get(k.as_str()) {
            Some(title) => {
                if !map.contains_key(title.as_str()) {
                    map.insert(title.clone(), v);
                }
            },
            None => {},
        }
    }
    assert(all.take(count as int) =~= all);
    map
}

/// Renames the columns of ventilation rows to their Chinese titles. Each row
/// is given as (field name, cell text) pairs in field order.
pub fn change_hvac_result_to_map(input: Vec<Vec<(String, String)>>) -> (r: Vec<
    StringHashMap<String>,
>)
    ensures
        r@.len() == input@.len(),
        forall|i: int| 0 <= i < input@.len() ==> #[trigger] r@[i]@ == renamed_row(input@[i]@, hvac_titles()),
{
    let titles = get_hvac_chinese_name_map();
    let ghost rows = input@;
    let mut result: Vec<StringHashMap<String>> = Vec::new();
    for row in it: input
        invariant
            it.seq() == rows,
            texts(titles@) == hvac_titles(),
            result@.len() == it.index(),
            forall|i: int| 0 <= i < it.index() ==> #[trigger] result@[i]@ == renamed_row(rows[i]@, hvac_titles()),
    {
        let ghost i = it.index();
        assert(rows[i as int] == row);
        let m = rename_row(row, &titles);
        result.push(m);
    }
    result
}

/// A group of tray items made only of boxes: three or four items, each
/// named `BOX:...`.
pub open spec fn is_box_group(g: Seq<Seq<char>>) -> bool {
    &&& (g.len() == 3 || g.len() == 4)
    &&& forall|i: int| 0 <= i < g.len() ==> has_prefix(#[trigger] g[i], "BOX:"@)
}

/// The first box group among `groups`, if any.
pub open spec fn first_box_group(groups: Seq<Seq<Seq<char>>>) -> Option<Seq<Seq<char>>>
    decreases groups.len(),
{
    if groups.len() == 0 {
        None
    } else if is_box_group(groups[0]) {
        Some(groups[0])
    } else {
        first_box_group(groups.drop_first())
    }
}

/// The first box groups of the trays that have one, in tray order.
pub open spec fn box_groups_of(trays: Seq<Seq<Seq<Seq<char>>>>) -> Seq<Seq<Seq<char>>>
    decreases trays.len(),
{
    if trays.len() == 0 {
        Seq::empty()
    } else {
        let rest = box_groups_of(trays.drop_last());
        match first_box_group(trays.last()) {
            Some(g) => rest.push(g),
            None => rest,
        }
    }
}

/// Whether every item of a group is named `BOX:...` and the group has three
/// or four items.
fn box_group_exec(g: &Vec<String>) -> (r: bool)
    ensures
        r == is_box_group(g.deep_view()),
{
    let n = g.len();
    if n != 3 && n != 4 {
        return false;
    }
    let marker = chars_of("BOX:");
    let mut i: usize = 0;
    while i < n
        invariant
            n == g.len(),
            i <= n,
            marker@ == "BOX:"@,
            forall|k: int| 0 <= k < i ==> has_prefix(#[trigger] g.deep_view()[k], "BOX:"@),
        decreases n - i,
    {
        let item = chars_of(g[i].as_str());
        assert(g.deep_view()[i as int] == g[i as int]@);
        if !occurs_at_exec(&item, &marker, 0) {
            return false;
        }
        i = i + 1;
    }
    true
}

/// The first box group of one tray.
fn first_box_exec(groups: Vec<Vec<String>>) -> (r: Option<Vec<String>>)
    ensures
        match first_box_group(groups.deep_view()) {
            Some(g) => r matches Some(v) && v.deep_view() == g,
            None => r is None,
        },
{
    let ghost all = groups.deep_view();
    let count = groups.len();
    assert(all.skip(0) =~= all);
    for g in it: groups
        invariant
            all == groups.deep_view(),
            all == it.seq().map_values(|v: Vec<String>| v.deep_view()),
            it.index() <= all.len(),
            first_box_group(all.skip(it.index() as int)) == first_box_group(all),
    {
        let ghost i = it.index();
        assert(all[i as int] == g.deep_view());
        assert(all.skip(i as int).drop_first() =~= all.skip(i + 1));
        if box_group_exec(&g) {
            assert(all.skip(i as int)[0] == all[i as int]);
            assert(first_box_group(all.skip(i as int)) == Some(all[i as int]));
            return Some(g);
        }
    }
    assert(all.skip(count as int) =~= Seq::<Seq<Seq<char>>>::empty());
    None
}

/// For every tray (a list of item groups) that has a box group, the first
/// such group, in tray order.
pub fn filter_equi_children(datas: Vec<Vec<Vec<String>>>) -> (r: Vec<Vec<String>>)
    ensures
        r.deep_view() == box_groups_of(datas.deep_view()),
{
    let ghost all = datas.deep_view();
    let count = datas.len();
    let mut result: Vec<Vec<String>> = Vec::new();
    for data in it: datas
        invariant
            all == it.seq().map_values(|v: Vec<Vec<String>>| v.deep_view()),
            it.index() <= all.len(),
            result.deep_view() == box_groups_of(all.take(it.index() as int)),
    {
        let ghost i = it.index();
        assert(all[i as int] == data.deep_view());
        assert(all.take(i + 1).drop_last() =~= all.take(i as int));
        let ghost before = result.deep_view();
        match first_box_exec(data) {
            Some(g) => {
                let ghost gv = g.deep_view();
                result.push(g);
                assert(result.deep_view() =~= before.push(gv));
            },
            None => {},
        }
    }
    assert(all.take(count as int) =~= all);
    result
}

/// The material lists that can be fetched for a site.
#[derive(Clone, Copy, Debug, PartialEq, Eq, Structural)]
pub enum MaterialList {
    /// Process bulk materials (with bends and tubes).
    GyDzcl,
    /// Process equipment.
    GyEqui,
    /// Process valves.
    GyValv,
    /// Instrument bulk materials.
    YkDzcl,
    /// Instrument pipes.
    YkInstPipe,
    /// Instrument equipment.
    YkEqui,
    /// Ventilation duct segments.
    TfHvac,
    /// Electrical trays and earthing (two result sets).
    DqBran,
    /// Communication systems.
    TxTxsb,
    /// Water supply and drainage bulk materials.
    GpsDzcl,
    /// Equipment bulk materials.
    SbDzcl,
    /// Heating and ventilation valves.
    NtValv,
}

/// One step of saving material lists: fetch a list and store it in a table.
#[derive(Clone, Copy, Debug)]
pub struct MaterialJob {
    pub list: MaterialList,
    pub table: &'static str,
    /// Whether a failed fetch ends the whole run (otherwise it is logged and
    /// the run goes on).
    pub abort_on_error: bool,
}

/// The jobs of each discipline code, in order.
pub open spec fn jobs_of_major(major: Seq<char>) -> Seq<(MaterialList, Seq<char>, bool)> {
    if major == "T"@ {
        seq![
            (MaterialList::GyDzcl, "material_gy_list"@, false),
            (MaterialList::GyEqui, "material_gy_equi"@, false),
            (MaterialList::GyValv, "material_gy_valv"@, false),
        ]
    } else if major == "I"@ {
        seq![
            (MaterialList::YkDzcl, "material_inst_list"@, true),
            (MaterialList::YkInstPipe, "material_inst_pipe"@, true),
            (MaterialList::YkEqui, "material_inst_equi"@, true),
        ]
    } else if major == "V"@ {
        seq![(MaterialList::TfHvac, "material_hvac_pipe"@, true)]
    } else if major == "E"@ {
        seq![(MaterialList::DqBran, "material_elec_list"@, true)]
    } else if major == "TX"@ {
        seq![(MaterialList::TxTxsb, "material_tx_list"@, true)]
    } else if major == "W"@ {
        seq![(MaterialList::GpsDzcl, "material_gps_list"@, true)]
    } else if major == "SB"@ {
        seq![(MaterialList::SbDzcl, "material_sb_list"@, true)]
    } else if major == "N"@ {
        seq![(MaterialList::NtValv, "material_nt_valv"@, true)]
    } else {
        Seq::empty()
    }
}

/// The jobs as plain values.
pub open spec fn job_views(jobs: Seq<MaterialJob>) -> Seq<(MaterialList, Seq<char>, bool)> {
    jobs.map_values(|j: MaterialJob| (j.list, j.table@, j.abort_on_error))
}

fn job(list: MaterialList, table: &'static str, abort_on_error: bool) -> (r: MaterialJob)
    ensures
        r.list == list,
        r.table@ == table@,
        r.abort_on_error == abort_on_error,
{
    MaterialJob { list, table, abort_on_error }
}

/// The material lists of a discipline and the tables they go to: process
/// (`T`), instrument (`I`), ventilation (`V`), electrical (`E`),
/// communication (`TX`), water (`W`), equipment (`SB`) and heating (`N`);
/// other codes have none.
pub fn material_jobs(major: &str) -> (r: Vec<MaterialJob>)
    ensures
        job_views(r@) == jobs_of_major(major@),
{
    let mut r: Vec<MaterialJob> = Vec::new();
    if str_equal(major, "T") {
        r.push(job(MaterialList::GyDzcl, "material_gy_list", false));
        r.push(job(MaterialList::GyEqui, "material_gy_equi", false));
        r.push(job(MaterialList::GyValv, "material_gy_valv", false));
    } else if str_equal(major, "I") {
        r.push(job(MaterialList::YkDzcl, "material_inst_list", true));
        r.push(job(MaterialList::YkInstPipe, "material_inst_pipe", true));
        r.push(job(MaterialList::YkEqui, "material_inst_equi", true));
    } else if str_equal(major, "V") {
        r.push(job(MaterialList::TfHvac, "material_hvac_pipe", true));
    } else if str_equal(major, "E") {
        r.push(job(MaterialList::DqBran, "material_elec_list", true));
    } else if str_equal(major, "TX") {
        r.push(job(MaterialList::TxTxsb, "material_tx_list", true));
    } else if str_equal(major, "W") {
        r.push(job(MaterialList::GpsDzcl, "material_gps_list", true));
    } else if str_equal(major, "SB") {
        r.push(job(MaterialList::SbDzcl, "material_sb_list", true));
    } else if str_equal(major, "N") {
        r.push(job(MaterialList::NtValv, "material_nt_valv", true));
    }
    assert(job_views(r@) =~= jobs_of_major(major@));
    r
}

/// The jobs run for a site when all material lists are saved: those of
/// the site's discipline, the same as [`material_jobs`]; a site of no known
/// discipline gets none.
pub fn save_jobs_for_site(major: &str) -> (r: Vec<MaterialJob>)
    ensures
        job_views(r@) == jobs_of_major(major@),
{
    material_jobs(major)
}

/// A site is searched for a discipline's materials when it is not a `SITE`
/// element or when its name carries the discipline's marker.
pub open spec fn site_in_scope(noun: Seq<char>, name: Seq<char>, marker: Seq<char>) -> bool {
    noun == "SITE"@ ==> has_substring(name, marker)
}

/// Whether an element is searched for the materials of the discipline whose
/// site names carry `marker` (`PIPE`, `ELEC`, `INST`, `EQUI`, `HVAC`).
pub fn site_matches_discipline(noun: &str, name: &str, marker: &str) -> (r: bool)
    ensures
        r == site_in_scope(noun@, name@, marker@),
{
    !str_equal(noun, "SITE") || str_contains(name, marker)
}

} // verus!
