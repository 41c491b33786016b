//! The statements that read the discipline material lists, and the
//! decisions around them: which sites and zones are searched, which child
//! elements each statement reads, and how the equipment rails are merged.
use vstd::prelude::*;
use crate::json::{json_string_rows, json_strings, string_rows_to_json, string_views, strings_to_json};
use crate::material::{site_in_scope, MaterialList};
use crate::material_rows::{MaterialSbListData, MaterialSubeData};
use crate::refno::{pe_key_text, RefU64};
use crate::text::{has_substring, owned, push_str, str_contains, str_equal};

verus! {

/// Head of the statement for: process bends: code, part and arc length.
pub const GY_BEND_HEAD: &'static str = r#"select
    id as id,
    string::split(string::split(if refno.SPRE.name == NONE { "//:" } else { refno.SPRE.name },'/')[2],':')[0] as code, // 编码
    refno.TYPE as noun, // 部件
    math::fixed((refno.ANGL / 360) * 2 * 3.1415 * refno.SPRE.refno.CATR.refno.PARA[1],2) as count // 长度
    from "#;

/// Head of the statement for: process pipe runs of each branch: code and length.
pub const GY_TUBI_HEAD: &'static str = r#"
    select value (select leave as id,
    (select value ( if leave.refno.LSTU.refno.NAME != NONE { string::split(array::at(string::split(leave.refno.LSTU.name, '/'), 2), ':')[0] } else if leave.refno.HSTU.refno.NAME != NONE {
    string::split(array::at(string::split(leave.refno.HSTU.name, '/'), 2), ':')[0]
    } else { '' }  ) from $self)[0]  as code,
    'TUBI' as noun,
    world_trans.d.scale[2] as count from ->tubi_relate) from "#;

/// Head of the statement for: process fittings (elbows, tees, flanges, gaskets, olets, reducers, caps, couplings): code and part.
pub const GY_FITTING_HEAD: &'static str = r#"select
    id as id,
    string::split(string::split(if refno.SPRE.name == NONE { "//:" } else { refno.SPRE.name },'/')[2],':')[0] as code, // 编码
    refno.TYPE as noun // 部件
    from "#;

/// Head of the statement for: process valves and inline instruments: tag, room, owner, length, weight, centre of gravity, support.
pub const GY_VALV_HEAD: &'static str = r#"select
        id,
        fn::default_name(id) as valv_name, // 阀门位号
        fn::room_code($this.id)[0] as room_code, // 房间号
        string::split(string::slice(array::at(->pe_owner.out.name,0),1),'-')[0] as valv_belong, // 阀门归属
        if refno.SPRE.refno.CATR.refno.PARA[1] == NONE { 0 } else { refno.SPRE.refno.CATR.refno.PARA[1] } * 2 as valv_length, // 阀门长度
        if refno.SPRE.refno.CATR.refno.NAME != NONE && string::slice(refno.SPRE.refno.CATR.refno.NAME,4,1) != "R" { refno.SPRE.refno.CATR.refno.PARA[10] } else if refno.SPRE.refno.CATR.refno.NAME != NONE && string::slice(refno.SPRE.refno.CATR.refno.NAME,4,1) == "R" { refno.SPRE.refno.CATR.refno.PARA[14] } else { 0 } as valv_weight, // 阀门重量
        if refno.SPRE.refno.CATR.refno.NAME != NONE && string::slice(refno.SPRE.refno.CATR.refno.NAME,4,1) != "R" { refno.SPRE.refno.CATR.refno.PARA[7] } else if refno.SPRE.refno.CATR.refno.NAME != NONE && string::slice(refno.SPRE.refno.CATR.refno.NAME,4,1) == "R" { refno.SPRE.refno.CATR.refno.PARA[11] } else { 0 } as valv_x, // 阀门重心X
        if refno.SPRE.refno.CATR.refno.NAME != NONE && string::slice(refno.SPRE.refno.CATR.refno.NAME,4,1) != "R" { refno.SPRE.refno.CATR.refno.PARA[8] } else if refno.SPRE.refno.CATR.refno.NAME != NONE && string::slice(refno.SPRE.refno.CATR.refno.NAME,4,1) == "R" { refno.SPRE.refno.CATR.refno.PARA[12] } else { 0 } as valv_y, // 阀门重心Y
        if refno.SPRE.refno.CATR.refno.NAME != NONE && string::slice(refno.SPRE.refno.CATR.refno.NAME,4,1) != "R" { refno.SPRE.refno.CATR.refno.PARA[9] } else if refno.SPRE.refno.CATR.refno.NAME != NONE && string::slice(refno.SPRE.refno.CATR.refno.NAME,4,1) == "R" { refno.SPRE.refno.CATR.refno.PARA[13] } else { 0 } as valv_z, // 阀门重心Z
        fn::valv_b_supp(id) as valv_supp // 阀门支架
        from "#;

/// Head of the statement for: process equipment: tag, room and nozzles.
pub const GY_EQUI_HEAD: &'static str = r#"select
        id,
        string::slice(refno.NAME,1) as name, // 设备位号
        fn::room_code($this.id)[0] as room_code, // 房间号
        fn::default_names(array::flatten([<-pe_owner[where in.noun='NOZZ']<-pe,  <-pe_owner.in<-pe_owner[where in.noun='NOZZ'].in])) as nozz_name, // 管口号
        array::clump(array::flatten([<-pe_owner[where in.noun='NOZZ']<-pe.refno.POS,  <-pe_owner.in<-pe_owner[where in.noun='NOZZ'].in.refno.POS]),3) as nozz_pos, // 管口坐标

        (select value if (name == NONE) { '' } else { string::slice(name, 1) } from array::flatten([<-pe_owner[where in.noun='NOZZ']<-pe,  <-pe_owner.in<-pe_owner[where in.noun='NOZZ'].in])) as nozz_cref // 相连管道编号
        from "#;

/// Head of the statement for: electrical tray branches.
pub const DQ_BRAN_HEAD: &'static str = r#"select
        id,
        string::slice(fn::find_ancestor_type($this.id,"SITE")[0].refno.NAME,1,1) as num, // 机组号
        string::slice(string::split(fn::find_ancestor_type($this.id,"SITE")[0].refno.NAME,'-')[0],2) as project_num, //子项号
        if string::contains(fn::find_ancestor_type($this.id,"SITE")[0].refno.NAME,'MCT') || string::contains(fn::default_name(fn::find_ancestor_type($this.id,"ZONE")[0]),'MSUP')  { '主托盘' } else { '次托盘' } as major,//专业
        fn::find_ancestor_type($this.id,"SITE")[0].refno.DESC as project_name, //子项名称
        fn::room_code($this.id)[0] as room_code,
        fn::default_name($this.id) as name,// 托盘段号
        refno.HPOS[2] as pos, // 托盘标高
        //<-pe_owner[where in.noun!='ATTA'] order by order_num,

        fn::dq_bran_type($this.id) as bran_type, // 托盘类型
        '碳钢Q235' as material, // 材质
        (select value (select value v from only udas.* where u.NAME =='/BranWidth' limit 1) from type::thing("ATT_UDA", meta::id(id)))[0][0] as width, // 托盘宽度
        (select value (select value v from only udas.* where u.NAME =='/BranHigh' limit 1) from type::thing("ATT_UDA", meta::id(id)))[0][0] as height, // 托盘高度
        if (select value (select value v from only udas.* where u.NAME =='/BranWidth' limit 1) from type::thing("ATT_UDA", meta::id(id)))[0][0] == NONE { 0 } else { (select value (select value v from only udas.* where u.NAME=='/BranWidth' limit 1) from type::thing("ATT_UDA", meta::id(id)))[0][0] } * if (select value (select value v from only udas.* where u.NAME=='/BranHigh' limit 1) from type::thing("ATT_UDA", meta::id(id)))[0][0] == NONE { 0 } else { (select value (select value v from only udas.* where u.NAME=='/BranHigh' limit 1) from type::thing("ATT_UDA", meta::id(id)))[0][0] } as size_num, // 规格型号
        'Y' as b_painting, // 是否刷漆
        string::split(fn::default_name($this.id),'-')[1] as painting_color,
        if (select value in from only (select * from <-pe_owner[where in.noun != 'ATTA'] order by order_num) limit 1).refno.DESP[2] == 1 { '是' } else { '否' } as b_cover, //有无盖板
        if refno.DESC == NONE { '无' } else { '是' } as b_partition, // 有无隔板
        refno.DESC as partition_num, // 隔板编号
        (select value in from only (select * from <-pe_owner[where in.noun != 'ATTA'] order by order_num) limit 1).refno.SPRE.refno.NAME as spre,
        (select value in from only (select * from <-pe_owner[where in.noun != 'ATTA'] order by order_num) limit 1).refno.SPRE.refno.CATR.refno.NAME as catr,
        fn::dq_horizontal_or_vertical($this.id) as horizontal_or_vertical
        from "#;

/// Head of the statement for: electrical tray supports.
pub const DQ_STRU_HEAD: &'static str = r#"select id,
        string::slice(fn::find_ancestor_type($this.id,"SITE")[0].refno.NAME,1,1) as num, // 机组号
        string::slice(string::split(fn::find_ancestor_type($this.id,"SITE")[0].refno.NAME,'-')[0],2) as project_num, //子项号
        fn::find_ancestor_type($this.id,"SITE")[0].refno.DESC as project_name, //子项名称
        '支吊架' as major,//专业
        fn::room_code($this.id)[0] as room_code, // 房间号
        fn::default_name($this.id) as supp_name, // 托盘支吊架名称
        '碳钢Q355' as material,  //材质
        if (<-pe_owner.in<-pe_owner[where in.noun='SCTN'|| in.noun = 'GENSEC'].in.refno.SPRE.name)[0] == NONE { '' }
        else { array::last(string::split((<-pe_owner.in<-pe_owner[where in.noun='SCTN'|| in.noun = 'GENSEC'].in.refno.SPRE.name)[0],'-')) } as size_num, // 规格型号
        (<-pe_owner.in<-pe_owner[where in.noun='SCTN'|| in.noun = 'GENSEC'].in.refno.SPRE.name)[0] as spre,
        (<-pe_owner.in<-pe_owner[where in.noun='SCTN'|| in.noun = 'GENSEC'].in.refno.SPRE.refno.CATR.refno.NAME)[0] as catr,
        '2' as count // 数量
        from "#;

/// Head of the statement for: electrical earthing runs.
pub const DQ_GENSEC_HEAD: &'static str = r#"select id,
            string::slice(fn::find_ancestor_type($this.id,"SITE")[0].NAME,1,1) as num, // 机组号
            string::slice(string::split(fn::find_ancestor_type($this.id,"SITE")[0].NAME,'-')[0],2) as project_num, //子项号
            fn::find_ancestor_type($this.id,"SITE")[0].NAME.DESC as project_name, //子项名称
            '主托盘接地' as major,//专业
            fn::room_code($this.id)[0] as room_code, // 房间号
            fn::default_name($this.id) as name, // 托盘段号
            math::fixed(refno.POS[2],3) as pos,
            '裸铜缆' as material,  //材质
            refno.SPRE.refno.NAME as spre,
            refno.SPRE.refno.CATR.refno.NAME as catr,
            math::fixed(fn::vec3_distance(array::clump(<-pe_owner.in<-pe_owner[where in.noun='POINSP'].in.refno.POS,3)[0],array::clump(<-pe_owner.in<-pe_owner[where in.noun='POINSP'].in.refno.POS,3)[1]),2) as count
            from "#;

/// Head of the statement for: instrument bulk materials: code and part.
pub const YK_DZCL_HEAD: &'static str = r#"select
        id,
        if refno.SPRE.name != NONE { string::split(string::split(refno.SPRE.name,'/')[2],':')[0] } else { ' ' } as code ,// 编码
        refno.TYPE as noun
        from "#;

/// Head of the statement for: instrument pipes: tag, root valve branch and room.
pub const YK_INST_PIPE_HEAD: &'static str = r#"select
        id,
        fn::default_name($this.id) as name,
        fn::find_gy_bran($this.id)[0][0] as pipe_name,
        fn::room_code($this.id)[0] as room_code
        from "#;

/// Head of the statement for: instrument equipment: tag, room, level and height above the floor.
pub const YK_EQUI_HEAD: &'static str = r#"select
        id,
        fn::default_name($this.id) as equi_name,
        fn::room_code($this.id)[0] as room_code,
        fn::get_world_pos($this.id)[0][2] as pos, // 坐标 z
        (->nearest_relate.dist)[0] as floor_height
        from "#;

/// Head of the statement for: water bends: code, part, diameter and arc length.
pub const GPS_BEND_HEAD: &'static str = r#"select
        id,
        string::split(string::split(if refno.SPRE.name == NONE { "//:" } else { refno.SPRE.name },'/')[2],':')[0] as code, // 编码
        refno.TYPE as noun ,// 部件
        string::replace(<string>math::fixed(if refno.SPRE.refno.CATR.refno.PARA[3] == NONE { 0 } else { refno.SPRE.refno.CATR.refno.PARA[3] },3),'f','') as radius, // 外径
        math::fixed(if refno.SPRE.refno.CATR.refno.PARA == NONE && refno.ANGL == NONE { 0 }
        else { (refno.ANGL / 360) * 2 * 3.1415 * refno.SPRE.refno.CATR.refno.PARA[1] },2) as count // 数量
        from "#;

/// Head of the statement for: water pipe runs of each branch: code, diameter and length.
pub const GPS_TUBI_HEAD: &'static str = r#"select value (select leave as id,
        (select value ( if leave.refno.LSTU.refno.NAME != NONE { string::split(array::at(string::split(leave.refno.LSTU.name, '/'), 2), ':')[0] } else if leave.refno.HSTU.refno.NAME != NONE {
          string::split(array::at(string::split(leave.refno.HSTU.name, '/'), 2), ':')[0]
        } else { '' }  ) from $self)[0]  as code,
        'TUBI' as noun,
        string::replace(<string>math::fixed(if leave.refno.LSTU.refno.NAME != NONE { leave.refno.LSTU.refno.CATR.refno.PARA[1] } else if leave.refno.HSTU.refno.NAME != NONE { leave.refno.HSTU.refno.CATR.refno.PARA[1] } else { 0 },3 ),'f','') as radius, // 外径
        world_trans.d.scale[2] as count from ->tubi_relate) from "#;

/// Head of the statement for: water elbows: code, part and diameter.
pub const GPS_ELBO_HEAD: &'static str = r#"select id,
        string::split(string::split(if refno.SPRE.name == NONE { "//:" } else { refno.SPRE.name },'/')[2],':')[0] as code, // 编码
        refno.TYPE as noun ,// 部件
        string::replace(<string>math::fixed(if refno.SPRE.refno.CATR.refno.PARA[3] == NONE { 0 } else { refno.SPRE.refno.CATR.refno.PARA[3] },3),'f','') as radius // 外径
        from "#;

/// Head of the statement for: water flanges: code, part, diameter and thickness.
pub const GPS_FLAN_HEAD: &'static str = r#"select id,
        string::split(string::split(if refno.SPRE.name == NONE { "//:" } else { refno.SPRE.name },'/')[2],':')[0] as code, // 编码
        refno.TYPE as noun ,// 部件
        string::replace(<string>math::fixed(if refno.SPRE.refno.CATR.refno.PARA[6] == NONE { 0 } else { refno.SPRE.refno.CATR.refno.PARA[6] },3),'f','') as radius, // 外径
        math::fixed(if refno.SPRE.refno.CATR.refno.PARA[4] == NONE { 0 } else { refno.SPRE.refno.CATR.refno.PARA[4] },3) as thick // 厚度
        from "#;

/// Head of the statement for: water reducers: code, part, both diameters and length.
pub const GPS_REDU_HEAD: &'static str = r#"select id,
        string::split(string::split(if refno.SPRE.name == NONE { "//:" } else { refno.SPRE.name },'/')[2],':')[0] as code, // 编码
        refno.TYPE as noun ,// 部件
        string::replace(<string>array::join([math::fixed(if refno.SPRE.refno.CATR.refno.PARA[5] == NONE { 0 } else { refno.SPRE.refno.CATR.refno.PARA[5] },3),math::fixed(if refno.SPRE.refno.CATR.refno.PARA[6] == NONE { 0 } else { refno.SPRE.refno.CATR.refno.PARA[6] },3)],';'),'f','') as radius, // 外径
        math::fixed(if refno.SPRE.refno.CATR.refno.PARA[3] == NONE { 0 } else { refno.SPRE.refno.CATR.refno.PARA[3] },3) as length // 长度
        from "#;

/// Head of the statement for: water tees: code, part and both diameters.
pub const GPS_TEE_HEAD: &'static str = r#"select id,
        string::split(string::split(if refno.SPRE.name == NONE { "//:" } else { refno.SPRE.name },'/')[2],':')[0] as code, // 编码
        refno.TYPE as noun, // 部件
        string::replace(<string>array::join([<string>math::fixed(if refno.SPRE.refno.CATR.refno.PARA[6] != NONE { refno.SPRE.refno.CATR.refno.PARA[6] } else { 0 },3),<string>math::fixed(if refno.SPRE.refno.CATR.refno.PARA[7] != NONE { refno.SPRE.refno.CATR.refno.PARA[7] } else { 0 },3)],';'),'f','') as radius // 外径
        from "#;

/// Head of the statement for: communication devices: tag, name, building, room, position and model.
pub const TX_TXSB_HEAD: &'static str = r#"select
            id,
            fn::default_name(owner) as equi_name,
            string::slice(if refno.CATR.refno.PRTREF.desc == NONE { '/' } else { refno.CATR.refno.PRTREF.desc },1) as ptre_desc, // 设备名称
            string::slice(string::split(array::at(refno.REFNO->pe_owner.out->pe_owner.out.name,0),'-')[0],1,3) as belong_factory, // 所属厂房编号
            fn::room_code($this.id)[0] as room_code,
            fn::get_world_pos($this.id)[0][0] as x, // 坐标 x
            fn::get_world_pos($this.id)[0][1] as y, // 坐标 y
            fn::get_world_pos($this.id)[0][2] as z, // 坐标 z
            string::slice(refno.CATR.refno.PRTREF.refno.NAME,1) as ptre_name
            from "#;

/// Head of the statement for: equipment of the equipment discipline: tag, room and rail groups.
pub const SB_EQUI_HEAD: &'static str = r#"select
            id,
            fn::default_name($this.id) as name,
            fn::room_code($this.id)[0] as room_code,
            fn::find_group_sube_children($this.id) as boxs
            from "#;

/// Head of the statement for: the rails of the chosen equipment groups: owner, length and level.
pub const SB_SUBE_HEAD: &'static str = r#"select
            (id.REFNO->pe_owner.out->pe_owner.out.refno)[0][0] as refno,
            array::max(array::max([XLEN,YLEN,ZLEN])) as length,
            array::max(POS[2]) as pos
            from "#;

/// Head of the statement for: heating dampers: tag, room, branch, size, material and use.
pub const NT_VALV_HEAD: &'static str = r#"select
            id,
            fn::default_name($this.id) as name,
            fn::room_code($this.id)[0] as room_code,
            (->pe_owner.out->pe_owner.in.refno.NAME)[0] as bran_name,
            [if refno.DESP[1] == NONE { 0 } else { refno.DESP[1] },if refno.DESP[2] == NONE { 0 } else { refno.DESP[2] },
            if refno.DESP[5] == NONE { 0 } else { refno.DESP[5] }] as valv_size,
            fn::get_valv_material($this.id) as material,
            if name == NONE { '' } else { string::slice(name,-3) } as valv_use
            from "#;

/// Head of the statement for: straight ducts.
pub const HVAC_STRT_HEAD: &'static str = r#"select
    fn::refno(id) as id,
    noun,
    string::concat(fn::shape_name(id), '直管') as description,
    fn::hvac_seg_code(id) as seg_code,
    fn::hvac_sub_code(id) as sub_code,
    fn::hvac_mats(id) as material,
    fn::hvac_pressure(id) as pressure,
    fn::hvac_len(id) as length,
    fn::hvac_width_format(id) as width,
    fn::hvac_height_format(id) as height,
    fn::hvac_thks(id, 'DAMP') as wall_thk,
    fn::hvac_duct_areas(id, 'DAMP') as duct_area,
    fn::hvac_duct_weight_format(id, 'DAMP') as duct_weight,
    fn::cal_stif_sctn_str(id) as stif_sctn,
    fn::cal_stif_len_str(id) as stif_len,
    fn::cal_stif_wei_str(id) as stif_wei,
    fn::hvac_fl_name(id) as fl_type,
    fn::hvac_fl_len(id) as fl_len,
    fn::hvac_fl_wei(id) as fl_wei,

    fn::common_washer_types(id) as washer_type,
    fn::common_washer_len(id) as washer_len,
    fn::hvac_bolt_qty(id) as bolt_qty,

    '-' as other_qty,
    '-' as stud,

    fn::hvac_bolt_qty(id) as nut_qty,  //螺母数量
    fn::hvac_bolt_qty(id) * 2 as washer_qty,

    fn::get_room_number(id) as room_no,
    fn::hvac_system(id) as system
	from "#;

/// Head of the statement for: tapered ducts.
pub const HVAC_TAPE_HEAD: &'static str = r#"select
    fn::refno(id) as id,
    noun,
    string::concat(fn::shape_name(id), '变截面管') as description,
    fn::hvac_seg_code(id) as seg_code,
    fn::hvac_sub_code(id) as sub_code,
    fn::hvac_mats(id) as material,
    fn::hvac_pressure(id) as pressure,
    fn::hvac_len(id) as length,
    [fn::hvac_width_format(id), string::replace(<string>fn::hvac_width2(id),'f','')] as width,
    [fn::hvac_height_format(id), string::replace(<string>fn::hvac_height2(id),'f','')] as height,
    fn::hvac_thks(id) as wall_thk,
    fn::hvac_duct_areas(id, 'DAMP') as duct_area,
    fn::hvac_duct_weight_format(id, 'DAMP') as duct_weight,
    fn::cal_stif_len_str(id) as stif_len,
    fn::cal_stif_wei_str(id) as stif_wei,
    fn::hvac_fl_name(id) as fl_type,
    fn::hvac_fl_len(id) as fl_len,
    fn::hvac_fl_wei(id) as fl_wei,
    fn::common_washer_types(id) as washer_type,

    fn::hvac_bolt_qtys_1(id) as bolt_qty,

    '-' as other_type,
    '-' as other_qty,
    '-' as stud,

    fn::hvac_bolt_qtys_1(id) as nut_qty,  //螺母数量
    fn::hvac_washer_bolt_qtys_1(id) as washer_qty,

    fn::hvac_system(id) as system,
    fn::get_room_number(id) as room_no
	from "#;

/// Head of the statement for: flexible ducts.
pub const HVAC_FLEX_HEAD: &'static str = r#"select
    fn::refno(id) as id,
    string::concat(fn::shape_name(id), '软连接') as description,
    fn::hvac_seg_code(id) as seg_code,
    fn::hvac_sub_code(id) as sub_code,
    fn::hvac_mats(id) as material,
    fn::hvac_pressure(id) as pressure,
    fn::hvac_len(id) as length,
    fn::hvac_width_format(id) as width,
    fn::hvac_height_format(id) as height,
    fn::hvac_thks(id, 'DAMP') as wall_thk,
    fn::hvac_duct_areas(id, 'DAMP') as duct_area,
    fn::hvac_duct_weight_format(id, 'DAMP') as duct_weight,
    fn::cal_stif_sctn_str(id) as stif_sctn,
    fn::cal_stif_len_str(id) as stif_len,
    fn::cal_stif_wei_str(id) as stif_wei,
    fn::hvac_fl_name(id) as fl_type,
    fn::hvac_fl_len(id) as fl_len,
    fn::hvac_fl_wei(id) as fl_wei,

     fn::common_washer_types(id) as washer_type,
     fn::common_washer_len(id) as washer_len,

     fn::hvac_bolt_qtys_THRE(id) as bolt_qty,
    '-' as other_type,
    '-' as other_qty,
    '-' as stud,

     fn::hvac_bolt_qtys_THRE(id) as nut_qty,  //螺母数量
     fn::hvac_washer_bolt_qtys_THRE(id) as washer_qty,  //垫片数量


     fn::hvac_system(id) as system,
     fn::get_room_number(id) as room_no
	from "#;

/// Head of the statement for: duct bends.
pub const HVAC_BEND_HEAD: &'static str = r#"select
    fn::refno(id) as id,
    string::concat(fn::shape_name(id), '变截面管') as description,
    fn::hvac_seg_code(id) as seg_code,
    fn::hvac_sub_code(id) as sub_code,
    fn::hvac_mats(id) as material,
    fn::hvac_pressure(id) as pressure,
    fn::hvac_len(id) as length,
    [fn::hvac_width_format(id), string::replace(<string>fn::hvac_width2(id),'f','')] as width,
    [fn::hvac_height_format(id), string::replace(<string>fn::hvac_height2(id),'f','')] as height,
    fn::hvac_thks(id) as wall_thk,
    fn::hvac_duct_areas(id, 'DAMP') as duct_area,
    fn::hvac_duct_weight_format(id, 'DAMP') as duct_weight,
    fn::cal_stif_len_str(id) as stif_len,
    fn::cal_stif_wei_str(id) as stif_wei,
    fn::hvac_fl_name(id) as fl_type,
    fn::hvac_fl_len(id) as fl_len,
    fn::hvac_fl_wei(id) as fl_wei,
    fn::common_washer_types(id) as washer_type,
    fn::washer_len_BEND(id) as washer_len,

    fn::hvac_nut_qty_BEND((id) as nut_qty,  //螺母数量
    if fn::hvac_bolt_qtys_1(id) != NONE {
        [fn::hvac_bolt_qtys_1(id)[0] * 2,fn::hvac_bolt_qtys_1(id)[1] * 2] } else { [0] } as washer_qty,

    fn::hvac_system(id) as system,
    fn::get_room_number(id) as room_no
	from "#;

/// Head of the statement for: duct offsets.
pub const HVAC_OFST_HEAD: &'static str = r#"select
    fn::refno(id) as id,
    string::concat(fn::shape_name(id), '软连接') as description,
    fn::hvac_seg_code(id) as seg_code,
    fn::hvac_sub_code(id) as sub_code,
    fn::hvac_mats(id) as material,
    fn::hvac_pressure(id) as pressure,
    fn::hvac_len(id) as length,
    fn::hvac_width_format(id) as width,
    fn::hvac_height_format(id) as height,
    fn::hvac_thks(id, 'DAMP') as wall_thk,
    fn::hvac_duct_areas(id, 'DAMP') as duct_area,
    fn::hvac_duct_weight_format(id, 'DAMP') as duct_weight,
    fn::cal_stif_sctn_str(id) as stif_sctn,
    fn::cal_stif_len_str(id) as stif_len,
    fn::cal_stif_wei_str(id) as stif_wei,
    fn::hvac_fl_name(id) as fl_type,
    fn::hvac_fl_len(id) as fl_len,
    fn::hvac_fl_wei(id) as fl_wei,

    fn::common_washer_types(id) as washer_type,
    fn::common_washer_len(id) as washer_len,

    fn::hvac_bolt_qtys_OFST(id) as bolt_qty,

    '-' as other_type,
    NONE as other_qty,
    '-' as stud,

    fn::hvac_bolt_qtys_OFST(id) as nut_qty,  //螺母数量
    [fn::hvac_bolt_qtys_OFST(id)*2, fn::hvac_bolt_qtys_OFST(id)*2] as washer_qty,  //垫片数量

    fn::hvac_system(id) as system,
    fn::get_room_number(id) as room_no
	from "#;

/// Head of the statement for: duct transitions.
pub const HVAC_TRNS_HEAD: &'static str = r#"select
        fn::refno(id) as id,
        '天圆地方' as description,
        fn::hvac_seg_code(id) as seg_code,
        fn::hvac_sub_code(id) as sub_code,
        fn::hvac_mats(id) as material,
        fn::hvac_pressure(id) as pressure,
        fn::hvac_len(id) as length,
        fn::hvac_width_format(id) as width,
        fn::hvac_height_format(id) as height,
        fn::hvac_thks(id, 'DAMP') as wall_thk,
        fn::hvac_duct_areas(id, 'DAMP') as duct_area,
        fn::hvac_duct_weight_format(id, 'DAMP') as duct_weight,
        fn::cal_stif_sctn_str(id) as stif_sctn,
        fn::cal_stif_len_str(id) as stif_len,
        fn::cal_stif_wei_str(id) as stif_wei,
        fn::hvac_fl_name(id) as fl_type,
        fn::hvac_fl_len_TRNS(id) as fl_len,
        fn::hvac_fl_wei(id) as fl_wei,

        fn::washer_type_TRNS(id) as washer_type,
        fn::washer_len_TRNS(id) as washer_len,

        fn::hvac_bolt_qtys_TRNS(id) as bolt_qty,  //螺栓数量

        '-' as other_type,
        '-' as other_qty,
        '-' as stud,

        fn::hvac_bolt_qtys_TRNS(id) as nut_qty,  //螺母数量
        fn::hvac_washer_bolt_qtys_TRNS(id) as washer_qty,  //垫片数量

        fn::hvac_system(id) as system,
        fn::get_room_number(id) as room_no
	from "#;

/// Head of the statement for: duct branch connections.
pub const HVAC_BRCO_HEAD: &'static str = r#"select
      fn::refno(id) as id,
      string::concat(fn::shape_name(id), '连接管') as description,
      fn::hvac_seg_code(id) as seg_code,
      fn::hvac_sub_code(id) as sub_code,
      fn::hvac_mats(id) as material,
      fn::hvac_pressure(id) as pressure,
      fn::hvac_len(id) as length,
      fn::hvac_width_format(id, 3) as width,
      fn::hvac_height_format(id, 3) as height,
      fn::hvac_thks(id, 'DAMP') as wall_thk,
      fn::hvac_duct_areas(id, 'DAMP') as duct_area,
      fn::hvac_duct_weight_format(id, 'DAMP') as duct_weight,
      fn::cal_stif_sctn_str(id) as stif_sctn,
      fn::cal_stif_len_str(id) as stif_len,
      fn::cal_stif_wei_str(id) as stif_wei,
      fn::hvac_fl_name(id) as fl_type,
      fn::hvac_fl_len(id) as fl_len,
      fn::hvac_fl_wei(id) as fl_wei,

       fn::common_washer_types(id) as washer_type,
       fn::common_washer_len(id) as washer_len,

      // fn::hvac_bolt_qtys_BRCO(id) as bolt_qty,
      '-' as other_type,
      '-' as other_qty,
      '-' as stud,

       // fn::hvac_bolt_qtys_BRCO(id) as nut_qty,  //螺母数量
       fn::hvac_washer_bolt_qtys_THRE(id) as washer_qty,  //垫片数量

       fn::hvac_system(id) as system,
       fn::get_room_number(id) as room_no
	from "#;

/// Head of the statement for: duct three-way pieces.
pub const HVAC_THRE_HEAD: &'static str = r#"select
    fn::refno(id) as id,
    string::concat(fn::shape_name(id), '三通管') as description,
    fn::hvac_seg_code(id) as seg_code,
    fn::hvac_sub_code(id) as sub_code,
    fn::hvac_mats(id) as material,
    fn::hvac_pressure(id) as pressure,
    fn::hvac_len(id) as length,
    fn::hvac_width_three(id) as width,
    fn::hvac_height_three(id) as height,
    fn::hvac_thks(id) as wall_thk,
    fn::hvac_duct_areas(id, 'DAMP') as duct_area,
    fn::hvac_duct_weight_format(id, 'DAMP') as duct_weight,
    '-' as stif_sctn,
    0 as stif_len,
    0 as stif_wei,
    fn::hvac_fl_name_THRE(id) as fl_type,
    fn::hvac_fl_len_THRE(id) as fl_len,
    fn::hvac_fl_wei(id) as fl_wei,
    fn::washer_type_THRE(id) as washer_type,
    fn::washer_len_THRE(id) as washer_len,

    '-' as other_type,
    '-' as other_qty,
    '-' as stud,

    fn::hvac_bolt_qtys_THRE(id) as nut_qty,  //螺母数量
    fn::hvac_washer_bolt_qtys_THRE(id) as washer_qty,  //垫片数量

    fn::hvac_system(id) as system,
    fn::get_room_number(id) as room_no
	from "#;

/// Head of the statement for: duct caps.
pub const HVAC_CAP_HEAD: &'static str = r#"select
    fn::refno(id) as id,
    string::concat(fn::shape_name(id), '封头') as description,
    fn::hvac_seg_code(id) as seg_code,
    fn::hvac_sub_code(id) as sub_code,
    fn::hvac_mats(id) as material,
    fn::hvac_pressure(id) as pressure,
    fn::hvac_len(id) as length,
    fn::hvac_width_format(id) as width,
    fn::hvac_height_format(id) as height,
    fn::hvac_thks(id) as wall_thk,
    fn::hvac_duct_areas(id, 'DAMP') as duct_area,
    fn::hvac_duct_weight_format(id, 'DAMP') as duct_weight,
    fn::cal_stif_len_str(id) as stif_len,
    fn::cal_stif_wei_str(id) as stif_wei,
    fn::hvac_fl_name(id) as fl_type,
    fn::hvac_fl_len(id) as fl_len,
    fn::hvac_fl_wei(id) as fl_wei,
    fn::washer_type_CAP(id) as washer_type,
    fn::washer_len_CAP(id) as washer_len,

    fn::hvac_bolt_qtys_1(id) as nut_qty,  //螺母数量
    fn::hvac_washer_bolt_qtys_1(id) as washer_qty,

    fn::hvac_system(id) as system,
    fn::get_room_number(id) as room_no
	from "#;

/// Head of the statement for: duct stiffeners.
pub const HVAC_STIF_HEAD: &'static str = r#"select
    fn::refno(id) as id,
    string::concat(fn::shape_name(id), '加强筋') as description,
    fn::hvac_seg_code(id) as seg_code,
    fn::hvac_sub_code(id) as sub_code,
    fn::hvac_mats(id) as material,
    fn::hvac_pressure(id) as pressure,
    fn::hvac_len(id) as length,
    fn::hvac_width_format(id) as width,
    fn::hvac_height_format(id) as height,
    fn::hvac_thks(id, 'DAMP') as wall_thk,
    fn::hvac_duct_areas(id, 'DAMP') as duct_area,
    fn::hvac_duct_weight_format(id, 'DAMP') as duct_weight,
    fn::cal_stif_sctn_str(id) as stif_sctn,
    fn::cal_stif_len_str(id) as stif_len,
    fn::cal_stif_wei_str(id) as stif_wei,
    '-' as fl_type,
    '-' as fl_len,
    '-' as fl_wei,

    '-' as washer_type,
    '-' as washer_len,
    '-' as bolt_qty,
    '-' as other_type,
    '-' as other_qty,
    '-' as stud,

    fn::hvac_bolt_qty(id) as nut_qty,  //螺母数量
    fn::hvac_bolt_qty(id) * 2 as washer_qty,

    fn::get_room_number(id) as room_no,
    fn::hvac_system(id) as system
	from "#;

/// A statement of a material list.
#[derive(Clone, Copy, Debug, PartialEq, Eq, Structural)]
pub enum MaterialStatement {
    /// Process bends: code, part and arc length.
    GyBend,
    /// Process pipe runs of each branch: code and length.
    GyTubi,
    /// Process fittings (elbows, tees, flanges, gaskets, olets, reducers, caps, couplings): code and part.
    GyFitting,
    /// Process valves and inline instruments: tag, room, owner, length, weight, centre of gravity, support.
    GyValv,
    /// Process equipment: tag, room and nozzles.
    GyEqui,
    /// Electrical tray branches.
    DqBran,
    /// Electrical tray supports.
    DqStru,
    /// Electrical earthing runs.
    DqGensec,
    /// Instrument bulk materials: code and part.
    YkDzcl,
    /// Instrument pipes: tag, root valve branch and room.
    YkInstPipe,
    /// Instrument equipment: tag, room, level and height above the floor.
    YkEqui,
    /// Water bends: code, part, diameter and arc length.
    GpsBend,
    /// Water pipe runs of each branch: code, diameter and length.
    GpsTubi,
    /// Water elbows: code, part and diameter.
    GpsElbo,
    /// Water flanges: code, part, diameter and thickness.
    GpsFlan,
    /// Water reducers: code, part, both diameters and length.
    GpsRedu,
    /// Water tees: code, part and both diameters.
    GpsTee,
    /// Communication devices: tag, name, building, room, position and model.
    TxTxsb,
    /// Equipment of the equipment discipline: tag, room and rail groups.
    SbEqui,
    /// Heating dampers: tag, room, branch, size, material and use.
    NtValv,
    /// Straight ducts.
    HvacStrt,
    /// Tapered ducts.
    HvacTape,
    /// Flexible ducts.
    HvacFlex,
    /// Duct bends.
    HvacBend,
    /// Duct offsets.
    HvacOfst,
    /// Duct transitions.
    HvacTrns,
    /// Duct branch connections.
    HvacBrco,
    /// Duct three-way pieces.
    HvacThre,
    /// Duct caps.
    HvacCap,
    /// Duct stiffeners.
    HvacStif,
}

/// The head of a statement, before the keys it reads.
pub open spec fn statement_head(s: MaterialStatement) -> Seq<char> {
    match s {
        MaterialStatement::GyBend => GY_BEND_HEAD@,
        MaterialStatement::GyTubi => GY_TUBI_HEAD@,
        MaterialStatement::GyFitting => GY_FITTING_HEAD@,
        MaterialStatement::GyValv => GY_VALV_HEAD@,
        MaterialStatement::GyEqui => GY_EQUI_HEAD@,
        MaterialStatement::DqBran => DQ_BRAN_HEAD@,
        MaterialStatement::DqStru => DQ_STRU_HEAD@,
        MaterialStatement::DqGensec => DQ_GENSEC_HEAD@,
        MaterialStatement::YkDzcl => YK_DZCL_HEAD@,
        MaterialStatement::YkInstPipe => YK_INST_PIPE_HEAD@,
        MaterialStatement::YkEqui => YK_EQUI_HEAD@,
        MaterialStatement::GpsBend => GPS_BEND_HEAD@,
        MaterialStatement::GpsTubi => GPS_TUBI_HEAD@,
        MaterialStatement::GpsElbo => GPS_ELBO_HEAD@,
        MaterialStatement::GpsFlan => GPS_FLAN_HEAD@,
        MaterialStatement::GpsRedu => GPS_REDU_HEAD@,
        MaterialStatement::GpsTee => GPS_TEE_HEAD@,
        MaterialStatement::TxTxsb => TX_TXSB_HEAD@,
        MaterialStatement::SbEqui => SB_EQUI_HEAD@,
        MaterialStatement::NtValv => NT_VALV_HEAD@,
        MaterialStatement::HvacStrt => HVAC_STRT_HEAD@,
        MaterialStatement::HvacTape => HVAC_TAPE_HEAD@,
        MaterialStatement::HvacFlex => HVAC_FLEX_HEAD@,
        MaterialStatement::HvacBend => HVAC_BEND_HEAD@,
        MaterialStatement::HvacOfst => HVAC_OFST_HEAD@,
        MaterialStatement::HvacTrns => HVAC_TRNS_HEAD@,
        MaterialStatement::HvacBrco => HVAC_BRCO_HEAD@,
        MaterialStatement::HvacThre => HVAC_THRE_HEAD@,
        MaterialStatement::HvacCap => HVAC_CAP_HEAD@,
        MaterialStatement::HvacStif => HVAC_STIF_HEAD@,
    }
}

/// What follows the keys in a statement.
pub open spec fn statement_tail(s: MaterialStatement) -> Seq<char> {
    match s {
        MaterialStatement::GyBend => ""@,
        MaterialStatement::GyTubi => ""@,
        MaterialStatement::GyFitting => ""@,
        MaterialStatement::GyValv => ""@,
        MaterialStatement::GyEqui => ""@,
        MaterialStatement::DqBran => ""@,
        MaterialStatement::DqStru => ""@,
        MaterialStatement::DqGensec => ""@,
        MaterialStatement::YkDzcl => ""@,
        MaterialStatement::YkInstPipe => ""@,
        MaterialStatement::YkEqui => ""@,
        MaterialStatement::GpsBend => ""@,
        MaterialStatement::GpsTubi => ";"@,
        MaterialStatement::GpsElbo => ";"@,
        MaterialStatement::GpsFlan => ";"@,
        MaterialStatement::GpsRedu => ";"@,
        MaterialStatement::GpsTee => ";"@,
        MaterialStatement::TxTxsb => ""@,
        MaterialStatement::SbEqui => ""@,
        MaterialStatement::NtValv => ""@,
        MaterialStatement::HvacStrt => ";"@,
        MaterialStatement::HvacTape => ";"@,
        MaterialStatement::HvacFlex => ";"@,
        MaterialStatement::HvacBend => ";"@,
        MaterialStatement::HvacOfst => ";"@,
        MaterialStatement::HvacTrns => ";"@,
        MaterialStatement::HvacBrco => ";"@,
        MaterialStatement::HvacThre => ";"@,
        MaterialStatement::HvacCap => ";"@,
        MaterialStatement::HvacStif => ";"@,
    }
}

/// The element types whose descendants a statement reads.
pub open spec fn statement_nouns(s: MaterialStatement) -> Seq<Seq<char>> {
    match s {
        MaterialStatement::GyBend => seq!["BEND"@],
        MaterialStatement::GyTubi => seq!["BRAN"@],
        MaterialStatement::GyFitting => seq!["ELBO"@, "TEE"@, "FLAN"@, "GASK"@, "OLET"@, "REDU"@, "CAP"@, "COUP"@],
        MaterialStatement::GyValv => seq!["VALV"@, "INST"@],
        MaterialStatement::GyEqui => seq!["EQUI"@],
        MaterialStatement::DqBran => seq!["BRAN"@],
        MaterialStatement::DqStru => seq!["STRU"@],
        MaterialStatement::DqGensec => seq!["GENSEC"@],
        MaterialStatement::YkDzcl => seq!["VALV"@, "TEE"@, "COUP"@, "INST"@, "BEND"@],
        MaterialStatement::YkInstPipe => seq!["INST"@],
        MaterialStatement::YkEqui => seq!["EQUI"@],
        MaterialStatement::GpsBend => seq!["BEND"@],
        MaterialStatement::GpsTubi => seq!["BRAN"@],
        MaterialStatement::GpsElbo => seq!["ELBO"@],
        MaterialStatement::GpsFlan => seq!["FLAN"@],
        MaterialStatement::GpsRedu => seq!["REDU"@],
        MaterialStatement::GpsTee => seq!["TEE"@],
        MaterialStatement::TxTxsb => seq!["ELCONN"@],
        MaterialStatement::SbEqui => seq!["EQUI"@],
        MaterialStatement::NtValv => seq!["DAMP"@],
        MaterialStatement::HvacStrt => seq!["STRT"@],
        MaterialStatement::HvacTape => seq!["TAPE"@],
        MaterialStatement::HvacFlex => seq!["FLEX"@],
        MaterialStatement::HvacBend => seq!["BEND"@],
        MaterialStatement::HvacOfst => seq!["OFST"@],
        MaterialStatement::HvacTrns => seq!["TRNS"@],
        MaterialStatement::HvacBrco => seq!["BRCO"@],
        MaterialStatement::HvacThre => seq!["THRE"@],
        MaterialStatement::HvacCap => seq!["CAP"@],
        MaterialStatement::HvacStif => seq!["STIF"@],
    }
}

impl MaterialStatement {
    /// The head of the statement.
    pub fn head(&self) -> (r: &'static str)
        ensures
            r@ == statement_head(*self),
    {
        match self {
            MaterialStatement::GyBend => GY_BEND_HEAD,
            MaterialStatement::GyTubi => GY_TUBI_HEAD,
            MaterialStatement::GyFitting => GY_FITTING_HEAD,
            MaterialStatement::GyValv => GY_VALV_HEAD,
            MaterialStatement::GyEqui => GY_EQUI_HEAD,
            MaterialStatement::DqBran => DQ_BRAN_HEAD,
            MaterialStatement::DqStru => DQ_STRU_HEAD,
            MaterialStatement::DqGensec => DQ_GENSEC_HEAD,
            MaterialStatement::YkDzcl => YK_DZCL_HEAD,
            MaterialStatement::YkInstPipe => YK_INST_PIPE_HEAD,
            MaterialStatement::YkEqui => YK_EQUI_HEAD,
            MaterialStatement::GpsBend => GPS_BEND_HEAD,
            MaterialStatement::GpsTubi => GPS_TUBI_HEAD,
            MaterialStatement::GpsElbo => GPS_ELBO_HEAD,
            MaterialStatement::GpsFlan => GPS_FLAN_HEAD,
            MaterialStatement::GpsRedu => GPS_REDU_HEAD,
            MaterialStatement::GpsTee => GPS_TEE_HEAD,
            MaterialStatement::TxTxsb => TX_TXSB_HEAD,
            MaterialStatement::SbEqui => SB_EQUI_HEAD,
            MaterialStatement::NtValv => NT_VALV_HEAD,
            MaterialStatement::HvacStrt => HVAC_STRT_HEAD,
            MaterialStatement::HvacTape => HVAC_TAPE_HEAD,
            MaterialStatement::HvacFlex => HVAC_FLEX_HEAD,
            MaterialStatement::HvacBend => HVAC_BEND_HEAD,
            MaterialStatement::HvacOfst => HVAC_OFST_HEAD,
            MaterialStatement::HvacTrns => HVAC_TRNS_HEAD,
            MaterialStatement::HvacBrco => HVAC_BRCO_HEAD,
            MaterialStatement::HvacThre => HVAC_THRE_HEAD,
            MaterialStatement::HvacCap => HVAC_CAP_HEAD,
            MaterialStatement::HvacStif => HVAC_STIF_HEAD,
        }
    }

    /// What follows the keys.
    pub fn tail(&self) -> (r: &'static str)
        ensures
            r@ == statement_tail(*self),
    {
        match self {
            MaterialStatement::GyBend => "",
            MaterialStatement::GyTubi => "",
            MaterialStatement::GyFitting => "",
            MaterialStatement::GyValv => "",
            MaterialStatement::GyEqui => "",
            MaterialStatement::DqBran => "",
            MaterialStatement::DqStru => "",
            MaterialStatement::DqGensec => "",
            MaterialStatement::YkDzcl => "",
            MaterialStatement::YkInstPipe => "",
            MaterialStatement::YkEqui => "",
            MaterialStatement::GpsBend => "",
            MaterialStatement::GpsTubi => ";",
            MaterialStatement::GpsElbo => ";",
            MaterialStatement::GpsFlan => ";",
            MaterialStatement::GpsRedu => ";",
            MaterialStatement::GpsTee => ";",
            MaterialStatement::TxTxsb => "",
            MaterialStatement::SbEqui => "",
            MaterialStatement::NtValv => "",
            MaterialStatement::HvacStrt => ";",
            MaterialStatement::HvacTape => ";",
            MaterialStatement::HvacFlex => ";",
            MaterialStatement::HvacBend => ";",
            MaterialStatement::HvacOfst => ";",
            MaterialStatement::HvacTrns => ";",
            MaterialStatement::HvacBrco => ";",
            MaterialStatement::HvacThre => ";",
            MaterialStatement::HvacCap => ";",
            MaterialStatement::HvacStif => ";",
        }
    }

    /// The element types whose descendants the statement reads.
    pub fn nouns(&self) -> (r: Vec<String>)
        ensures
            string_views(r@) == statement_nouns(*self),
    {
        let r = match self {
            MaterialStatement::GyBend => vec![owned("BEND")],
            MaterialStatement::GyTubi => vec![owned("BRAN")],
            MaterialStatement::GyFitting => vec![owned("ELBO"), owned("TEE"), owned("FLAN"), owned("GASK"), owned("OLET"), owned("REDU"), owned("CAP"), owned("COUP")],
            MaterialStatement::GyValv => vec![owned("VALV"), owned("INST")],
            MaterialStatement::GyEqui => vec![owned("EQUI")],
            MaterialStatement::DqBran => vec![owned("BRAN")],
            MaterialStatement::DqStru => vec![owned("STRU")],
            MaterialStatement::DqGensec => vec![owned("GENSEC")],
            MaterialStatement::YkDzcl => vec![owned("VALV"), owned("TEE"), owned("COUP"), owned("INST"), owned("BEND")],
            MaterialStatement::YkInstPipe => vec![owned("INST")],
            MaterialStatement::YkEqui => vec![owned("EQUI")],
            MaterialStatement::GpsBend => vec![owned("BEND")],
            MaterialStatement::GpsTubi => vec![owned("BRAN")],
            MaterialStatement::GpsElbo => vec![owned("ELBO")],
            MaterialStatement::GpsFlan => vec![owned("FLAN")],
            MaterialStatement::GpsRedu => vec![owned("REDU")],
            MaterialStatement::GpsTee => vec![owned("TEE")],
            MaterialStatement::TxTxsb => vec![owned("ELCONN")],
            MaterialStatement::SbEqui => vec![owned("EQUI")],
            MaterialStatement::NtValv => vec![owned("DAMP")],
            MaterialStatement::HvacStrt => vec![owned("STRT")],
            MaterialStatement::HvacTape => vec![owned("TAPE")],
            MaterialStatement::HvacFlex => vec![owned("FLEX")],
            MaterialStatement::HvacBend => vec![owned("BEND")],
            MaterialStatement::HvacOfst => vec![owned("OFST")],
            MaterialStatement::HvacTrns => vec![owned("TRNS")],
            MaterialStatement::HvacBrco => vec![owned("BRCO")],
            MaterialStatement::HvacThre => vec![owned("THRE")],
            MaterialStatement::HvacCap => vec![owned("CAP")],
            MaterialStatement::HvacStif => vec![owned("STIF")],
        };
        assert(string_views(r@) =~= statement_nouns(*self));
        r
    }
}

/// The JSON array of the `pe` keys of `refnos`.
pub open spec fn pe_keys_json(refnos: Seq<RefU64>) -> Seq<char> {
    json_strings(refnos.map_values(|r: RefU64| pe_key_text(r)))
}

/// The text of a statement over the elements `refnos`.
pub open spec fn statement_sql(s: MaterialStatement, refnos: Seq<RefU64>) -> Seq<char> {
    statement_head(s) + pe_keys_json(refnos) + statement_tail(s)
}

/// The ventilation statements, which are not run over an empty set.
pub open spec fn is_hvac_statement(s: MaterialStatement) -> bool {
    match s {
        MaterialStatement::HvacStrt | MaterialStatement::HvacTape | MaterialStatement::HvacFlex
        | MaterialStatement::HvacBend | MaterialStatement::HvacOfst | MaterialStatement::HvacTrns
        | MaterialStatement::HvacBrco | MaterialStatement::HvacThre | MaterialStatement::HvacCap
        | MaterialStatement::HvacStif => true,
        _ => false,
    }
}

/// The `pe` keys of `refnos`, in order.
fn pe_key_list(refnos: &Vec<RefU64>) -> (r: Vec<String>)
    ensures
        string_views(r@) == refnos@.map_values(|x: RefU64| pe_key_text(x)),
{
    let mut r: Vec<String> = Vec::new();
    let mut i: usize = 0;
    while i < refnos.len()
        invariant
            i <= refnos.len(),
            string_views(r@) == refnos@.take(i as int).map_values(|x: RefU64| pe_key_text(x)),
        decreases refnos.len() - i,
    {
        let k = refnos[i].to_pe_key();
        let ghost prev = r@;
        r.push(k);
        assert(string_views(r@) =~= string_views(prev).push(pe_key_text(refnos@[i as int])));
        assert(refnos@.take(i + 1) =~= refnos@.take(i as int).push(refnos@[i as int]));
        assert(string_views(r@) =~= refnos@.take(i + 1).map_values(|x: RefU64| pe_key_text(x)));
        i = i + 1;
    }
    assert(refnos@.take(refnos.len() as int) =~= refnos@);
    r
}

impl MaterialStatement {
    /// The statement over the elements `refnos`: the head, the JSON array
    /// of their `pe` keys, and the tail.
    pub fn sql(&self, refnos: &Vec<RefU64>) -> (r: String)
        ensures
            r@ == statement_sql(*self, refnos@),
    {
        let keys = pe_key_list(refnos);
        let json = strings_to_json(&keys);
        let mut r = owned(self.head());
        push_str(&mut r, json.as_str());
        push_str(&mut r, self.tail());
        r
    }

    /// The statement to run over `refnos`, if any: a ventilation statement
    /// is skipped when there is nothing to read, the others always run.
    pub fn sql_for(&self, refnos: &Vec<RefU64>) -> (r: Option<String>)
        ensures
            r is None <==> (is_hvac_statement(*self) && refnos@.len() == 0),
            r matches Some(t) ==> t@ == statement_sql(*self, refnos@),
    {
        let hvac = match self {
            MaterialStatement::HvacStrt | MaterialStatement::HvacTape
            | MaterialStatement::HvacFlex | MaterialStatement::HvacBend
            | MaterialStatement::HvacOfst | MaterialStatement::HvacTrns
            | MaterialStatement::HvacBrco | MaterialStatement::HvacThre
            | MaterialStatement::HvacCap | MaterialStatement::HvacStif => true,
            _ => false,
        };
        if hvac && refnos.len() == 0 {
            None
        } else {
            Some(self.sql(refnos))
        }
    }
}

/// The statements of a material list, in the order they run.
pub open spec fn list_statements_of(list: MaterialList) -> Seq<MaterialStatement> {
    match list {
        MaterialList::GyDzcl => seq![
            MaterialStatement::GyBend,
            MaterialStatement::GyTubi,
            MaterialStatement::GyFitting,
        ],
        MaterialList::GyEqui => seq![MaterialStatement::GyEqui],
        MaterialList::GyValv => seq![MaterialStatement::GyValv],
        MaterialList::YkDzcl => seq![MaterialStatement::YkDzcl],
        MaterialList::YkInstPipe => seq![MaterialStatement::YkInstPipe],
        MaterialList::YkEqui => seq![MaterialStatement::YkEqui],
        MaterialList::TfHvac => seq![
            MaterialStatement::HvacStrt,
            MaterialStatement::HvacTape,
            MaterialStatement::HvacFlex,
            MaterialStatement::HvacBend,
            MaterialStatement::HvacOfst,
            MaterialStatement::HvacTrns,
            MaterialStatement::HvacBrco,
            MaterialStatement::HvacThre,
            MaterialStatement::HvacCap,
            MaterialStatement::HvacStif,
        ],
        MaterialList::DqBran => seq![
            MaterialStatement::DqBran,
            MaterialStatement::DqStru,
            MaterialStatement::DqGensec,
        ],
        MaterialList::TxTxsb => seq![MaterialStatement::TxTxsb],
        MaterialList::GpsDzcl => seq![
            MaterialStatement::GpsBend,
            MaterialStatement::GpsTubi,
            MaterialStatement::GpsElbo,
            MaterialStatement::GpsFlan,
            MaterialStatement::GpsRedu,
            MaterialStatement::GpsTee,
        ],
        MaterialList::SbDzcl => seq![MaterialStatement::SbEqui],
        MaterialList::NtValv => seq![MaterialStatement::NtValv],
    }
}

/// The statements of a material list, in the order they run.
pub fn list_statements(list: MaterialList) -> (r: Vec<MaterialStatement>)
    ensures
        r@ == list_statements_of(list),
{
    let r = match list {
        MaterialList::GyDzcl => vec![
            MaterialStatement::GyBend,
            MaterialStatement::GyTubi,
            MaterialStatement::GyFitting,
        ],
        MaterialList::GyEqui => vec![MaterialStatement::GyEqui],
        MaterialList::GyValv => vec![MaterialStatement::GyValv],
        MaterialList::YkDzcl => vec![MaterialStatement::YkDzcl],
        MaterialList::YkInstPipe => vec![MaterialStatement::YkInstPipe],
        MaterialList::YkEqui => vec![MaterialStatement::YkEqui],
        MaterialList::TfHvac => vec![
            MaterialStatement::HvacStrt,
            MaterialStatement::HvacTape,
            MaterialStatement::HvacFlex,
            MaterialStatement::HvacBend,
            MaterialStatement::HvacOfst,
            MaterialStatement::HvacTrns,
            MaterialStatement::HvacBrco,
            MaterialStatement::HvacThre,
            MaterialStatement::HvacCap,
            MaterialStatement::HvacStif,
        ],
        MaterialList::DqBran => vec![
            MaterialStatement::DqBran,
            MaterialStatement::DqStru,
            MaterialStatement::DqGensec,
        ],
        MaterialList::TxTxsb => vec![MaterialStatement::TxTxsb],
        MaterialList::GpsDzcl => vec![
            MaterialStatement::GpsBend,
            MaterialStatement::GpsTubi,
            MaterialStatement::GpsElbo,
            MaterialStatement::GpsFlan,
            MaterialStatement::GpsRedu,
            MaterialStatement::GpsTee,
        ],
        MaterialList::SbDzcl => vec![MaterialStatement::SbEqui],
        MaterialList::NtValv => vec![MaterialStatement::NtValv],
    };
    assert(r@ =~= list_statements_of(list));
    r
}

/// The marker that the name of a site of the list's discipline carries.
pub open spec fn list_site_marker(list: MaterialList) -> Seq<char> {
    match list {
        MaterialList::GyDzcl | MaterialList::GyEqui | MaterialList::GyValv
        | MaterialList::GpsDzcl => "PIPE"@,
        MaterialList::YkDzcl | MaterialList::YkInstPipe | MaterialList::YkEqui => "INST"@,
        MaterialList::DqBran | MaterialList::TxTxsb => "ELEC"@,
        MaterialList::SbDzcl => "EQUI"@,
        MaterialList::TfHvac | MaterialList::NtValv => "HVAC"@,
    }
}

/// Whether the element of type `noun` named `name` is searched for the
/// list: the ventilation list searches only sites whose name carries its
/// marker; the others also search any element that is not a site.
pub open spec fn list_searches(list: MaterialList, noun: Seq<char>, name: Seq<char>) -> bool {
    if list == MaterialList::TfHvac {
        noun == "SITE"@ && has_substring(name, list_site_marker(list))
    } else {
        site_in_scope(noun, name, list_site_marker(list))
    }
}

/// Which elements each material list searches. A site is searched exactly
/// when its name carries the list's discipline: `PIPE` for the process
/// lists and the water list, `INST` for the instrument lists, `ELEC` for
/// the electrical and telecom lists, `EQUI` for the equipment list, `HVAC`
/// for the ventilation and HVAC-valve lists. An element that is not a site
/// is searched by every list but the ventilation one, which searches sites
/// only.
pub proof fn lemma_list_site_markers(noun: Seq<char>, name: Seq<char>)
    ensures
        list_searches(MaterialList::GyDzcl, "SITE"@, name) <==> has_substring(name, "PIPE"@),
        list_searches(MaterialList::GyEqui, "SITE"@, name) <==> has_substring(name, "PIPE"@),
        list_searches(MaterialList::GyValv, "SITE"@, name) <==> has_substring(name, "PIPE"@),
        list_searches(MaterialList::GpsDzcl, "SITE"@, name) <==> has_substring(name, "PIPE"@),
        list_searches(MaterialList::YkDzcl, "SITE"@, name) <==> has_substring(name, "INST"@),
        list_searches(MaterialList::YkInstPipe, "SITE"@, name) <==> has_substring(name, "INST"@),
        list_searches(MaterialList::YkEqui, "SITE"@, name) <==> has_substring(name, "INST"@),
        list_searches(MaterialList::DqBran, "SITE"@, name) <==> has_substring(name, "ELEC"@),
        list_searches(MaterialList::TxTxsb, "SITE"@, name) <==> has_substring(name, "ELEC"@),
        list_searches(MaterialList::SbDzcl, "SITE"@, name) <==> has_substring(name, "EQUI"@),
        list_searches(MaterialList::NtValv, "SITE"@, name) <==> has_substring(name, "HVAC"@),
        list_searches(MaterialList::TfHvac, "SITE"@, name) <==> has_substring(name, "HVAC"@),
        noun != "SITE"@ ==> !list_searches(MaterialList::TfHvac, noun, name),
        noun != "SITE"@ ==> forall|list: MaterialList|
            list != MaterialList::TfHvac ==> #[trigger] list_searches(list, noun, name),
{
}

/// Whether the element of type `noun` named `name` is searched for the
/// material list `list`.
pub fn list_searches_element(list: MaterialList, noun: &str, name: &str) -> (r: bool)
    ensures
        r == list_searches(list, noun@, name@),
{
    let marker = match list {
        MaterialList::GyDzcl | MaterialList::GyEqui | MaterialList::GyValv
        | MaterialList::GpsDzcl => "PIPE",
        MaterialList::YkDzcl | MaterialList::YkInstPipe | MaterialList::YkEqui => "INST",
        MaterialList::DqBran | MaterialList::TxTxsb => "ELEC",
        MaterialList::SbDzcl => "EQUI",
        MaterialList::TfHvac | MaterialList::NtValv => "HVAC",
    };
    let is_site = str_equal(noun, "SITE");
    if list == MaterialList::TfHvac {
        is_site && str_contains(name, marker)
    } else {
        !is_site || str_contains(name, marker)
    }
}

/// How many times a statement runs for a site whose zones are named
/// `zones`: supports run once for each zone without `MTGD` in its name,
/// earthing once for each zone with it, communication devices once for each
/// zone with `FAD`; every other statement runs once. Each run reads the
/// whole site.
pub open spec fn statement_runs(s: MaterialStatement, zones: Seq<Seq<char>>) -> nat
    decreases zones.len(),
{
    match s {
        MaterialStatement::DqStru | MaterialStatement::DqGensec | MaterialStatement::TxTxsb => {
            if zones.len() == 0 {
                0
            } else {
                let z = zones.last();
                let hit = match s {
                    MaterialStatement::DqStru => !has_substring(z, "MTGD"@),
                    MaterialStatement::DqGensec => has_substring(z, "MTGD"@),
                    _ => has_substring(z, "FAD"@),
                };
                statement_runs(s, zones.drop_last()) + if hit {
                    1nat
                } else {
                    0nat
                }
            }
        },
        _ => 1,
    }
}

/// Zone runs: every zone of a site is read exactly once by the tray-support
/// and earthing statements together (supports for the zones without
/// `MTGD`, earthing for those with it), communication devices run at most
/// once per zone (once for each zone whose name carries `FAD`), and every
/// other statement runs once per site, whatever its zones.
pub proof fn lemma_zone_runs(s: MaterialStatement, zones: Seq<Seq<char>>)
    ensures
        statement_runs(MaterialStatement::DqStru, zones) + statement_runs(
            MaterialStatement::DqGensec,
            zones,
        ) == zones.len(),
        statement_runs(MaterialStatement::TxTxsb, zones) <= zones.len(),
        (forall|i: int| 0 <= i < zones.len() ==> has_substring(#[trigger] zones[i], "FAD"@))
            ==> statement_runs(MaterialStatement::TxTxsb, zones) == zones.len(),
        (forall|i: int| 0 <= i < zones.len() ==> !has_substring(#[trigger] zones[i], "MTGD"@))
            ==> statement_runs(MaterialStatement::DqStru, zones) == zones.len(),
        !(s == MaterialStatement::DqStru || s == MaterialStatement::DqGensec || s
            == MaterialStatement::TxTxsb) ==> statement_runs(s, zones) == 1,
    decreases zones.len(),
{
    if zones.len() > 0 {
        let pre = zones.drop_last();
        lemma_zone_runs(s, pre);
        if forall|i: int| 0 <= i < zones.len() ==> has_substring(#[trigger] zones[i], "FAD"@) {
            assert forall|i: int| 0 <= i < pre.len() implies has_substring(#[trigger] pre[i], "FAD"@) by {
                assert(pre[i] == zones[i]);
            }
            assert(has_substring(zones[zones.len() - 1], "FAD"@));
        }
        if forall|i: int| 0 <= i < zones.len() ==> !has_substring(#[trigger] zones[i], "MTGD"@) {
            assert forall|i: int| 0 <= i < pre.len() implies !has_substring(#[trigger] pre[i], "MTGD"@) by {
                assert(pre[i] == zones[i]);
            }
            assert(!has_substring(zones[zones.len() - 1], "MTGD"@));
        }
    }
}

/// The number of runs of the statement for a site with the zones `zones`.
pub fn statement_run_count(s: MaterialStatement, zones: &Vec<String>) -> (n: usize)
    ensures
        n == statement_runs(s, string_views(zones@)),
{
    match s {
        MaterialStatement::DqStru | MaterialStatement::DqGensec | MaterialStatement::TxTxsb => {},
        _ => {
            return 1;
        },
    }
    let mut n: usize = 0;
    let mut i: usize = 0;
    while i < zones.len()
        invariant
            i <= zones.len(),
            n <= i,
            s == MaterialStatement::DqStru || s == MaterialStatement::DqGensec || s
                == MaterialStatement::TxTxsb,
            n == statement_runs(s, string_views(zones@).take(i as int)),
        decreases zones.len() - i,
    {
        let z = zones[i].as_str();
        let hit = match s {
            MaterialStatement::DqStru => !str_contains(z, "MTGD"),
            MaterialStatement::DqGensec => str_contains(z, "MTGD"),
            _ => str_contains(z, "FAD"),
        };
        assert(string_views(zones@).take(i + 1).drop_last() =~= string_views(zones@).take(
            i as int,
        ));
        if hit {
            n = n + 1;
        }
        i = i + 1;
    }
    assert(string_views(zones@).take(zones.len() as int) =~= string_views(zones@));
    n
}

/// The element types whose descendants the ventilation list reads at once.
pub open spec fn hvac_nouns_of() -> Seq<Seq<char>> {
    seq![
        "BEND"@,
        "BRCO"@,
        "CAP"@,
        "FLEX"@,
        "OFST"@,
        "STIF"@,
        "STRT"@,
        "TAPE"@,
        "THRE"@,
        "TRNS"@,
    ]
}

/// The element types whose descendants the ventilation list reads at once.
pub fn hvac_nouns() -> (r: Vec<String>)
    ensures
        string_views(r@) == hvac_nouns_of(),
{
    let r = vec![
        owned("BEND"),
        owned("BRCO"),
        owned("CAP"),
        owned("FLEX"),
        owned("OFST"),
        owned("STIF"),
        owned("STRT"),
        owned("TAPE"),
        owned("THRE"),
        owned("TRNS"),
    ];
    assert(string_views(r@) =~= hvac_nouns_of());
    r
}

/// The reference numbers of the elements of type `noun`, in order.
pub open spec fn refnos_of_noun_spec(elements: Seq<(RefU64, String)>, noun: Seq<char>) -> Seq<
    RefU64,
>
    decreases elements.len(),
{
    if elements.len() == 0 {
        Seq::empty()
    } else {
        let rest = refnos_of_noun_spec(elements.drop_last(), noun);
        if elements.last().1@ == noun {
            rest.push(elements.last().0)
        } else {
            rest
        }
    }
}

/// The reference numbers of the elements (reference number and type) whose
/// type is `noun`, in order.
pub fn refnos_of_noun(elements: &Vec<(RefU64, String)>, noun: &str) -> (r: Vec<RefU64>)
    ensures
        r@ == refnos_of_noun_spec(elements@, noun@),
{
    let mut r: Vec<RefU64> = Vec::new();
    let mut i: usize = 0;
    while i < elements.len()
        invariant
            i <= elements.len(),
            r@ == refnos_of_noun_spec(elements@.take(i as int), noun@),
        decreases elements.len() - i,
    {
        assert(elements@.take(i + 1).drop_last() =~= elements@.take(i as int));
        if str_equal(elements[i].1.as_str(), noun) {
            r.push(elements[i].0);
        }
        i = i + 1;
    }
    assert(elements@.take(elements.len() as int) =~= elements@);
    r
}

/// The statement that reads the rails of the chosen equipment groups.
pub open spec fn sb_sube_sql_of(groups: Seq<Seq<Seq<char>>>) -> Seq<char> {
    SB_SUBE_HEAD@ + json_string_rows(groups)
}

/// The statement that reads the rails of the chosen equipment groups
/// (the JSON array of the groups' keys).
pub fn sb_sube_sql(groups: &Vec<Vec<String>>) -> (r: String)
    ensures
        r@ == sb_sube_sql_of(groups@.map_values(|g: Vec<String>| string_views(g@))),
{
    let json = string_rows_to_json(groups);
    let mut r = owned(SB_SUBE_HEAD);
    push_str(&mut r, json.as_str());
    r
}

/// Whether an equipment row of the equipment list is kept: all are but
/// those whose tag carries both `PR` and `PD`.
pub open spec fn rail_row_kept(r: MaterialSbListData) -> bool {
    !(has_substring(r.name@, "PR"@) && has_substring(r.name@, "PD"@))
}

/// Some row of `rows` has the reference number `id`.
pub open spec fn has_row_id(rows: Seq<MaterialSbListData>, id: RefU64) -> bool {
    exists|k: int| 0 <= k < rows.len() && (#[trigger] rows[k]).id == id
}

/// The kept rows, one per reference number: the last kept row with that
/// number, in the order of those last rows.
pub open spec fn rail_rows_of(rows: Seq<MaterialSbListData>) -> Seq<MaterialSbListData>
    decreases rows.len(),
{
    if rows.len() == 0 {
        Seq::empty()
    } else {
        let rest = rail_rows_of(rows.drop_first());
        if rail_row_kept(rows[0]) && !has_row_id(rest, rows[0].id) {
            seq![rows[0]] + rest
        } else {
            rest
        }
    }
}

/// The equipment rows that get rail data: the kept rows, one per
/// reference number (a later row replaces an earlier one).
pub fn rail_rows(rows: Vec<MaterialSbListData>) -> (r: Vec<MaterialSbListData>)
    ensures
        r@ == rail_rows_of(rows@),
{
    let ghost orig = rows@;
    let mut rows = rows;
    let mut out: Vec<MaterialSbListData> = Vec::new();
    assert(orig.skip(orig.len() as int) =~= Seq::<MaterialSbListData>::empty());
    while rows.len() > 0
        invariant
            rows.len() <= orig.len(),
            rows@ == orig.take(rows.len() as int),
            out@ == rail_rows_of(orig.skip(rows.len() as int)),
        decreases rows.len(),
    {
        let n = rows.len();
        let ghost before = rows@;
        let x = rows.pop().unwrap();
        assert(x == orig[n - 1]);
        assert(rows@ =~= orig.take(n - 1));
        assert(orig.skip(n - 1).drop_first() =~= orig.skip(n as int));
        assert(orig.skip(n - 1)[0] == x);
        let mut seen = false;
        let mut k: usize = 0;
        while k < out.len()
            invariant
                k <= out.len(),
                seen <==> exists|j: int| 0 <= j < k && (#[trigger] out@[j]).id == x.id,
            decreases out.len() - k,
        {
            if out[k].id == x.id {
                seen = true;
            }
            k = k + 1;
        }
        let kept = !(str_contains(x.name.as_str(), "PR") && str_contains(x.name.as_str(), "PD"));
        if kept && !seen {
            let ghost prev = out@;
            out.insert(0, x);
            assert(out@ =~= seq![x] + prev);
        }
    }
    assert(orig.skip(0) =~= orig);
    out
}

/// The last rail of `rails` that belongs to the equipment `id`.
pub open spec fn last_rail(rails: Seq<MaterialSubeData>, id: RefU64) -> Option<MaterialSubeData>
    decreases rails.len(),
{
    if rails.len() == 0 {
        None
    } else if rails.last().refno == id {
        Some(rails.last())
    } else {
        last_rail(rails.drop_last(), id)
    }
}

/// A row with the height and length of its last rail, if it has one.
pub open spec fn with_rail(row: MaterialSbListData, rails: Seq<MaterialSubeData>) -> MaterialSbListData {
    match last_rail(rails, row.id) {
        Some(r) => MaterialSbListData { pos: r.pos, length: r.length, ..row },
        None => row,
    }
}

/// A copy of an optional text.
fn copy_cell(v: &Option<String>) -> (r: Option<String>)
    ensures
        r == *v,
{
    match v {
        Some(s) => Some(s.clone()),
        None => None,
    }
}

/// Gives each equipment row the installation height and the length of the
/// last rail that belongs to it; rows without a rail keep theirs.
pub fn apply_rails(rows: &mut Vec<MaterialSbListData>, rails: &Vec<MaterialSubeData>)
    ensures
        final(rows)@.len() == old(rows)@.len(),
        forall|k: int|
            0 <= k < old(rows)@.len() ==> #[trigger] final(rows)@[k] == with_rail(
                old(rows)@[k],
                rails@,
            ),
{
    let ghost start = rows@;
    let mut i: usize = 0;
    while i < rails.len()
        invariant
            i <= rails.len(),
            rows@.len() == start.len(),
            forall|k: int|
                0 <= k < start.len() ==> #[trigger] rows@[k] == with_rail(
                    start[k],
                    rails@.take(i as int),
                ),
        decreases rails.len() - i,
    {
        let ghost at = rows@;
        assert(rails@.take(i + 1).drop_last() =~= rails@.take(i as int));
        let mut k: usize = 0;
        while k < rows.len()
            invariant
                i < rails.len(),
                k <= rows.len(),
                rows@.len() == start.len(),
                at.len() == start.len(),
                forall|j: int|
                    0 <= j < start.len() ==> #[trigger] at[j] == with_rail(
                        start[j],
                        rails@.take(i as int),
                    ),
                forall|j: int| k <= j < rows@.len() ==> #[trigger] rows@[j] == at[j],
                forall|j: int|
                    0 <= j < k ==> #[trigger] rows@[j] == with_rail(
                        start[j],
                        rails@.take(i + 1),
                    ),
            decreases rows.len() - k,
        {
            let ghost before = rows@;
            proof {
                let t = rails@.take(i + 1);
                assert(t.drop_last() =~= rails@.take(i as int));
                assert(t.last() == rails@[i as int]);
                assert(before[k as int] == at[k as int]);
            }
            if rows[k].id == rails[i].refno {
                let pos = copy_cell(&rails[i].pos);
                let length = copy_cell(&rails[i].length);
                let mut row = rows.remove(k);
                row.pos = pos;
                row.length = length;
                let ghost updated = row;
                rows.insert(k, row);
                assert(rows@ =~= before.update(k as int, updated));
                assert(updated == with_rail(start[k as int], rails@.take(i + 1)));
            } else {
                assert(rows@[k as int] == with_rail(start[k as int], rails@.take(i + 1)));
            }
            k = k + 1;
        }
        i = i + 1;
    }
    assert(rails@.take(rails.len() as int) =~= rails@);
}

/// The rail rows hold each reference number once, and only kept rows,
/// each taken from the input.
pub proof fn lemma_rail_rows_unique(rows: Seq<MaterialSbListData>)
    ensures
        forall|i: int, j: int|
            0 <= i < j < rail_rows_of(rows).len() ==> (#[trigger] rail_rows_of(rows)[i]).id
                != (#[trigger] rail_rows_of(rows)[j]).id,
        forall|i: int|
            0 <= i < rail_rows_of(rows).len() ==> rail_row_kept(#[trigger] rail_rows_of(rows)[i])
                && rows.contains(rail_rows_of(rows)[i]),
    decreases rows.len(),
{
    if rows.len() > 0 {
        let rest = rail_rows_of(rows.drop_first());
        lemma_rail_rows_unique(rows.drop_first());
        assert forall|i: int| 0 <= i < rest.len() implies rows.contains(#[trigger] rest[i]) by {
            let w = choose|m: int| 0 <= m < rows.drop_first().len() && rows.drop_first()[m] == rest[i];
            assert(rows[w + 1] == rest[i]);
        }
        if rail_row_kept(rows[0]) && !has_row_id(rest, rows[0].id) {
            let r = seq![rows[0]] + rest;
            assert(r == rail_rows_of(rows));
            assert forall|i: int, j: int| 0 <= i < j < r.len() implies (#[trigger] r[i]).id
                != (#[trigger] r[j]).id by {
                if i == 0 {
                    assert(rest[j - 1] == r[j]);
                    if r[j].id == rows[0].id {
                        assert(has_row_id(rest, rows[0].id));
                    }
                } else {
                    assert(r[i] == rest[i - 1] && r[j] == rest[j - 1]);
                }
            }
            assert forall|i: int| 0 <= i < r.len() implies rail_row_kept(#[trigger] r[i])
                && rows.contains(r[i]) by {
                if i > 0 {
                    assert(r[i] == rest[i - 1]);
                } else {
                    assert(rows[0] == r[0]);
                }
            }
        }
    }
}

} // verus!
