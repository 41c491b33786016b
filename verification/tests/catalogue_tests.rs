use aios_surreal::datacenter_query::{get_spre_size_from_map, split_spre_material_code};
use aios_surreal::mdb::DBType;
use aios_surreal::resolve::{check_unit_compatible, prepare_eval_str, CataContext};
use aios_surreal::StringHashMap;

#[test]
fn material_code_sits_between_second_slash_and_colon() {
    assert_eq!(split_spre_material_code("/VMB1/CPP00102:P,50"), Some("CPP00102".to_string()));
    assert_eq!(split_spre_material_code("/VMB1/CPP00102"), None);
    assert_eq!(split_spre_material_code("VMB1"), None);
    assert_eq!(split_spre_material_code("/A OF /B/C:D"), None);
    assert_eq!(split_spre_material_code("/A/:x"), Some("".to_string()));
}

#[test]
fn size_is_looked_up_by_the_second_parameter() {
    let mut map: StringHashMap<String> = StringHashMap::new();
    map.insert("50".to_string(), "DN50".to_string());
    assert_eq!(get_spre_size_from_map("/VMB1/CPP00102:P,50", &map), Some("DN50".to_string()));
    assert_eq!(get_spre_size_from_map("/VMB1/CPP00102:P, 50 ", &map), Some("DN50".to_string()));
    assert_eq!(get_spre_size_from_map("/VMB1/CPP00102:P,80", &map), None);
    assert_eq!(get_spre_size_from_map("/VMB1/CPP00102:P", &map), None);
    assert_eq!(get_spre_size_from_map("/VMB1 OF /X/CPP00102:P,50", &map), None);
}

#[test]
fn units_are_compatible_when_equal_generic_or_paired() {
    assert!(check_unit_compatible("DIST", "DIST"));
    assert!(check_unit_compatible("REAL", "ANGL"));
    assert!(check_unit_compatible("ANGL", "NUME"));
    assert!(check_unit_compatible("DATA", "X"));
    assert!(check_unit_compatible("INT", "DIST"));
    assert!(check_unit_compatible("DIST", "INT"));
    assert!(!check_unit_compatible("DIST", "ANGL"));
    assert!(!check_unit_compatible("INT", "ANGL"));
}

#[test]
fn catalogue_expressions_are_normalised() {
    assert_eq!(prepare_eval_str("IFTRUE (A GT B) 1 2"), "if (A>B) 1 2");
    assert_eq!(prepare_eval_str("A GT B"), "A>B");
    assert_eq!(prepare_eval_str("A LT B AND C LE D"), "A<B AND C<=D");
    assert_eq!(prepare_eval_str("A GE B EQ C"), "A>=B==C");
    assert_eq!(prepare_eval_str("ATTRIB PARA[1]"), " PARA[1]");
    assert_eq!(prepare_eval_str("DESIGN PARAM 3 + DESIGN PARA 2"), "DESP 3 + DESP 2");
    assert_eq!(prepare_eval_str(""), "");
}

#[test]
fn database_kinds_have_their_bytes() {
    assert_eq!(DBType::DESI.to_u8(), 1);
    assert_eq!(DBType::SCHE.to_u8(), 14);
    assert_eq!(DBType::UNSET.to_u8(), 15);
    assert_eq!(DBType::try_from_u8(2), Some(DBType::CATA));
    assert_eq!(DBType::try_from_u8(8), None);
    assert_eq!(DBType::try_from_u8(0), None);
}

#[test]
fn context_reads_back_what_was_set() {
    let mut ctx = CataContext::new();
    assert!(!ctx.is_tubi());
    assert_eq!(ctx.get("DESP1"), None);
    assert!(!ctx.contains_key("DESP1"));
    ctx.insert("DESP1", "12.5");
    ctx.insert("DDHEIGHT", "0.0");
    assert_eq!(ctx.get("DESP1"), Some("12.5".to_string()));
    assert!(ctx.contains_key("DDHEIGHT"));
    ctx.insert("DESP1", "40");
    assert_eq!(ctx.get("DESP1"), Some("40".to_string()));
    assert_eq!(ctx.get("DDHEIGHT"), Some("0.0".to_string()));
    assert_eq!(ctx.len(), 2);
    ctx.set_tubi(true);
    assert!(ctx.is_tubi());
    assert_eq!(ctx.get("DESP1"), Some("40".to_string()));
}
