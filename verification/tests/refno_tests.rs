use aios_surreal::geom::get_inst_relate_keys;
use aios_surreal::refno::{parse_refno, RefU64, RefnoEnum};

#[test]
fn reference_numbers_print_and_parse() {
    let r = RefU64::from_parts(12345, 67890);
    assert_eq!(r.get_0(), 12345);
    assert_eq!(r.get_1(), 67890);
    assert_eq!(r.0, 12345u64 * 4294967296 + 67890);
    assert_eq!(r.to_refno_str(), "12345_67890");
    assert_eq!(r.to_pdms_str(), "12345/67890");
    assert_eq!(parse_refno("12345_67890"), Some(r));
    assert_eq!(parse_refno("12345/67890"), Some(r));
    assert_eq!(parse_refno("12345"), None);
    assert_eq!(parse_refno("1_2_3"), None);
    assert_eq!(parse_refno("4294967296_1"), None);
    assert_eq!(parse_refno("a_b"), None);
    assert_eq!(RefnoEnum::from("junk").refno(), RefU64(0));
    let m = RefU64::from_parts(4294967295, 4294967295);
    assert_eq!(parse_refno(&m.to_refno_str()), Some(m));
}

#[test]
fn keys_are_built_from_the_text_form() {
    let r = RefnoEnum::from("17496_106028");
    assert_eq!(r.to_pe_key(), "pe:['17496_106028']");
    assert_eq!(r.to_inst_relate_key(), "inst_relate:⟨17496_106028⟩");
    assert_eq!(r.to_refno_str(), "17496_106028");
}

#[test]
fn inst_relate_keys_or_the_whole_table() {
    assert_eq!(get_inst_relate_keys(&[]), "inst_relate");
    let keys = get_inst_relate_keys(&[RefnoEnum::from("1_2"), RefnoEnum::from("3_4")]);
    assert_eq!(keys, "inst_relate:⟨1_2⟩,inst_relate:⟨3_4⟩");
}
