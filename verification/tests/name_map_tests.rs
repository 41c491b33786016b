use aios_surreal::name_map::{name_map, names_by_refno};
use aios_surreal::refno::{RefU64, RefnoEnum};

fn r(a: u32, b: u32) -> RefnoEnum {
    RefnoEnum::Refno(RefU64::from_parts(a, b))
}

fn key(a: u32, b: u32) -> u64 {
    RefU64::from_parts(a, b).0
}

#[test]
fn pairs_keep_first_place_and_last_name() {
    let m = name_map(vec![
        (r(1, 1), "/A".to_string()),
        (r(1, 2), "/B".to_string()),
        (r(1, 1), "/A2".to_string()),
        (r(1, 3), "/C".to_string()),
    ]);
    let entries: Vec<(u64, String)> = m.iter().map(|(k, v)| (*k, v.clone())).collect();
    assert_eq!(
        entries,
        vec![
            (key(1, 1), "/A2".to_string()),
            (key(1, 2), "/B".to_string()),
            (key(1, 3), "/C".to_string()),
        ]
    );
    assert_eq!(m.get(&key(1, 1)), Some(&"/A2".to_string()));
    assert!(name_map(vec![]).is_empty());
}

#[test]
fn names_pair_up_as_far_as_both_go() {
    let refnos = vec![r(2, 1), r(2, 2), r(2, 3)];
    let m = names_by_refno(&refnos, vec!["/X".to_string(), "/Y".to_string()]);
    assert_eq!(m.len(), 2);
    assert_eq!(m.get(&key(2, 1)), Some(&"/X".to_string()));
    assert_eq!(m.get(&key(2, 2)), Some(&"/Y".to_string()));
    assert_eq!(m.get(&key(2, 3)), None);
    let twice = names_by_refno(&vec![r(3, 1), r(3, 1)], vec!["/P".to_string(), "/Q".to_string()]);
    assert_eq!(twice.len(), 1);
    assert_eq!(twice.get(&key(3, 1)), Some(&"/Q".to_string()));
}
