use aios_surreal::model_write::{
    convert_to_sql_str_array, current_model_write_mode, is_model_kv_enabled,
    model_write_mode_from_u8, resolve_model_write_targets, resolve_runtime_model_write_targets,
    set_model_write_mode, should_dual_write, split_primary, ModelWriteMode, ModelWriteRegistry,
    ModelWriteTarget,
};

#[test]
fn model_write_routing_dual() {
    let targets = resolve_model_write_targets(ModelWriteMode::Dual, true);
    assert_eq!(targets, vec![ModelWriteTarget::Surreal, ModelWriteTarget::Kv]);
}

#[test]
fn model_write_routing_dual_without_kv() {
    let targets = resolve_model_write_targets(ModelWriteMode::Dual, false);
    assert_eq!(targets, vec![ModelWriteTarget::Surreal]);
}

#[test]
fn model_write_routing_kv_only() {
    let targets = resolve_model_write_targets(ModelWriteMode::KvOnly, true);
    assert_eq!(targets, vec![ModelWriteTarget::Kv, ModelWriteTarget::Surreal]);
}

#[test]
fn model_write_routing_kv_only_without_kv() {
    let targets = resolve_model_write_targets(ModelWriteMode::KvOnly, false);
    assert_eq!(targets, vec![ModelWriteTarget::Surreal]);
}

#[test]
fn model_write_routing_surreal_only() {
    let targets = resolve_model_write_targets(ModelWriteMode::SurrealOnly, true);
    assert_eq!(targets, vec![ModelWriteTarget::Surreal]);
}

#[test]
fn model_write_mode_from_u8_fallbacks_to_surreal_only() {
    assert_eq!(model_write_mode_from_u8(255), ModelWriteMode::SurrealOnly);
}

#[test]
fn model_write_mode_bytes_round_trip() {
    for m in [ModelWriteMode::SurrealOnly, ModelWriteMode::Dual, ModelWriteMode::KvOnly] {
        assert_eq!(model_write_mode_from_u8(m.to_u8()), m);
    }
    assert_eq!(ModelWriteMode::Dual.as_str(), "dual");
    assert_eq!(ModelWriteMode::KvOnly.as_str(), "kv_only");
    assert_eq!(ModelWriteMode::SurrealOnly.as_str(), "surreal_only");
}

#[test]
fn registry_tracks_mode_and_kv_connection() {
    let mut reg = ModelWriteRegistry::new();
    assert_eq!(current_model_write_mode(&reg), ModelWriteMode::SurrealOnly);
    assert!(!is_model_kv_enabled(&reg));
    set_model_write_mode(&mut reg, ModelWriteMode::Dual);
    assert_eq!(current_model_write_mode(&reg), ModelWriteMode::Dual);
    assert!(!should_dual_write(&reg));
    assert_eq!(
        resolve_runtime_model_write_targets(&reg, ModelWriteMode::Dual),
        vec![ModelWriteTarget::Surreal]
    );
    reg.mark_kv_enabled();
    assert!(is_model_kv_enabled(&reg));
    assert!(should_dual_write(&reg));
    assert_eq!(
        resolve_runtime_model_write_targets(&reg, ModelWriteMode::KvOnly),
        vec![ModelWriteTarget::Kv, ModelWriteTarget::Surreal]
    );
    set_model_write_mode(&mut reg, ModelWriteMode::KvOnly);
    assert!(!should_dual_write(&reg));
}

#[test]
fn primary_and_mirrors_are_split() {
    let t = vec![ModelWriteTarget::Kv, ModelWriteTarget::Surreal];
    assert_eq!(split_primary(&t), Some((ModelWriteTarget::Kv, vec![ModelWriteTarget::Surreal])));
    assert_eq!(split_primary(&vec![]), None);
}

#[test]
fn nouns_become_a_quoted_list() {
    assert_eq!(convert_to_sql_str_array(&["PIPE", "BRAN"]), "'PIPE','BRAN'");
    assert_eq!(convert_to_sql_str_array(&[]), "");
}

#[test]
fn kv_mark_is_never_reset() {
    let mut reg = ModelWriteRegistry::new();
    assert!(!is_model_kv_enabled(&reg));
    set_model_write_mode(&mut reg, ModelWriteMode::Dual);
    assert!(!is_model_kv_enabled(&reg));
    reg.mark_kv_enabled();
    for mode in [ModelWriteMode::KvOnly, ModelWriteMode::SurrealOnly, ModelWriteMode::Dual] {
        set_model_write_mode(&mut reg, mode);
        assert!(is_model_kv_enabled(&reg));
        assert_eq!(current_model_write_mode(&reg), mode);
    }
    reg.mark_kv_enabled();
    assert!(is_model_kv_enabled(&reg));
}
