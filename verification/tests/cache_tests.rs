use aios_surreal::attr_cache::{cache_size, get_attr_cn_name, is_cache_loaded, AttrCnNameCache, AttrMetaRecord};
use aios_surreal::cache_manager::{CacheConfig, CacheManager, CacheStats, QueryCacheManager};
use aios_surreal::refno::{RefU64, RefnoEnum};

fn rec(id: &str, name: Option<&str>) -> AttrMetaRecord {
    AttrMetaRecord { id: id.to_string(), meta_cn_name: name.map(|s| s.to_string()) }
}

#[test]
fn attribute_names_are_loaded_when_present() {
    let mut cache = AttrCnNameCache::new();
    assert!(!is_cache_loaded(&cache));
    assert_eq!(cache_size(&cache), 0);
    let summary = cache.load(vec![
        rec("NAME", Some("名称")),
        rec("REFNO", Some("")),
        rec("OWNER", None),
        rec("POS", Some("位置")),
        rec("NAME", Some("名字")),
    ]);
    assert_eq!(summary.loaded, 2);
    assert_eq!(summary.empty_count, 1);
    assert_eq!(summary.none_count, 1);
    assert!(is_cache_loaded(&cache));
    assert_eq!(cache_size(&cache), 2);
    assert_eq!(get_attr_cn_name(&cache, "NAME"), Some("名字".to_string()));
    assert_eq!(get_attr_cn_name(&cache, "POS"), Some("位置".to_string()));
    assert_eq!(get_attr_cn_name(&cache, "REFNO"), None);
    assert_eq!(get_attr_cn_name(&cache, "OWNER"), None);
    let summary = cache.load(vec![rec("X", Some("叉"))]);
    assert_eq!(summary.loaded, 1);
    assert_eq!(get_attr_cn_name(&cache, "NAME"), None);
}

#[test]
fn cache_config_defaults() {
    let c = CacheConfig::default();
    assert_eq!(c.capacity, 10000);
    assert_eq!(c.ttl_seconds, 300);
    assert!(c.enabled);
    assert_eq!(c.stats_interval_seconds, 60);
}

#[test]
fn cache_counters_follow_lookups_and_clears() {
    let mut s = CacheStats::new();
    s.record_lookup(true);
    s.record_lookup(true);
    s.record_lookup(false);
    assert_eq!(s.hits, 2);
    assert_eq!(s.misses, 1);
    s.record_size(7);
    s.record_clear();
    assert_eq!(s.evictions, 7);
    assert_eq!(s.size, 0);
    s.record_size(3);
    s.reset();
    assert_eq!(s.hits, 0);
    assert_eq!(s.misses, 0);
    assert_eq!(s.evictions, 0);
    assert_eq!(s.size, 3);
    assert!(s.last_reset.is_some());
}

#[test]
fn load_keeps_one_name_per_named_row() {
    let row = |id: &str, cn: Option<&str>| AttrMetaRecord { id: id.to_string(), meta_cn_name: cn.map(|c| c.to_string()) };
    let mut cache = AttrCnNameCache::new();
    cache.load(vec![row("OLD", Some("旧"))]);
    let summary = cache.load(vec![
        row("NAME", Some("名称")),
        row("DESC", Some("")),
        row("OWNER", None),
        row("REFNO", Some("参考号")),
    ]);
    assert_eq!(cache_size(&cache), 2);
    assert_eq!(summary.loaded, 2);
    assert_eq!(get_attr_cn_name(&cache, "NAME"), Some("名称".to_string()));
    assert_eq!(get_attr_cn_name(&cache, "REFNO"), Some("参考号".to_string()));
    assert_eq!(get_attr_cn_name(&cache, "DESC"), None);
    assert_eq!(get_attr_cn_name(&cache, "OWNER"), None);
    assert_eq!(get_attr_cn_name(&cache, "OLD"), None);
    assert!(is_cache_loaded(&cache));
}

#[test]
fn test_cache_manager_basic_operations() {
    let config = CacheConfig { capacity: 100, ttl_seconds: 60, enabled: true, stats_interval_seconds: 10 };
    let mut cache = CacheManager::new(config);
    cache.set("key1".to_string(), "42".to_string());
    assert_eq!(cache.get("key1"), Some("42".to_string()));
    assert_eq!(cache.get("key2"), None);
    assert_eq!(cache.remove("key1"), Some("42".to_string()));
    assert_eq!(cache.get("key1"), None);
}

#[test]
fn test_cache_stats() {
    let mut cache = CacheManager::new(CacheConfig::default());
    cache.set("key1".to_string(), "1".to_string());
    cache.set("key2".to_string(), "2".to_string());
    cache.get("key1");
    cache.get("key1");
    cache.get("key3");
    let stats = cache.stats();
    assert_eq!(stats.hits, 2);
    assert_eq!(stats.misses, 1);
    let rate = stats.hits as f64 / (stats.hits + stats.misses) as f64;
    assert!(rate > 0.5);
    assert_eq!(stats.size, 2);
}

#[test]
fn disabled_cache_holds_nothing_and_clear_counts_evictions() {
    let off = CacheConfig { capacity: 10, ttl_seconds: 60, enabled: false, stats_interval_seconds: 10 };
    let mut cache = CacheManager::new(off);
    cache.set("a".to_string(), "1".to_string());
    assert_eq!(cache.size(), 0);
    assert_eq!(cache.get("a"), None);
    assert!(!cache.contains_key("a"));
    let mut on = CacheManager::new(CacheConfig::default());
    on.set("a".to_string(), "1".to_string());
    on.set("b".to_string(), "2".to_string());
    assert!(on.contains_key("a"));
    on.clear();
    let s = on.stats();
    assert_eq!(s.evictions, 2);
    assert_eq!(s.size, 0);
    assert!(s.last_reset.is_none());
    on.reset_stats();
    let after = on.stats();
    assert_eq!(after.evictions, 0);
    assert!(after.last_reset.is_some());
}

#[test]
fn query_cache_keeps_type_names_by_element() {
    let a = RefnoEnum::Refno(RefU64::from_parts(1, 2));
    let b = RefnoEnum::Refno(RefU64::from_parts(1, 3));
    let mut q = QueryCacheManager::new();
    assert_eq!(q.get_type_name(&a), None);
    q.set_type_name(&a, "PIPE".to_string());
    q.set_type_name(&b, "BRAN".to_string());
    assert_eq!(q.get_type_name(&a), Some("PIPE".to_string()));
    q.clear_refno_caches(&a);
    assert_eq!(q.get_type_name(&a), None);
    assert_eq!(q.get_type_name(&b), Some("BRAN".to_string()));
    q.clear_all();
    assert_eq!(q.get_type_name(&b), None);
}
