//! Settings and counters of the query result caches.
//!
//! A cache lookup counts as a hit or a miss, a store or removal refreshes
//! the recorded size, clearing counts every held entry as evicted, and a
//! reset zeroes the hit, miss and eviction counters and stamps the time.
use vstd::prelude::*;
use std::time::Instant;
use cached::{Cached, TtlCache};
use crate::refno::RefnoEnum;

verus! {

/// Settings of one cache.
#[derive(Debug, Clone)]
pub struct CacheConfig {
    /// Most entries held.
    pub capacity: usize,
    /// Seconds an entry lives.
    pub ttl_seconds: u64,
    /// Whether the cache is used at all.
    pub enabled: bool,
    /// Seconds between statistics reports.
    pub stats_interval_seconds: u64,
}

impl CacheConfig {
    /// 10000 entries living 300 seconds, enabled, statistics every 60 seconds.
    pub fn default_config() -> (r: Self)
        ensures
            r.capacity == 10000,
            r.ttl_seconds == 300,
            r.enabled,
            r.stats_interval_seconds == 60,
    {
        CacheConfig { capacity: 10000, ttl_seconds: 300, enabled: true, stats_interval_seconds: 60 }
    }
}

impl Default for CacheConfig {
    fn default() -> (r: Self)
        ensures
            r.capacity == 10000,
            r.ttl_seconds == 300,
            r.enabled,
            r.stats_interval_seconds == 60,
    {
        CacheConfig::default_config()
    }
}

#[verifier::external_type_specification]
#[verifier::external_body]
pub struct ExInstant(Instant);

/// Calls `Instant::now`, the current time of the monotonic clock. Nothing
/// is claimed of the value.
#[verifier::external_body]
fn instant_now() -> Instant {
    Instant::now()
}

/// Counters of one cache.
#[derive(Debug, Clone)]
pub struct CacheStats {
    pub hits: u64,
    pub misses: u64,
    pub evictions: u64,
    pub size: usize,
    pub last_reset: Option<Instant>,
}

impl CacheStats {
    /// All counters zero, never reset.
    pub fn new() -> (r: Self)
        ensures
            r.hits == 0,
            r.misses == 0,
            r.evictions == 0,
            r.size == 0,
            r.last_reset is None,
    {
        CacheStats { hits: 0, misses: 0, evictions: 0, size: 0, last_reset: None }
    }

    /// Zeroes the hit, miss and eviction counters and stamps the reset
    /// time; the size is kept.
    pub fn reset(&mut self)
        ensures
            final(self).hits == 0,
            final(self).misses == 0,
            final(self).evictions == 0,
            final(self).size == old(self).size,
            final(self).last_reset is Some,
    {
        self.hits = 0;
        self.misses = 0;
        self.evictions = 0;
        self.last_reset = Some(instant_now());
    }

    /// Counts a lookup as a hit or a miss.
    pub fn record_lookup(&mut self, hit: bool)
        requires
            hit ==> old(self).hits < u64::MAX,
            !hit ==> old(self).misses < u64::MAX,
        ensures
            hit ==> final(self).hits == old(self).hits + 1 && final(self).misses == old(self).misses,
            !hit ==> final(self).misses == old(self).misses + 1 && final(self).hits == old(self).hits,
            final(self).evictions == old(self).evictions,
            final(self).size == old(self).size,
            final(self).last_reset == old(self).last_reset,
    {
        if hit {
            self.hits = self.hits + 1;
        } else {
            self.misses = self.misses + 1;
        }
    }

    /// Records the number of entries after a store or a removal.
    pub fn record_size(&mut self, size: usize)
        ensures
            final(self).size == size,
            final(self).hits == old(self).hits,
            final(self).misses == old(self).misses,
            final(self).evictions == old(self).evictions,
            final(self).last_reset == old(self).last_reset,
    {
        self.size = size;
    }

    /// Records that the cache was cleared: every held entry counts as an
    /// eviction and the size drops to zero.
    pub fn record_clear(&mut self)
        requires
            old(self).evictions + old(self).size <= u64::MAX,
        ensures
            final(self).evictions == old(self).evictions + old(self).size,
            final(self).size == 0,
            final(self).hits == old(self).hits,
            final(self).misses == old(self).misses,
            final(self).last_reset == old(self).last_reset,
    {
        self.evictions = self.evictions + self.size as u64;
        self.size = 0;
    }
}


/// The time-bound cache store of the `cached` crate, as an opaque type.
#[verifier::external_type_specification]
#[verifier::external_body]
#[verifier::reject_recursive_types(K)]
#[verifier::reject_recursive_types(V)]
#[verifier::reject_recursive_types(S)]
pub struct ExTtlCache<K, V, S>(TtlCache<K, V, S>);

/// What a cache store holds: every stored entry by key, whether its time
/// has run out or not (an entry that has run out is dropped when it is
/// next read).
pub uninterp spec fn ttl_entries(c: TtlCache<String, String>) -> Map<Seq<char>, Seq<char>>;

/// Builds a store whose entries live `ttl_secs` seconds, with room for
/// `capacity` entries set aside, through `TtlCache::builder`. The builder
/// refuses a zero time, and only that, so a non-zero time is required.
#[verifier::external_body]
fn ttl_cache_build(ttl_secs: u64, capacity: usize) -> (r: TtlCache<String, String>)
    requires
        ttl_secs > 0,
    ensures
        ttl_entries(r).len() == 0,
        ttl_entries(r).dom().finite(),
{
    TtlCache::builder().ttl_secs(ttl_secs).initial_capacity(capacity).build().expect("a non-zero time")
}

/// Calls `Cached::cache_get` and clones the value found. An entry whose
/// time has not run out is returned and the store is unchanged; otherwise
/// nothing is returned and the entry, if stored, is dropped. Which of the
/// two happens depends on the clock.
#[verifier::external_body]
fn ttl_cache_get(c: &mut TtlCache<String, String>, key: &str) -> (r: Option<String>)
    ensures
        r matches Some(v) ==> ttl_entries(*old(c)).contains_key(key@) && v@ == ttl_entries(
            *old(c),
        )[key@] && ttl_entries(*final(c)) == ttl_entries(*old(c)),
        r is None ==> ttl_entries(*final(c)) == ttl_entries(*old(c)).remove(key@),
{
    match c.cache_get(key) {
        Some(v) => Some(v.clone()),
        None => None,
    }
}

/// Calls `Cached::cache_set`: `key` now holds `value`, with a fresh time.
#[verifier::external_body]
fn ttl_cache_set(c: &mut TtlCache<String, String>, key: String, value: String)
    ensures
        ttl_entries(*final(c)) == ttl_entries(*old(c)).insert(key@, value@),
{
    c.cache_set(key, value);
}

/// Calls `Cached::cache_remove`: the entry of `key` is dropped; its value
/// is returned when its time had not run out.
#[verifier::external_body]
fn ttl_cache_remove(c: &mut TtlCache<String, String>, key: &str) -> (r: Option<String>)
    ensures
        ttl_entries(*final(c)) == ttl_entries(*old(c)).remove(key@),
        r matches Some(v) ==> ttl_entries(*old(c)).contains_key(key@) && v@ == ttl_entries(
            *old(c),
        )[key@],
        !ttl_entries(*old(c)).contains_key(key@) ==> r is None,
{
    c.cache_remove(key)
}

/// Calls `Cached::cache_clear`: every entry is dropped.
#[verifier::external_body]
fn ttl_cache_clear(c: &mut TtlCache<String, String>)
    ensures
        ttl_entries(*final(c)).len() == 0,
        ttl_entries(*final(c)).dom().finite(),
{
    c.cache_clear();
}

/// Calls `Cached::cache_size`, the number of stored entries (those whose
/// time has run out included, until they are dropped).
#[verifier::external_body]
fn ttl_cache_size(c: &TtlCache<String, String>) -> (r: usize)
    ensures
        r == ttl_entries(*c).len(),
{
    c.cache_size()
}

/// A cache of texts by key: entries live for the configured time, lookups
/// are counted as hits or misses, and a disabled cache holds and finds
/// nothing.
pub struct CacheManager {
    cache: TtlCache<String, String>,
    stats: CacheStats,
    config: CacheConfig,
}

impl CacheManager {
    /// The stored entries.
    pub closed spec fn entries(self) -> Map<Seq<char>, Seq<char>> {
        ttl_entries(self.cache)
    }

    /// The counters as kept.
    pub closed spec fn counters(self) -> (u64, u64, u64, usize) {
        (self.stats.hits, self.stats.misses, self.stats.evictions, self.stats.size)
    }

    /// Whether the cache is in use.
    pub open spec fn enabled(self) -> bool {
        self.settings().enabled
    }

    /// The settings the cache was made with.
    pub closed spec fn settings(self) -> CacheConfig {
        self.config
    }

    /// When the counters were last reset, if ever.
    pub closed spec fn last_reset(self) -> Option<Instant> {
        self.stats.last_reset
    }

    /// A cache with the settings `config` (whose entry time must not be
    /// zero: the store refuses it), empty, with all counters at zero.
    pub fn new(config: CacheConfig) -> (r: Self)
        requires
            config.ttl_seconds > 0,
        ensures
            r.entries().len() == 0,
            r.counters() == (0u64, 0u64, 0u64, 0usize),
            r.settings() == config,
            r.last_reset() is None,
    {
        let cache = ttl_cache_build(config.ttl_seconds, config.capacity);
        CacheManager { cache, stats: CacheStats::new(), config }
    }

    /// The value of `key` if the cache is in use and holds it live; a hit
    /// or a miss is counted. A disabled cache finds nothing and counts
    /// nothing.
    pub fn get(&mut self, key: &str) -> (r: Option<String>)
        requires
            old(self).counters().0 < u64::MAX,
            old(self).counters().1 < u64::MAX,
        ensures
            final(self).settings() == old(self).settings(),
            final(self).last_reset() == old(self).last_reset(),
            final(self).enabled() == old(self).enabled(),
            !old(self).enabled() ==> r is None && final(self).entries() == old(self).entries()
                && final(self).counters() == old(self).counters(),
            old(self).enabled() ==> match r {
                Some(v) => old(self).entries().contains_key(key@) && v@ == old(self).entries()[key@]
                    && final(self).entries() == old(self).entries() && final(self).counters() == (
                    (old(self).counters().0 + 1) as u64,
                    old(self).counters().1,
                    old(self).counters().2,
                    old(self).counters().3,
                ),
                None => final(self).entries() == old(self).entries().remove(key@)
                    && final(self).counters() == (
                    old(self).counters().0,
                    (old(self).counters().1 + 1) as u64,
                    old(self).counters().2,
                    old(self).counters().3,
                ),
            },
    {
        if !self.config.enabled {
            return None;
        }
        let r = ttl_cache_get(&mut self.cache, key);
        self.stats.record_lookup(r.is_some());
        r
    }

    /// Stores `value` under `key` if the cache is in use, and records the
    /// number of stored entries.
    pub fn set(&mut self, key: String, value: String)
        ensures
            final(self).settings() == old(self).settings(),
            final(self).last_reset() == old(self).last_reset(),
            final(self).enabled() == old(self).enabled(),
            !old(self).enabled() ==> final(self).entries() == old(self).entries()
                && final(self).counters() == old(self).counters(),
            old(self).enabled() ==> final(self).entries() == old(self).entries().insert(key@, value@)
                && final(self).counters() == (
                old(self).counters().0,
                old(self).counters().1,
                old(self).counters().2,
                final(self).entries().len() as usize,
            ),
    {
        if !self.config.enabled {
            return;
        }
        ttl_cache_set(&mut self.cache, key, value);
        let n = ttl_cache_size(&self.cache);
        self.stats.record_size(n);
    }

    /// Drops the entry of `key` if the cache is in use, records the number
    /// of stored entries, and gives the value it held if its time had not
    /// run out. A disabled cache gives nothing.
    pub fn remove(&mut self, key: &str) -> (r: Option<String>)
        ensures
            final(self).settings() == old(self).settings(),
            final(self).last_reset() == old(self).last_reset(),
            final(self).enabled() == old(self).enabled(),
            !old(self).enabled() ==> r is None && final(self).entries() == old(self).entries()
                && final(self).counters() == old(self).counters(),
            old(self).enabled() ==> final(self).entries() == old(self).entries().remove(key@)
                && final(self).counters() == (
                old(self).counters().0,
                old(self).counters().1,
                old(self).counters().2,
                final(self).entries().len() as usize,
            ) && (r matches Some(v) ==> old(self).entries().contains_key(key@) && v@ == old(
                self,
            ).entries()[key@]) && (!old(self).entries().contains_key(key@) ==> r is None),
    {
        if !self.config.enabled {
            return None;
        }
        let r = ttl_cache_remove(&mut self.cache, key);
        let n = ttl_cache_size(&self.cache);
        self.stats.record_size(n);
        r
    }

    /// Drops every entry; the recorded size counts as evicted and drops to
    /// zero.
    pub fn clear(&mut self)
        requires
            old(self).counters().2 + old(self).counters().3 <= u64::MAX,
        ensures
            final(self).settings() == old(self).settings(),
            final(self).last_reset() == old(self).last_reset(),
            final(self).enabled() == old(self).enabled(),
            final(self).entries().len() == 0,
            final(self).counters() == (
                old(self).counters().0,
                old(self).counters().1,
                (old(self).counters().2 + old(self).counters().3) as u64,
                0usize,
            ),
    {
        ttl_cache_clear(&mut self.cache);
        self.stats.record_clear();
    }

    /// The counters, with the size brought up to the number of stored
    /// entries (which the cache keeps too).
    pub fn stats(&mut self) -> (r: CacheStats)
        ensures
            final(self).settings() == old(self).settings(),
            final(self).last_reset() == old(self).last_reset(),
            final(self).enabled() == old(self).enabled(),
            final(self).entries() == old(self).entries(),
            (r.hits, r.misses, r.evictions, r.size) == final(self).counters(),
            r.last_reset == final(self).last_reset(),
            final(self).counters() == (
                old(self).counters().0,
                old(self).counters().1,
                old(self).counters().2,
                old(self).entries().len() as usize,
            ),
    {
        let n = ttl_cache_size(&self.cache);
        self.stats.record_size(n);
        CacheStats {
            hits: self.stats.hits,
            misses: self.stats.misses,
            evictions: self.stats.evictions,
            size: self.stats.size,
            last_reset: self.stats.last_reset,
        }
    }

    /// Zeroes the hit, miss and eviction counters and stamps the time; the
    /// entries and the recorded size stay.
    pub fn reset_stats(&mut self)
        ensures
            final(self).settings() == old(self).settings(),
            final(self).last_reset() is Some,
            final(self).enabled() == old(self).enabled(),
            final(self).entries() == old(self).entries(),
            final(self).counters() == (0u64, 0u64, 0u64, old(self).counters().3),
    {
        self.stats.reset();
    }

    /// Whether the cache is in use and holds `key` live; an entry whose
    /// time has run out is dropped. Nothing is counted.
    pub fn contains_key(&mut self, key: &str) -> (r: bool)
        ensures
            final(self).settings() == old(self).settings(),
            final(self).last_reset() == old(self).last_reset(),
            final(self).enabled() == old(self).enabled(),
            final(self).counters() == old(self).counters(),
            !old(self).enabled() ==> !r && final(self).entries() == old(self).entries(),
            old(self).enabled() ==> (r ==> old(self).entries().contains_key(key@)
                && final(self).entries() == old(self).entries()) && (!r ==> final(self).entries()
                == old(self).entries().remove(key@)),
    {
        if !self.config.enabled {
            return false;
        }
        ttl_cache_get(&mut self.cache, key).is_some()
    }

    /// The number of stored entries.
    pub fn size(&self) -> (r: usize)
        ensures
            r == self.entries().len(),
    {
        ttl_cache_size(&self.cache)
    }
}


/// The query caches kept per element. Of the original caches this holds
/// the type names; the element records and attribute maps it also cached
/// are types that this library does not hold, and the child and ancestor
/// lists would need a store of lists.
pub struct QueryCacheManager {
    type_cache: CacheManager,
}

impl QueryCacheManager {
    /// Well-formed: the type-name cache is in use.
    pub closed spec fn wf(self) -> bool {
        self.type_cache.enabled()
    }

    /// The cached type names, by the element's `ref0_ref1` text.
    pub closed spec fn type_names(self) -> Map<Seq<char>, Seq<char>> {
        self.type_cache.entries()
    }

    /// The type-name counters: hits, misses, evictions, recorded size.
    pub closed spec fn type_counters(self) -> (u64, u64, u64, usize) {
        self.type_cache.counters()
    }

    /// Empty caches with the default settings.
    pub fn new() -> (r: Self)
        ensures
            r.wf(),
            r.type_names().len() == 0,
            r.type_counters() == (0u64, 0u64, 0u64, 0usize),
    {
        QueryCacheManager { type_cache: CacheManager::new(CacheConfig::default_config()) }
    }

    /// The cached type name of `refno`, if held live; counted as a hit or
    /// a miss.
    pub fn get_type_name(&mut self, refno: &RefnoEnum) -> (r: Option<String>)
        requires
            old(self).wf(),
            old(self).type_counters().0 < u64::MAX,
            old(self).type_counters().1 < u64::MAX,
        ensures
            final(self).wf(),
            ({
                let k = refno.spec_refno().refno_text();
                match r {
                    Some(v) => old(self).type_names().contains_key(k) && v@ == old(
                        self,
                    ).type_names()[k] && final(self).type_names() == old(self).type_names(),
                    None => final(self).type_names() == old(self).type_names().remove(k),
                }
            }),
    {
        let k = refno.to_refno_str();
        self.type_cache.get(k.as_str())
    }

    /// Caches the type name of `refno`.
    pub fn set_type_name(&mut self, refno: &RefnoEnum, name: String)
        requires
            old(self).wf(),
        ensures
            final(self).wf(),
            final(self).type_names() == old(self).type_names().insert(
                refno.spec_refno().refno_text(),
                name@,
            ),
    {
        let k = refno.to_refno_str();
        self.type_cache.set(k, name);
    }

    /// Drops what is cached of `refno`.
    pub fn clear_refno_caches(&mut self, refno: &RefnoEnum)
        requires
            old(self).wf(),
        ensures
            final(self).wf(),
            final(self).type_names() == old(self).type_names().remove(refno.spec_refno().refno_text()),
    {
        let k = refno.to_refno_str();
        let _ = self.type_cache.remove(k.as_str());
    }

    /// Drops everything cached.
    pub fn clear_all(&mut self)
        requires
            old(self).wf(),
            old(self).type_counters().2 + old(self).type_counters().3 <= u64::MAX,
        ensures
            final(self).wf(),
            final(self).type_names().len() == 0,
    {
        self.type_cache.clear();
    }
}

} // verus!
