//! The cache of Chinese display names of attributes.
//!
//! It is filled once from the attribute metadata table: every record that
//! carries a non-empty display name is kept under the attribute's name;
//! records with an empty name or none are counted and skipped.
use vstd::prelude::*;
use vstd::hash_map::StringHashMap;

verus! {

/// The statement that reads every attribute name with its display name.
pub const ATTR_META_SQL: &'static str = r#"
        SELECT record::id(id) as id, meta_cn_name 
        FROM att_meta;
    "#;

/// One row of the attribute metadata: the attribute name and its display name.
pub struct AttrMetaRecord {
    pub id: String,
    pub meta_cn_name: Option<String>,
}

/// The names that the rows `records` leave in a cleared cache.
pub open spec fn cn_names_of(records: Seq<AttrMetaRecord>) -> Map<Seq<char>, String>
    decreases records.len(),
{
    if records.len() == 0 {
        Map::empty()
    } else {
        let m = cn_names_of(records.drop_last());
        let r = records.last();
        match r.meta_cn_name {
            Some(cn) => if cn@.len() > 0 {
                m.insert(r.id@, cn)
            } else {
                m
            },
            None => m,
        }
    }
}

/// How many of the rows had an empty display name.
pub open spec fn empty_names_in(records: Seq<AttrMetaRecord>) -> nat
    decreases records.len(),
{
    if records.len() == 0 {
        0
    } else {
        empty_names_in(records.drop_last()) + (match records.last().meta_cn_name {
            Some(cn) => if cn@.len() == 0 {
                1nat
            } else {
                0nat
            },
            None => 0nat,
        })
    }
}

/// How many of the rows had no display name.
pub open spec fn missing_names_in(records: Seq<AttrMetaRecord>) -> nat
    decreases records.len(),
{
    if records.len() == 0 {
        0
    } else {
        missing_names_in(records.drop_last()) + (if records.last().meta_cn_name is None {
            1nat
        } else {
            0nat
        })
    }
}

/// Whether a row carries a non-empty display name.
pub open spec fn has_name(r: AttrMetaRecord) -> bool {
    r.meta_cn_name matches Some(cn) && cn@.len() > 0
}

/// How many rows carry a non-empty display name.
pub open spec fn named_rows(records: Seq<AttrMetaRecord>) -> nat
    decreases records.len(),
{
    if records.len() == 0 {
        0
    } else {
        named_rows(records.drop_last()) + if has_name(records.last()) {
            1nat
        } else {
            0nat
        }
    }
}

/// No attribute name comes in two rows.
pub open spec fn ids_distinct(records: Seq<AttrMetaRecord>) -> bool {
    forall|i: int, j: int| 0 <= i < j < records.len() ==> records[i].id@ != records[j].id@
}

/// The names a load keeps come from the rows, and there are finitely many.
proof fn lemma_cn_names_from_rows(records: Seq<AttrMetaRecord>)
    ensures
        cn_names_of(records).dom().finite(),
        forall|k: Seq<char>|
            #[trigger] cn_names_of(records).contains_key(k) ==> exists|i: int|
                0 <= i < records.len() && records[i].id@ == k,
    decreases records.len(),
{
    if records.len() > 0 {
        let pre = records.drop_last();
        lemma_cn_names_from_rows(pre);
        assert forall|k: Seq<char>| #[trigger] cn_names_of(records).contains_key(k) implies exists|i: int|
            0 <= i < records.len() && records[i].id@ == k by {
            if k == records.last().id@ {
                assert(records[records.len() - 1].id@ == k);
            } else {
                assert(cn_names_of(pre).contains_key(k));
                let i = choose|i: int| 0 <= i < pre.len() && pre[i].id@ == k;
                assert(records[i].id@ == k);
            }
        }
    }
}

/// A load of rows with distinct attribute names keeps exactly the rows with
/// a non-empty display name: each such row's name is found under its
/// attribute name, no other attribute name is found, and the cache holds
/// as many names as there are such rows.
pub proof fn lemma_load_keeps_named_rows(records: Seq<AttrMetaRecord>)
    requires
        ids_distinct(records),
    ensures
        cn_names_of(records).len() == named_rows(records),
        forall|i: int|
            0 <= i < records.len() ==> (#[trigger] has_name(records[i]) ==> cn_names_of(records).contains_key(
                records[i].id@,
            ) && Some(cn_names_of(records)[records[i].id@]) == records[i].meta_cn_name),
        forall|i: int|
            0 <= i < records.len() ==> (!#[trigger] has_name(records[i])
                ==> !cn_names_of(records).contains_key(records[i].id@)),
        forall|k: Seq<char>|
            #[trigger] cn_names_of(records).contains_key(k) ==> exists|i: int|
                0 <= i < records.len() && records[i].id@ == k && has_name(records[i]),
    decreases records.len(),
{
    if records.len() > 0 {
        let pre = records.drop_last();
        let last = records.last();
        let n = records.len() - 1;
        assert(ids_distinct(pre));
        lemma_load_keeps_named_rows(pre);
        lemma_cn_names_from_rows(pre);
        let m = cn_names_of(pre);
        assert(!m.contains_key(last.id@)) by {
            if m.contains_key(last.id@) {
                let i = choose|i: int| 0 <= i < pre.len() && pre[i].id@ == last.id@;
                assert(records[i].id@ != records[n].id@);
            }
        }
        if has_name(last) {
            assert(cn_names_of(records) == m.insert(last.id@, last.meta_cn_name->0));
        } else {
            assert(cn_names_of(records) == m);
        }
        assert forall|i: int| 0 <= i < records.len() implies (#[trigger] has_name(records[i])
            ==> cn_names_of(records).contains_key(records[i].id@) && Some(
            cn_names_of(records)[records[i].id@],
        ) == records[i].meta_cn_name) by {
            if i < n {
                assert(records[i] == pre[i]);
                assert(records[i].id@ != last.id@);
            }
        }
        assert forall|i: int| 0 <= i < records.len() implies (!#[trigger] has_name(records[i])
            ==> !cn_names_of(records).contains_key(records[i].id@)) by {
            if i < n {
                assert(records[i] == pre[i]);
                assert(records[i].id@ != last.id@);
            }
        }
        assert forall|k: Seq<char>| #[trigger] cn_names_of(records).contains_key(k) implies exists|i: int|
            0 <= i < records.len() && records[i].id@ == k && has_name(records[i]) by {
            if k == last.id@ && has_name(last) {
                assert(records[n] == last);
            } else {
                assert(m.contains_key(k));
                let i = choose|i: int| 0 <= i < pre.len() && pre[i].id@ == k && has_name(pre[i]);
                assert(records[i] == pre[i]);
            }
        }
    }
}

/// What a load did: names kept, empty names skipped, missing names skipped.
pub struct AttrLoadSummary {
    pub loaded: usize,
    pub empty_count: usize,
    pub none_count: usize,
}

/// Display names of attributes, keyed by attribute name.
pub struct AttrCnNameCache {
    names: StringHashMap<String>,
}

impl View for AttrCnNameCache {
    type V = Map<Seq<char>, String>;

    closed spec fn view(&self) -> Map<Seq<char>, String> {
        self.names@
    }
}

impl AttrCnNameCache {
    /// An empty cache.
    pub fn new() -> (r: Self)
        ensures
            r@ == Map::<Seq<char>, String>::empty(),
    {
        AttrCnNameCache { names: StringHashMap::new() }
    }

    /// Replaces the cache contents with the display names of `records`.
    pub fn load(&mut self, records: Vec<AttrMetaRecord>) -> (summary: AttrLoadSummary)
        ensures
            final(self)@ == cn_names_of(records@),
            summary.loaded == final(self)@.len(),
            summary.empty_count == empty_names_in(records@),
            summary.none_count == missing_names_in(records@),
    {
        self.names.clear();
        let ghost all = records@;
        let mut empty_count: usize = 0;
        let mut none_count: usize = 0;
        let count = records.len();
        assert(all.len() == count);
        for record in it: records
            invariant
                it.seq() == all,
                it.index() <= all.len(),
                all.len() <= usize::MAX,
                self.names@ == cn_names_of(all.take(it.index() as int)),
                empty_count == empty_names_in(all.take(it.index() as int)),
                none_count == missing_names_in(all.take(it.index() as int)),
                empty_count <= it.index(),
                none_count <= it.index(),
        {
            let ghost i = it.index();
            assert(all.take(i + 1).drop_last() =~= all.take(i as int));
            assert(all.take(i + 1).last() == record);
            match record.meta_cn_name {
                Some(cn_name) => {
                    if !cn_name.as_str().is_empty() {
                        self.names.insert(record.id, cn_name);
                    } else {
                        empty_count = empty_count + 1;
                    }
                },
                None => {
                    none_count = none_count + 1;
                },
            }
        }
        let ghost n = all.len();
        assert(all.take(n as int) =~= all);
        let loaded = self.names.len();
        AttrLoadSummary { loaded, empty_count, none_count }
    }
}

/// The display name of attribute `attr_name`, if the cache has one.
pub fn get_attr_cn_name(cache: &AttrCnNameCache, attr_name: &str) -> (r: Option<String>)
    ensures
        cache@.contains_key(attr_name@) ==> r == Some(cache@[attr_name@]),
        !cache@.contains_key(attr_name@) ==> r is None,
{
    match cache.names.get(attr_name) {
        Some(v) => Some(v.clone()),
        None => None,
    }
}

/// Whether the cache holds any name.
pub fn is_cache_loaded(cache: &AttrCnNameCache) -> (r: bool)
    ensures
        r == (cache@.len() > 0),
{
    cache.names.len() > 0
}

/// How many names the cache holds.
pub fn cache_size(cache: &AttrCnNameCache) -> (r: usize)
    ensures
        r == cache@.len(),
{
    cache.names.len()
}

} // verus!
