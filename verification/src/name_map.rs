//! Names of elements kept in the order they were read: each element once,
//! at the place where it first came, with the last name given for it.
//!
//! The map is the insertion-ordered map of the `indexmap` crate, keyed by
//! the packed reference number.
use vstd::prelude::*;
use indexmap::IndexMap;
use crate::refno::RefnoEnum;

verus! {

/// The insertion-ordered map of the `indexmap` crate, as an opaque type.
#[verifier::external_type_specification]
#[verifier::external_body]
#[verifier::reject_recursive_types(K)]
#[verifier::reject_recursive_types(V)]
#[verifier::reject_recursive_types(S)]
pub struct ExIndexMap<K, V, S>(IndexMap<K, V, S>);

/// What a name map holds, in its order: packed reference number and name.
pub uninterp spec fn index_map_entries(m: IndexMap<u64, String>) -> Seq<(u64, Seq<char>)>;

/// `i` is the first place of key `k` in `s`.
pub open spec fn key_at(s: Seq<(u64, Seq<char>)>, k: u64, i: int) -> bool {
    &&& 0 <= i < s.len()
    &&& s[i].0 == k
    &&& forall|j: int| 0 <= j < i ==> s[j].0 != k
}

/// The first place of key `k` in `s`, if it is there.
pub open spec fn key_place(s: Seq<(u64, Seq<char>)>, k: u64) -> Option<int> {
    if exists|i: int| key_at(s, k, i) {
        Some(choose|i: int| key_at(s, k, i))
    } else {
        None
    }
}

/// `s` after putting in `(k, v)`: the name at the place of `k` replaced,
/// or the pair added last when `k` is not there.
pub open spec fn put_entry(s: Seq<(u64, Seq<char>)>, k: u64, v: Seq<char>) -> Seq<(u64, Seq<char>)> {
    match key_place(s, k) {
        Some(i) => s.update(i, (k, v)),
        None => s.push((k, v)),
    }
}

/// Calls `IndexMap::new`, which makes an empty map.
#[verifier::external_body]
fn index_map_new() -> (r: IndexMap<u64, String>)
    ensures
        index_map_entries(r).len() == 0,
{
    IndexMap::new()
}

/// Calls `IndexMap::insert`: a key already there keeps its place and takes
/// the new name; a new key is added last.
#[verifier::external_body]
fn index_map_insert(m: &mut IndexMap<u64, String>, k: u64, v: String)
    ensures
        index_map_entries(*final(m)) == put_entry(index_map_entries(*old(m)), k, v@),
{
    m.insert(k, v);
}

/// The pairs as plain values: packed reference number and name.
pub open spec fn plain_pairs(pairs: Seq<(RefnoEnum, String)>) -> Seq<(u64, Seq<char>)> {
    pairs.map_values(|p: (RefnoEnum, String)| (p.0.spec_refno().0, p.1@))
}

/// The map built by putting in `pairs` one after the other.
pub open spec fn name_map_of(pairs: Seq<(u64, Seq<char>)>) -> Seq<(u64, Seq<char>)>
    decreases pairs.len(),
{
    if pairs.len() == 0 {
        Seq::empty()
    } else {
        put_entry(name_map_of(pairs.drop_last()), pairs.last().0, pairs.last().1)
    }
}

/// The names of elements read as pairs, each element once at its first
/// place with its last name.
pub fn name_map(pairs: Vec<(RefnoEnum, String)>) -> (r: IndexMap<u64, String>)
    ensures
        index_map_entries(r) == name_map_of(plain_pairs(pairs@)),
{
    let ghost all = pairs@;
    let mut m = index_map_new();
    assert(name_map_of(plain_pairs(all.take(0))) =~= index_map_entries(m));
    for p in it: pairs
        invariant
            it.seq() == all,
            it.index() <= all.len(),
            index_map_entries(m) == name_map_of(plain_pairs(all.take(it.index() as int))),
    {
        let ghost i = it.index();
        proof {
            assert(all.take(i + 1).drop_last() =~= all.take(i as int));
            assert(all.take(i + 1).last() == p);
            assert(plain_pairs(all.take(i + 1)).drop_last() =~= plain_pairs(all.take(i as int)));
        }
        let (r, name) = p;
        index_map_insert(&mut m, r.refno().0, name);
    }
    assert(all.take(all.len() as int) =~= all);
    m
}

/// The pairs of `refnos` and `names` taken side by side, as far as both go.
pub open spec fn zip_names(refnos: Seq<RefnoEnum>, names: Seq<String>) -> Seq<(u64, Seq<char>)> {
    let n = if refnos.len() <= names.len() {
        refnos.len()
    } else {
        names.len()
    };
    Seq::new(n, |i: int| (refnos[i].spec_refno().0, names[i]@))
}

/// The names of `refnos`, the `i`-th name given to the `i`-th element (as
/// far as both lists go), each element once at its first place with its
/// last name.
pub fn names_by_refno(refnos: &Vec<RefnoEnum>, names: Vec<String>) -> (r: IndexMap<u64, String>)
    ensures
        index_map_entries(r) == name_map_of(zip_names(refnos@, names@)),
{
    let ghost all = names@;
    let ghost z = zip_names(refnos@, all);
    let mut pairs: Vec<(RefnoEnum, String)> = Vec::new();
    let mut i: usize = 0;
    assert(all.len() == names.len());
    assert(plain_pairs(pairs@) =~= z.take(0));
    for name in it: names
        invariant
            it.seq() == all,
            i == it.index(),
            i <= all.len(),
            all.len() <= usize::MAX,
            z == zip_names(refnos@, all),
            plain_pairs(pairs@) == z.take(
                if i <= refnos.len() {
                    i as int
                } else {
                    refnos.len() as int
                },
            ),
    {
        proof {
            assert(all[i as int] == name);
        }
        if i < refnos.len() {
            proof {
                assert(i < all.len());
                assert(i < z.len());
                assert(z[i as int] == (refnos@[i as int].spec_refno().0, name@));
                assert(plain_pairs(pairs@) == z.take(i as int));
                assert(plain_pairs(pairs@).len() == pairs@.len());
                assert(pairs@.len() == i);
                let np = pairs@.push((refnos@[i as int], name));
                assert forall|j: int| 0 <= j < i + 1 implies #[trigger] plain_pairs(np)[j] == z[j] by {
                    if j < i {
                        assert(np[j] == pairs@[j]);
                        assert(plain_pairs(pairs@)[j] == z.take(i as int)[j]);
                    }
                }
                assert(plain_pairs(np) =~= z.take(i + 1));
            }
            pairs.push((refnos[i], name));
        }
        i = i + 1;
    }
    assert(z.take(z.len() as int) =~= z);
    name_map(pairs)
}

/// No key comes twice.
pub open spec fn keys_unique(s: Seq<(u64, Seq<char>)>) -> bool {
    forall|i: int, j: int| 0 <= i < j < s.len() ==> s[i].0 != s[j].0
}

/// The last name that `pairs` give for key `k`, if any.
pub open spec fn last_name(pairs: Seq<(u64, Seq<char>)>, k: u64) -> Option<Seq<char>>
    decreases pairs.len(),
{
    if pairs.len() == 0 {
        None
    } else if pairs.last().0 == k {
        Some(pairs.last().1)
    } else {
        last_name(pairs.drop_last(), k)
    }
}

/// There is one first place of a key.
proof fn lemma_key_at_unique(s: Seq<(u64, Seq<char>)>, k: u64, i: int, j: int)
    requires
        key_at(s, k, i),
        key_at(s, k, j),
    ensures
        i == j,
{
    if i < j {
        assert(s[i].0 != k);
    } else if j < i {
        assert(s[j].0 != k);
    }
}

/// The first place of a key found at place `i` is `i`.
proof fn lemma_key_place_at(s: Seq<(u64, Seq<char>)>, k: u64, i: int)
    requires
        key_at(s, k, i),
    ensures
        key_place(s, k) == Some(i),
{
    let c = choose|c: int| key_at(s, k, c);
    lemma_key_at_unique(s, k, c, i);
}

/// A key that is nowhere has no place.
proof fn lemma_key_place_none(s: Seq<(u64, Seq<char>)>, k: u64)
    requires
        forall|j: int| 0 <= j < s.len() ==> s[j].0 != k,
    ensures
        key_place(s, k) is None,
{
}

/// A key has a place exactly when some entry has it, and the entry there
/// has it.
proof fn lemma_key_place_found(s: Seq<(u64, Seq<char>)>, k: u64)
    ensures
        key_place(s, k) matches Some(i) ==> 0 <= i < s.len() && s[i].0 == k,
        key_place(s, k) is None <==> forall|j: int| 0 <= j < s.len() ==> s[j].0 != k,
{
    if exists|j: int| 0 <= j < s.len() && s[j].0 == k {
        let j0 = choose|j: int| 0 <= j < s.len() && s[j].0 == k;
        lemma_first_key_from(s, k, j0);
    }
}

/// Below a place holding `k` there is a first place of `k`.
proof fn lemma_first_key_from(s: Seq<(u64, Seq<char>)>, k: u64, j: int)
    requires
        0 <= j < s.len(),
        s[j].0 == k,
    ensures
        exists|i: int| key_at(s, k, i),
    decreases j,
{
    if forall|m: int| 0 <= m < j ==> s[m].0 != k {
        assert(key_at(s, k, j));
    } else {
        let m = choose|m: int| 0 <= m < j && s[m].0 == k;
        lemma_first_key_from(s, k, m);
    }
}

/// Putting in an entry keeps the keys unique, gives `k` the name `v`, and
/// leaves every other key where it was with its name.
proof fn lemma_put_entry(s: Seq<(u64, Seq<char>)>, k: u64, v: Seq<char>, other: u64)
    requires
        keys_unique(s),
        other != k,
    ensures
        keys_unique(put_entry(s, k, v)),
        key_place(put_entry(s, k, v), k) matches Some(i) && put_entry(s, k, v)[i].1 == v,
        key_place(put_entry(s, k, v), other) == key_place(s, other),
        key_place(s, other) matches Some(i) ==> put_entry(s, k, v)[i] == s[i],
{
    let t = put_entry(s, k, v);
    lemma_key_place_found(s, k);
    lemma_key_place_found(s, other);
    match key_place(s, k) {
        Some(i) => {
            assert(t.len() == s.len());
            assert forall|a: int, b: int| 0 <= a < b < t.len() implies t[a].0 != t[b].0 by {
                if a != i && b != i {
                    assert(t[a] == s[a] && t[b] == s[b]);
                }
            }
            assert(key_at(t, k, i)) by {
                assert forall|j: int| 0 <= j < i implies t[j].0 != k by {
                    assert(t[j] == s[j]);
                }
            }
            lemma_key_place_at(t, k, i);
        },
        None => {
            assert forall|a: int, b: int| 0 <= a < b < t.len() implies t[a].0 != t[b].0 by {
                if b < s.len() {
                    assert(t[a] == s[a] && t[b] == s[b]);
                } else {
                    assert(t[a] == s[a]);
                }
            }
            assert(key_at(t, k, s.len() as int)) by {
                assert forall|j: int| 0 <= j < s.len() implies t[j].0 != k by {
                    assert(t[j] == s[j]);
                }
            }
            lemma_key_place_at(t, k, s.len() as int);
        },
    }
    match key_place(s, other) {
        Some(i) => {
            assert(key_at(s, other, i)) by {
                let c = choose|c: int| key_at(s, other, c);
                assert(key_at(s, other, c));
            }
            assert(t[i] == s[i]);
            assert(key_at(t, other, i)) by {
                assert forall|j: int| 0 <= j < i implies t[j].0 != other by {
                    if t[j] != s[j] {
                        assert(t[j].0 == k);
                    }
                }
            }
            lemma_key_place_at(t, other, i);
        },
        None => {
            assert forall|j: int| 0 <= j < t.len() implies t[j].0 != other by {
                if j < s.len() && t[j] == s[j] {
                } else {
                    assert(t[j].0 == k);
                }
            }
            lemma_key_place_none(t, other);
        },
    }
}

/// The names read as pairs give each element once, and the element's
/// entry holds the last name given for it; an element never given a name
/// has no entry.
pub proof fn lemma_name_map_last_wins(pairs: Seq<(u64, Seq<char>)>, k: u64)
    ensures
        keys_unique(name_map_of(pairs)),
        match last_name(pairs, k) {
            Some(v) => key_place(name_map_of(pairs), k) matches Some(i) && name_map_of(pairs)[i].1
                == v,
            None => key_place(name_map_of(pairs), k) is None,
        },
    decreases pairs.len(),
{
    if pairs.len() == 0 {
        lemma_key_place_none(name_map_of(pairs), k);
    } else {
        let pre = pairs.drop_last();
        let (k0, v0) = pairs.last();
        lemma_name_map_last_wins(pre, k);
        let other = if k0 == 0 {
            1u64
        } else {
            0u64
        };
        if k == k0 {
            lemma_put_entry(name_map_of(pre), k0, v0, other);
        } else {
            lemma_put_entry(name_map_of(pre), k0, v0, k);
        }
    }
}

} // verus!
