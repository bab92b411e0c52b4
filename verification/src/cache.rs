//! The bounded store of remembered verdicts.
//!
//! Verdicts are kept in an [`LruCache`] keyed by (server name, snapshot).
//! The cache is modelled as the sequence of its entries, least recently used
//! first, together with the limit it was created with.

use lru_cache::LruCache;
use std::hash::BuildHasher;
use std::hash::Hash;
use vstd::prelude::*;

verus! {

/// A requesting server's name and a snapshot identifier.
pub type CacheKey = (Seq<char>, u64);

/// A key and the verdict remembered for it.
pub type CacheEntry = (CacheKey, bool);

/// `lru_cache::LruCache`, held as an opaque value: what is known of one is
/// what [`cached_entries`] and [`cache_limit`] say of it.
#[verifier::external_type_specification]
#[verifier::external_body]
#[verifier::reject_recursive_types(K)]
#[verifier::reject_recursive_types(V)]
#[verifier::reject_recursive_types(S)]
pub struct ExLruCache<K: Eq + Hash, V, S: BuildHasher>(LruCache<K, V, S>);

/// The entries that an [`LruCache`] holds, least recently used first.
pub uninterp spec fn cached_entries(cache: LruCache<(String, u64), bool>) -> Seq<CacheEntry>;

/// The number of entries that an [`LruCache`] was told to keep at most.
pub uninterp spec fn cache_limit(cache: LruCache<(String, u64), bool>) -> nat;

/// Whether some entry has this key.
pub open spec fn holds(entries: Seq<CacheEntry>, key: CacheKey) -> bool {
    exists|i: int| 0 <= i < entries.len() && (#[trigger] entries[i]).0 == key
}

/// The place of an entry with this key, where there is one.
pub open spec fn position(entries: Seq<CacheEntry>, key: CacheKey) -> int {
    choose|i: int| 0 <= i < entries.len() && (#[trigger] entries[i]).0 == key
}

/// The verdict remembered for this key, if any.
pub open spec fn lookup(entries: Seq<CacheEntry>, key: CacheKey) -> Option<bool> {
    if holds(entries, key) {
        Some(entries[position(entries, key)].1)
    } else {
        None
    }
}

/// The entries with the one for this key taken out.
pub open spec fn without(entries: Seq<CacheEntry>, key: CacheKey) -> Seq<CacheEntry> {
    if holds(entries, key) {
        entries.remove(position(entries, key))
    } else {
        entries
    }
}

/// The entries after a look-up of this key: a hit moves the entry to the
/// most recently used end, a miss changes nothing.
pub open spec fn refreshed(entries: Seq<CacheEntry>, key: CacheKey) -> Seq<CacheEntry> {
    match lookup(entries, key) {
        Some(verdict) => without(entries, key).push((key, verdict)),
        None => entries,
    }
}

/// The entries once a verdict is stored under this key: the entry becomes
/// the most recently used one, and if that makes more entries than the limit
/// allows, the least recently used one is dropped.
pub open spec fn inserted(entries: Seq<CacheEntry>, limit: nat, key: CacheKey, verdict: bool) -> Seq<
    CacheEntry,
> {
    let grown = without(entries, key).push((key, verdict));
    if grown.len() > limit {
        grown.drop_first()
    } else {
        grown
    }
}

/// No two entries share a key.
pub open spec fn distinct_keys(entries: Seq<CacheEntry>) -> bool {
    forall|i: int, j: int|
        0 <= i < j < entries.len() ==> (#[trigger] entries[i]).0 != (#[trigger] entries[j]).0
}

/// Calls `LruCache::new`, which makes an empty cache that keeps at most
/// `capacity` entries.
#[verifier::external_body]
fn lru_new(capacity: usize) -> (cache: LruCache<(String, u64), bool>)
    ensures
        cached_entries(cache) == Seq::<CacheEntry>::empty(),
        cache_limit(cache) == capacity,
{
    LruCache::new(capacity)
}

/// Calls `LruCache::get_mut` and copies the value out. A hit makes the entry
/// the most recently used one; a miss leaves the cache as it was. Hashing and
/// comparing a key of a string and an integer cannot panic, so the call
/// does not unwind.
#[verifier::external_body]
fn lru_get(cache: &mut LruCache<(String, u64), bool>, origin: &str, shortstatehash: u64) -> (verdict:
    Option<bool>)
    requires
        distinct_keys(cached_entries(*old(cache))),
    ensures
        verdict == lookup(cached_entries(*old(cache)), (origin@, shortstatehash)),
        cached_entries(*final(cache)) == refreshed(
            cached_entries(*old(cache)),
            (origin@, shortstatehash),
        ),
        cache_limit(*final(cache)) == cache_limit(*old(cache)),
    no_unwind
{
    cache.get_mut(&(origin.to_owned(), shortstatehash)).copied()
}

/// Calls `LruCache::insert`. The entry replaces any earlier one for the key
/// and becomes the most recently used; if the cache then holds more than its
/// limit, its least recently used entry is removed. Returns the verdict that
/// the key had before. Hashing and comparing a key of a string and an
/// integer cannot panic, so the call does not unwind.
#[verifier::external_body]
fn lru_insert(
    cache: &mut LruCache<(String, u64), bool>,
    origin: String,
    shortstatehash: u64,
    verdict: bool,
) -> (earlier: Option<bool>)
    requires
        distinct_keys(cached_entries(*old(cache))),
    ensures
        earlier == lookup(cached_entries(*old(cache)), (origin@, shortstatehash)),
        cached_entries(*final(cache)) == inserted(
            cached_entries(*old(cache)),
            cache_limit(*old(cache)),
            (origin@, shortstatehash),
            verdict,
        ),
        cache_limit(*final(cache)) == cache_limit(*old(cache)),
    no_unwind
{
    cache.insert((origin, shortstatehash), verdict)
}

/// Remembered verdicts, at most a fixed number of them, the least recently
/// used leaving first.
pub struct VisibilityCache {
    cache: LruCache<(String, u64), bool>,
}

impl VisibilityCache {
    /// The entries, least recently used first.
    pub closed spec fn entries(&self) -> Seq<CacheEntry> {
        cached_entries(self.cache)
    }

    /// The number of entries that the cache keeps at most.
    pub closed spec fn limit(&self) -> nat {
        cache_limit(self.cache)
    }

    /// No key occurs twice and the limit is kept.
    #[verifier::type_invariant]
    pub open spec fn wf(&self) -> bool {
        &&& distinct_keys(self.entries())
        &&& self.entries().len() <= self.limit()
    }

    /// The verdict remembered for a server and a snapshot, if any.
    pub open spec fn peek(&self, origin: Seq<char>, shortstatehash: u64) -> Option<bool> {
        lookup(self.entries(), (origin, shortstatehash))
    }

    /// An empty cache that keeps at most `capacity` verdicts.
    pub fn new(capacity: usize) -> (cache: VisibilityCache)
        ensures
            cache.entries() == Seq::<CacheEntry>::empty(),
            cache.limit() == capacity,
    {
        VisibilityCache { cache: lru_new(capacity) }
    }

    /// Looks a verdict up. A hit counts as a use of the entry.
    pub fn get(&mut self, origin: &str, shortstatehash: u64) -> (verdict: Option<bool>)
        ensures
            verdict == old(self).peek(origin@, shortstatehash),
            final(self).entries() == refreshed(old(self).entries(), (origin@, shortstatehash)),
            final(self).limit() == old(self).limit(),
    {
        proof {
            use_type_invariant(&*self);
            lemma_refreshed_keeps_shape(self.entries(), (origin@, shortstatehash));
        }
        lru_get(&mut self.cache, origin, shortstatehash)
    }

    /// Remembers a verdict, evicting the least recently used entry if the
    /// cache is over its limit afterwards.
    pub fn insert(&mut self, origin: &str, shortstatehash: u64, verdict: bool)
        ensures
            final(self).entries() == inserted(
                old(self).entries(),
                old(self).limit(),
                (origin@, shortstatehash),
                verdict,
            ),
            final(self).limit() == old(self).limit(),
    {
        proof {
            use_type_invariant(&*self);
            lemma_inserted_keeps_shape(
                self.entries(),
                self.limit(),
                (origin@, shortstatehash),
                verdict,
            );
        }
        let _ = lru_insert(&mut self.cache, origin.to_owned(), shortstatehash, verdict);
    }
}

/// Taking a key out leaves the other entries in order, none of them with
/// that key.
pub proof fn lemma_without(entries: Seq<CacheEntry>, key: CacheKey)
    requires
        distinct_keys(entries),
    ensures
        distinct_keys(without(entries, key)),
        !holds(without(entries, key), key),
        without(entries, key).len() == entries.len() - (if holds(entries, key) {
            1int
        } else {
            0int
        }),
        forall|other: CacheKey|
            other != key ==> lookup(without(entries, key), other) == lookup(entries, other),
{
    let rest = without(entries, key);
    if holds(entries, key) {
        let p = position(entries, key);
        assert forall|i: int| 0 <= i < rest.len() implies (#[trigger] rest[i]).0 != key by {
            if i < p {
                assert(rest[i] == entries[i]);
            } else {
                assert(rest[i] == entries[i + 1]);
            }
        }
        assert forall|other: CacheKey| other != key implies lookup(rest, other) == lookup(
            entries,
            other,
        ) by {
            lemma_remove_keeps_others(entries, p, other);
        }
    }
}

/// Removing one entry does not change what is remembered for the keys of
/// the others.
proof fn lemma_remove_keeps_others(entries: Seq<CacheEntry>, p: int, other: CacheKey)
    requires
        distinct_keys(entries),
        0 <= p < entries.len(),
        entries[p].0 != other,
    ensures
        distinct_keys(entries.remove(p)),
        lookup(entries.remove(p), other) == lookup(entries, other),
{
    let rest = entries.remove(p);
    assert forall|i: int| 0 <= i < rest.len() implies #[trigger] rest[i] == entries[if i < p {
        i
    } else {
        i + 1
    }] by {}
    if holds(entries, other) {
        let q = position(entries, other);
        let q2 = if q < p {
            q
        } else {
            q - 1
        };
        assert(rest[q2] == entries[q]);
        assert(holds(rest, other));
        let r = position(rest, other);
        let r2 = if r < p {
            r
        } else {
            r + 1
        };
        assert(rest[r] == entries[r2]);
        if r2 < q {
            assert(entries[r2].0 != entries[q].0);
        } else if q < r2 {
            assert(entries[q].0 != entries[r2].0);
        }
    } else {
        if holds(rest, other) {
            let r = position(rest, other);
            let r2 = if r < p {
                r
            } else {
                r + 1
            };
            assert(rest[r] == entries[r2]);
            assert(entries[r2].0 == other);
        }
    }
}

/// A look-up keeps the keys distinct and neither adds nor drops an entry.
pub proof fn lemma_refreshed_keeps_shape(entries: Seq<CacheEntry>, key: CacheKey)
    requires
        distinct_keys(entries),
    ensures
        distinct_keys(refreshed(entries, key)),
        refreshed(entries, key).len() == entries.len(),
{
    lemma_without(entries, key);
    if holds(entries, key) {
        let rest = without(entries, key);
        let verdict = lookup(entries, key).unwrap();
        lemma_push_fresh(rest, key, verdict);
    }
}

/// Appending an entry under a key that is not yet there keeps the keys
/// distinct.
proof fn lemma_push_fresh(entries: Seq<CacheEntry>, key: CacheKey, verdict: bool)
    requires
        distinct_keys(entries),
        !holds(entries, key),
    ensures
        distinct_keys(entries.push((key, verdict))),
        lookup(entries.push((key, verdict)), key) == Some(verdict),
        forall|other: CacheKey|
            other != key ==> lookup(entries.push((key, verdict)), other) == lookup(entries, other),
{
    let grown = entries.push((key, verdict));
    let last = entries.len() as int;
    assert(grown[last] == (key, verdict));
    assert forall|i: int, j: int| 0 <= i < j < grown.len() implies (#[trigger] grown[i]).0 != (
    #[trigger] grown[j]).0 by {
        assert(grown[i] == entries[i]);
        if j < last {
            assert(grown[j] == entries[j]);
        }
    }
    assert(holds(grown, key));
    let p = position(grown, key);
    if p < last {
        assert(grown[p] == entries[p]);
    }
    assert forall|other: CacheKey| other != key implies lookup(grown, other) == lookup(
        entries,
        other,
    ) by {
        if holds(entries, other) {
            let q = position(entries, other);
            assert(grown[q] == entries[q]);
            assert(holds(grown, other));
            let r = position(grown, other);
            assert(r < last);
            assert(grown[r] == entries[r]);
            if r < q {
                assert(entries[r].0 != entries[q].0);
            } else if q < r {
                assert(entries[q].0 != entries[r].0);
            }
        } else if holds(grown, other) {
            let r = position(grown, other);
            assert(r < last);
            assert(grown[r] == entries[r]);
        }
    }
}

/// Remembering a verdict keeps the keys distinct and the limit kept.
pub proof fn lemma_inserted_keeps_shape(
    entries: Seq<CacheEntry>,
    limit: nat,
    key: CacheKey,
    verdict: bool,
)
    requires
        distinct_keys(entries),
        entries.len() <= limit,
    ensures
        distinct_keys(inserted(entries, limit, key, verdict)),
        inserted(entries, limit, key, verdict).len() <= limit,
{
    lemma_without(entries, key);
    let rest = without(entries, key);
    lemma_push_fresh(rest, key, verdict);
    let grown = rest.push((key, verdict));
    if grown.len() > limit {
        let kept = grown.drop_first();
        assert forall|i: int, j: int| 0 <= i < j < kept.len() implies (#[trigger] kept[i]).0 != (
        #[trigger] kept[j]).0 by {
            assert(kept[i] == grown[i + 1]);
            assert(kept[j] == grown[j + 1]);
        }
    }
}

/// With distinct keys, an entry found under a key is the one that a
/// look-up of the key yields.
pub proof fn lemma_lookup_at(entries: Seq<CacheEntry>, i: int)
    requires
        distinct_keys(entries),
        0 <= i < entries.len(),
    ensures
        lookup(entries, entries[i].0) == Some(entries[i].1),
{
    let key = entries[i].0;
    assert(holds(entries, key));
    let p = position(entries, key);
    if p < i {
        assert(entries[p].0 != entries[i].0);
    } else if i < p {
        assert(entries[i].0 != entries[p].0);
    }
}

/// A look-up changes the order of use only: every key keeps its verdict.
pub proof fn lemma_refreshed_keeps_verdicts(entries: Seq<CacheEntry>, key: CacheKey, other: CacheKey)
    requires
        distinct_keys(entries),
    ensures
        lookup(refreshed(entries, key), other) == lookup(entries, other),
{
    lemma_without(entries, key);
    if holds(entries, key) {
        let verdict = lookup(entries, key).unwrap();
        lemma_push_fresh(without(entries, key), key, verdict);
    }
}

/// In a cache that keeps at least one entry, a verdict is found right after
/// it was stored.
pub proof fn lemma_inserted_is_found(
    entries: Seq<CacheEntry>,
    limit: nat,
    key: CacheKey,
    verdict: bool,
)
    requires
        distinct_keys(entries),
        entries.len() <= limit,
        limit >= 1,
    ensures
        lookup(inserted(entries, limit, key, verdict), key) == Some(verdict),
{
    lemma_without(entries, key);
    let grown = without(entries, key).push((key, verdict));
    lemma_push_fresh(without(entries, key), key, verdict);
    lemma_inserted_keeps_shape(entries, limit, key, verdict);
    if grown.len() > limit {
        let kept = grown.drop_first();
        let last = kept.len() - 1;
        assert(kept[last] == grown[last + 1]);
        assert(kept[last] == (key, verdict));
        lemma_lookup_at(kept, last);
    }
}

} // verus!
