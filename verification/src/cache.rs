//! A bounded cache of diff text, keyed by commit hash or by a range of two
//! hashes, that drops the least recently used entry when it is full.
//!
//! The entries live in an `lru::LruCache`. The cache is modelled as the
//! sequence of its entries, most recently used first.

use vstd::prelude::*;

verus! {

/// The least-recently-used cache of the `lru` crate. Opaque to proofs.
#[verifier::external_type_specification]
#[verifier::external_body]
#[verifier::reject_recursive_types(K)]
#[verifier::reject_recursive_types(V)]
#[verifier::reject_recursive_types(S)]
pub struct ExLruCache<K, V, S>(lru::LruCache<K, V, S>);

/// The hasher that `lru::LruCache` uses by default. Opaque to proofs.
#[verifier::external_type_specification]
#[verifier::external_body]
pub struct ExDefaultHasher(lru::DefaultHasher);

/// The entries that `cache` holds, as pairs of key and value, the most
/// recently used first.
pub uninterp spec fn lru_entries(cache: lru::LruCache<String, String>) -> Seq<
    (Seq<char>, Seq<char>),
>;

/// The number of entries that `cache` was made to hold at most.
pub uninterp spec fn lru_capacity(cache: lru::LruCache<String, String>) -> nat;

/// Some entry has the key.
pub open spec fn holds_key(entries: Seq<(Seq<char>, Seq<char>)>, key: Seq<char>) -> bool {
    exists|i: int| 0 <= i < entries.len() && (#[trigger] entries[i]).0 == key
}

/// The position of an entry with the key, if there is one.
pub open spec fn index_of_key(entries: Seq<(Seq<char>, Seq<char>)>, key: Seq<char>) -> int {
    choose|i: int| 0 <= i < entries.len() && (#[trigger] entries[i]).0 == key
}

/// The value stored under the key, if there is one.
pub open spec fn value_of_key(entries: Seq<(Seq<char>, Seq<char>)>, key: Seq<char>) -> Option<
    Seq<char>,
> {
    if holds_key(entries, key) {
        Some(entries[index_of_key(entries, key)].1)
    } else {
        None
    }
}

/// The entries after a look-up of `key`: its entry, if there is one, moves
/// to the front, and the others keep their order.
pub open spec fn touched(entries: Seq<(Seq<char>, Seq<char>)>, key: Seq<char>) -> Seq<
    (Seq<char>, Seq<char>),
> {
    if holds_key(entries, key) {
        let i = index_of_key(entries, key);
        seq![entries[i]] + entries.remove(i)
    } else {
        entries
    }
}

/// The entries after `value` is stored under `key` in a cache of the given
/// capacity. The new entry stands at the front. An entry with the same key
/// is replaced; otherwise, if the cache is full, the last entry leaves.
pub open spec fn inserted(
    entries: Seq<(Seq<char>, Seq<char>)>,
    capacity: nat,
    key: Seq<char>,
    value: Seq<char>,
) -> Seq<(Seq<char>, Seq<char>)> {
    if holds_key(entries, key) {
        seq![(key, value)] + entries.remove(index_of_key(entries, key))
    } else if entries.len() >= capacity && entries.len() > 0 {
        seq![(key, value)] + entries.drop_last()
    } else {
        seq![(key, value)] + entries
    }
}

/// No key occurs twice.
pub open spec fn distinct_keys(entries: Seq<(Seq<char>, Seq<char>)>) -> bool {
    forall|i: int, j: int|
        0 <= i < j < entries.len() ==> (#[trigger] entries[i]).0 != (#[trigger] entries[j]).0
}

/// What holds of the entries of every cache: no key twice, and no more
/// entries than the capacity, which is at least 1.
pub open spec fn cache_invariant(entries: Seq<(Seq<char>, Seq<char>)>, capacity: nat) -> bool {
    &&& capacity >= 1
    &&& entries.len() <= capacity
    &&& distinct_keys(entries)
}

/// The view of an optional string.
pub open spec fn text_view(s: Option<String>) -> Option<Seq<char>> {
    match s {
        Some(t) => Some(t@),
        None => None,
    }
}

/// Calls `lru::LruCache::new`. Trusted: the new cache is empty and has the
/// capacity asked for.
#[verifier::external_body]
fn lru_new(capacity: usize) -> (cache: lru::LruCache<String, String>)
    requires
        capacity > 0,
    ensures
        lru_entries(cache) == Seq::<(Seq<char>, Seq<char>)>::empty(),
        lru_capacity(cache) == capacity,
{
    lru::LruCache::new(std::num::NonZeroUsize::new(capacity).unwrap())
}

/// Calls `lru::LruCache::get` and copies the value out. Trusted: the value
/// is the one stored under the key, the entry has become the most recently
/// used, and the call does not panic.
#[verifier::external_body]
fn lru_get(cache: &mut lru::LruCache<String, String>, key: &str) -> (value: Option<String>)
    ensures
        text_view(value) == value_of_key(lru_entries(*old(cache)), key@),
        lru_entries(*final(cache)) == touched(lru_entries(*old(cache)), key@),
        lru_capacity(*final(cache)) == lru_capacity(*old(cache)),
    no_unwind
{
    cache.get(key).cloned()
}

/// Calls `lru::LruCache::put`. Trusted: the pair becomes the most recently
/// used entry; it replaces an entry with the same key, and otherwise the
/// least recently used entry leaves if the cache was full. The value that
/// was stored under the key before is handed back. The call does not panic.
#[verifier::external_body]
fn lru_put(cache: &mut lru::LruCache<String, String>, key: String, value: String) -> (previous:
    Option<String>)
    ensures
        text_view(previous) == value_of_key(lru_entries(*old(cache)), key@),
        lru_entries(*final(cache)) == inserted(
            lru_entries(*old(cache)),
            lru_capacity(*old(cache)),
            key@,
            value@,
        ),
        lru_capacity(*final(cache)) == lru_capacity(*old(cache)),
    no_unwind
{
    cache.put(key, value)
}

/// Calls `lru::LruCache::contains`. Trusted: it tells whether an entry has
/// the key.
#[verifier::external_body]
fn lru_contains(cache: &lru::LruCache<String, String>, key: &str) -> (found: bool)
    ensures
        found == holds_key(lru_entries(*cache), key@),
{
    cache.contains(key)
}

/// Calls `lru::LruCache::clear`. Trusted: no entry is left, the capacity
/// stays, and the call does not panic.
#[verifier::external_body]
fn lru_clear(cache: &mut lru::LruCache<String, String>)
    ensures
        lru_entries(*final(cache)) == Seq::<(Seq<char>, Seq<char>)>::empty(),
        lru_capacity(*final(cache)) == lru_capacity(*old(cache)),
    no_unwind
{
    cache.clear()
}

/// Calls `lru::LruCache::len`. Trusted: it is the number of entries.
#[verifier::external_body]
fn lru_len(cache: &lru::LruCache<String, String>) -> (n: usize)
    ensures
        n == lru_entries(*cache).len(),
{
    cache.len()
}

/// With distinct keys, the entry with a key is found where it stands.
pub proof fn lemma_index_of_key(entries: Seq<(Seq<char>, Seq<char>)>, i: int)
    requires
        distinct_keys(entries),
        0 <= i < entries.len(),
    ensures
        holds_key(entries, entries[i].0),
        index_of_key(entries, entries[i].0) == i,
        value_of_key(entries, entries[i].0) == Some(entries[i].1),
{
    let key = entries[i].0;
    let j = index_of_key(entries, key);
    assert(0 <= j < entries.len() && entries[j].0 == key);
    if j < i {
        assert(entries[j].0 != entries[i].0);
    } else if i < j {
        assert(entries[i].0 != entries[j].0);
    }
}

/// A look-up keeps the invariant of a cache, and keeps its keys.
pub proof fn lemma_touched_keeps_invariant(
    entries: Seq<(Seq<char>, Seq<char>)>,
    capacity: nat,
    key: Seq<char>,
)
    requires
        cache_invariant(entries, capacity),
    ensures
        cache_invariant(touched(entries, key), capacity),
        touched(entries, key).len() == entries.len(),
        forall|k: Seq<char>| holds_key(touched(entries, key), k) == holds_key(entries, k),
{
    let after = touched(entries, key);
    if holds_key(entries, key) {
        let i = index_of_key(entries, key);
        let rest = entries.remove(i);
        assert forall|a: int, b: int| 0 <= a < b < after.len() implies (#[trigger] after[a]).0 != (
        #[trigger] after[b]).0 by {
            let ib = b - 1;
            let sb = if ib < i {
                ib
            } else {
                ib + 1
            };
            assert(after[b] == entries[sb]);
            if a == 0 {
                assert(after[a] == entries[i]);
                if sb < i {
                    assert(entries[sb].0 != entries[i].0);
                } else {
                    assert(entries[i].0 != entries[sb].0);
                }
            } else {
                let ia = a - 1;
                let sa = if ia < i {
                    ia
                } else {
                    ia + 1
                };
                assert(after[a] == entries[sa]);
                assert(sa < sb);
                assert(entries[sa].0 != entries[sb].0);
            }
        }
        assert forall|k: Seq<char>| holds_key(after, k) == holds_key(entries, k) by {
            if holds_key(entries, k) {
                let j = choose|j: int| 0 <= j < entries.len() && (#[trigger] entries[j]).0 == k;
                if j == i {
                    assert(after[0].0 == k);
                } else if j < i {
                    assert(after[j + 1] == entries[j]);
                } else {
                    assert(after[j] == entries[j]);
                }
            }
            if holds_key(after, k) {
                let b = choose|b: int| 0 <= b < after.len() && (#[trigger] after[b]).0 == k;
                if b == 0 {
                    assert(entries[i].0 == k);
                } else {
                    let ib = b - 1;
                    let sb = if ib < i {
                        ib
                    } else {
                        ib + 1
                    };
                    assert(after[b] == entries[sb]);
                    assert(entries[sb].0 == k);
                }
            }
        }
    }
}

/// Storing a pair keeps the invariant of a cache; afterwards the pair is
/// found, at the front.
pub proof fn lemma_inserted_keeps_invariant(
    entries: Seq<(Seq<char>, Seq<char>)>,
    capacity: nat,
    key: Seq<char>,
    value: Seq<char>,
)
    requires
        cache_invariant(entries, capacity),
    ensures
        cache_invariant(inserted(entries, capacity, key, value), capacity),
        inserted(entries, capacity, key, value)[0] == (key, value),
        holds_key(inserted(entries, capacity, key, value), key),
        value_of_key(inserted(entries, capacity, key, value), key) == Some(value),
        holds_key(entries, key) ==> inserted(entries, capacity, key, value).len() == entries.len(),
{
    let after = inserted(entries, capacity, key, value);
    assert(after[0] == (key, value));
    if holds_key(entries, key) {
        let i = index_of_key(entries, key);
        assert forall|a: int, b: int| 0 <= a < b < after.len() implies (#[trigger] after[a]).0 != (
        #[trigger] after[b]).0 by {
            let ib = b - 1;
            let sb = if ib < i {
                ib
            } else {
                ib + 1
            };
            assert(after[b] == entries[sb]);
            if a == 0 {
                if sb < i {
                    assert(entries[sb].0 != entries[i].0);
                } else {
                    assert(entries[i].0 != entries[sb].0);
                }
            } else {
                let ia = a - 1;
                let sa = if ia < i {
                    ia
                } else {
                    ia + 1
                };
                assert(after[a] == entries[sa]);
                assert(entries[sa].0 != entries[sb].0);
            }
        }
    } else {
        assert forall|a: int, b: int| 0 <= a < b < after.len() implies (#[trigger] after[a]).0 != (
        #[trigger] after[b]).0 by {
            assert(after[b] == entries[b - 1]);
            if a == 0 {
                assert(entries[b - 1].0 != key);
            } else {
                assert(after[a] == entries[a - 1]);
                assert(entries[a - 1].0 != entries[b - 1].0);
            }
        }
    }
    lemma_index_of_key(after, 0);
}

/// No two of `keys` are equal.
pub open spec fn pairwise_distinct(keys: Seq<Seq<char>>) -> bool {
    forall|i: int, j: int| 0 <= i < j < keys.len() ==> #[trigger] keys[i] != #[trigger] keys[j]
}

/// The entries after `keys[from..to]` were stored with `values[from..to]`,
/// one after the other, in a cache that held `entries`.
pub open spec fn stored(
    entries: Seq<(Seq<char>, Seq<char>)>,
    keys: Seq<Seq<char>>,
    values: Seq<Seq<char>>,
    capacity: nat,
    from: nat,
    to: nat,
) -> Seq<(Seq<char>, Seq<char>)>
    decreases to,
{
    if to <= from {
        entries
    } else {
        inserted(
            stored(entries, keys, values, capacity, from, (to - 1) as nat),
            capacity,
            keys[to - 1],
            values[to - 1],
        )
    }
}

/// `keys[from..to]` with their values, the last first.
pub open spec fn newest_first(keys: Seq<Seq<char>>, values: Seq<Seq<char>>, from: nat, to: nat) -> Seq<
    (Seq<char>, Seq<char>),
> {
    Seq::new((to - from) as nat, |i: int| (keys[to - 1 - i], values[to - 1 - i]))
}

/// Storing new keys while there is room puts them in front of what the
/// cache held, the last stored first.
pub proof fn lemma_stored_with_room(
    entries: Seq<(Seq<char>, Seq<char>)>,
    keys: Seq<Seq<char>>,
    values: Seq<Seq<char>>,
    capacity: nat,
    from: nat,
    to: nat,
)
    requires
        from <= to <= keys.len(),
        keys.len() == values.len(),
        pairwise_distinct(keys),
        entries.len() + (to - from) <= capacity,
        forall|i: int, k: int|
            0 <= i < entries.len() && from <= k < to ==> (#[trigger] entries[i]).0 != #[trigger] keys[k],
    ensures
        stored(entries, keys, values, capacity, from, to) == newest_first(keys, values, from, to)
            + entries,
    decreases to,
{
    if to <= from {
        assert(newest_first(keys, values, from, to) + entries =~= entries);
    } else {
        let m = (to - 1) as nat;
        lemma_stored_with_room(entries, keys, values, capacity, from, m);
        let before = stored(entries, keys, values, capacity, from, m);
        assert(before == newest_first(keys, values, from, m) + entries);
        assert(!holds_key(before, keys[to - 1])) by {
            if holds_key(before, keys[to - 1]) {
                let i = choose|i: int| 0 <= i < before.len() && (#[trigger] before[i]).0 == keys[to - 1];
                if i < m - from {
                    assert(before[i].0 == keys[m - 1 - i]);
                    assert(keys[m - 1 - i] != keys[to - 1]);
                } else {
                    assert(before[i] == entries[i - (m - from)]);
                    assert(entries[i - (m - from)].0 != keys[to - 1]);
                }
            }
        }
        assert(seq![(keys[to - 1], values[to - 1])] + before =~= newest_first(keys, values, from, to)
            + entries);
    }
}

/// First in, first out: after as many distinct keys as the capacity plus one
/// were stored in an empty cache and none was looked up in between, the key
/// stored first is gone and every other key is still there.
pub proof fn law_first_stored_is_first_dropped(
    keys: Seq<Seq<char>>,
    values: Seq<Seq<char>>,
    capacity: nat,
)
    requires
        capacity >= 1,
        keys.len() == capacity + 1,
        values.len() == capacity + 1,
        pairwise_distinct(keys),
    ensures
        !holds_key(stored(Seq::empty(), keys, values, capacity, 0, capacity + 1), keys[0]),
        forall|k: int|
            1 <= k <= capacity ==> holds_key(
                stored(Seq::empty(), keys, values, capacity, 0, capacity + 1),
                #[trigger] keys[k],
            ),
{
    let empty = Seq::<(Seq<char>, Seq<char>)>::empty();
    lemma_stored_with_room(empty, keys, values, capacity, 0, capacity);
    let full = stored(empty, keys, values, capacity, 0, capacity);
    assert(full =~= newest_first(keys, values, 0, capacity));
    let last = keys[capacity as int];
    assert(!holds_key(full, last)) by {
        if holds_key(full, last) {
            let i = choose|i: int| 0 <= i < full.len() && (#[trigger] full[i]).0 == last;
            assert(full[i].0 == keys[capacity - 1 - i]);
        }
    }
    let after = stored(empty, keys, values, capacity, 0, capacity + 1);
    assert(after == seq![(last, values[capacity as int])] + full.drop_last());
    assert(!holds_key(after, keys[0])) by {
        if holds_key(after, keys[0]) {
            let i = choose|i: int| 0 <= i < after.len() && (#[trigger] after[i]).0 == keys[0];
            if i == 0 {
                assert(keys[0] != keys[capacity as int]);
            } else {
                assert(after[i] == full[i - 1]);
                assert(full[i - 1].0 == keys[capacity - 1 - (i - 1)]);
                assert(keys[0] != keys[capacity - i]);
            }
        }
    }
    assert forall|k: int| 1 <= k <= capacity implies holds_key(after, #[trigger] keys[k]) by {
        if k == capacity {
            assert(after[0].0 == keys[k]);
        } else {
            assert(after[capacity - k] == full[capacity - 1 - k]);
            assert(after[capacity - k].0 == keys[k]);
        }
    }
}

/// A look-up saves a key: when the key stored first is looked up after at
/// least one other key was stored, and no other key is looked up, then
/// filling the cache past its capacity drops the key stored second, and the
/// key stored first is still there.
pub proof fn law_lookup_saves_first_stored(
    keys: Seq<Seq<char>>,
    values: Seq<Seq<char>>,
    capacity: nat,
    looked_up_after: nat,
)
    requires
        2 <= looked_up_after <= capacity,
        keys.len() == capacity + 1,
        values.len() == capacity + 1,
        pairwise_distinct(keys),
    ensures
        holds_key(
            stored(
                touched(
                    stored(Seq::empty(), keys, values, capacity, 0, looked_up_after),
                    keys[0],
                ),
                keys,
                values,
                capacity,
                looked_up_after,
                capacity + 1,
            ),
            keys[0],
        ),
        !holds_key(
            stored(
                touched(
                    stored(Seq::empty(), keys, values, capacity, 0, looked_up_after),
                    keys[0],
                ),
                keys,
                values,
                capacity,
                looked_up_after,
                capacity + 1,
            ),
            keys[1],
        ),
{
    let j = looked_up_after;
    let empty = Seq::<(Seq<char>, Seq<char>)>::empty();
    lemma_stored_with_room(empty, keys, values, capacity, 0, j);
    let first = stored(empty, keys, values, capacity, 0, j);
    assert(first =~= newest_first(keys, values, 0, j));
    assert(distinct_keys(first)) by {
        assert forall|a: int, b: int| 0 <= a < b < first.len() implies (#[trigger] first[a]).0 != (
        #[trigger] first[b]).0 by {
            assert(keys[j - 1 - b] != keys[j - 1 - a]);
        }
    }
    assert(first[j - 1].0 == keys[0]);
    lemma_index_of_key(first, j - 1);
    let moved = touched(first, keys[0]);
    assert(moved == seq![first[j - 1]] + first.remove(j - 1));
    assert(moved.len() == j);
    assert(moved[0].0 == keys[0]);
    assert forall|i: int| 1 <= i < j implies (#[trigger] moved[i]).0 == keys[j - 1 - (i - 1)] by {
        assert(moved[i] == first[i - 1]);
    }
    assert forall|i: int, k: int| 0 <= i < moved.len() && j <= k < capacity implies (
    #[trigger] moved[i]).0 != #[trigger] keys[k] by {
        if i == 0 {
            assert(keys[0] != keys[k]);
        } else {
            assert(moved[i].0 == keys[j - i]);
            assert(keys[j - i] != keys[k]);
        }
    }
    lemma_stored_with_room(moved, keys, values, capacity, j, capacity);
    let full = stored(moved, keys, values, capacity, j, capacity);
    let front = newest_first(keys, values, j, capacity);
    assert(full == front + moved);
    assert(full.len() == capacity);
    let last = keys[capacity as int];
    assert(!holds_key(full, last)) by {
        if holds_key(full, last) {
            let i = choose|i: int| 0 <= i < full.len() && (#[trigger] full[i]).0 == last;
            if i < capacity - j {
                assert(full[i].0 == keys[capacity - 1 - i]);
            } else {
                let m = i - (capacity - j);
                assert(full[i] == moved[m]);
                if m == 0 {
                    assert(keys[0] != last);
                } else {
                    assert(moved[m].0 == keys[j - m]);
                    assert(keys[j - m] != last);
                }
            }
        }
    }
    let after = stored(moved, keys, values, capacity, j, capacity + 1);
    assert(after == seq![(last, values[capacity as int])] + full.drop_last());
    assert(after[1 + (capacity - j)] == full[capacity - j]);
    assert(full[capacity - j] == moved[0]);
    assert(after[1 + (capacity - j)].0 == keys[0]);
    assert(!holds_key(after, keys[1])) by {
        if holds_key(after, keys[1]) {
            let i = choose|i: int| 0 <= i < after.len() && (#[trigger] after[i]).0 == keys[1];
            if i == 0 {
                assert(keys[1] != last);
            } else {
                assert(after[i] == full[i - 1]);
                if i - 1 < capacity - j {
                    assert(full[i - 1].0 == keys[capacity - 1 - (i - 1)]);
                    assert(keys[1] != keys[capacity - i]);
                } else {
                    let m = i - 1 - (capacity - j);
                    assert(full[i - 1] == moved[m]);
                    assert(m < j - 1);
                    if m == 0 {
                        assert(keys[0] != keys[1]);
                    } else {
                        assert(moved[m].0 == keys[j - m]);
                        assert(keys[1] != keys[j - m]);
                    }
                }
            }
        }
    }
}

/// A look-up makes its entry the most recently used: the entry found moves
/// to the front, and the other entries follow in the order they had.
pub proof fn law_lookup_promotes(entries: Seq<(Seq<char>, Seq<char>)>, position: int)
    requires
        distinct_keys(entries),
        0 <= position < entries.len(),
    ensures
        touched(entries, entries[position].0)[0] == entries[position],
        touched(entries, entries[position].0).skip(1) == entries.remove(position),
{
    lemma_index_of_key(entries, position);
    assert(touched(entries, entries[position].0).skip(1) =~= entries.remove(position));
}

/// A cache of diff text with a fixed capacity and least-recently-used
/// eviction. Keys are opaque strings.
pub struct DiffCache {
    cache: lru::LruCache<String, String>,
}

impl DiffCache {
    #[verifier::type_invariant]
    spec fn well_formed(self) -> bool {
        cache_invariant(lru_entries(self.cache), lru_capacity(self.cache))
    }

    /// The entries, as pairs of key and value, the most recently used first.
    pub closed spec fn entries(&self) -> Seq<(Seq<char>, Seq<char>)> {
        lru_entries(self.cache)
    }

    /// The largest number of entries that the cache holds.
    pub closed spec fn capacity(&self) -> nat {
        lru_capacity(self.cache)
    }

    /// An empty cache for `capacity` entries; for 50 entries if `capacity`
    /// is 0.
    pub fn new(capacity: usize) -> (r: Self)
        ensures
            r.entries() == Seq::<(Seq<char>, Seq<char>)>::empty(),
            r.capacity() == (if capacity == 0 {
                50
            } else {
                capacity as int
            }),
            cache_invariant(r.entries(), r.capacity()),
    {
        let capacity: usize = if capacity == 0 {
            50
        } else {
            capacity
        };
        DiffCache { cache: lru_new(capacity) }
    }

    /// The value stored under `key`, if there is one. The entry becomes the
    /// most recently used.
    pub fn get(&mut self, key: &str) -> (value: Option<String>)
        ensures
            text_view(value) == value_of_key(old(self).entries(), key@),
            value is Some <==> holds_key(old(self).entries(), key@),
            final(self).entries() == touched(old(self).entries(), key@),
            final(self).capacity() == old(self).capacity(),
            cache_invariant(old(self).entries(), old(self).capacity()),
            cache_invariant(final(self).entries(), final(self).capacity()),
    {
        proof {
            use_type_invariant(&*self);
            lemma_touched_keeps_invariant(lru_entries(self.cache), lru_capacity(self.cache), key@);
        }
        lru_get(&mut self.cache, key)
    }

    /// Stores `value` under `key` as the most recently used entry. A value
    /// already stored under `key` is replaced; otherwise, if the cache is
    /// full, the least recently used entry is dropped.
    pub fn put(&mut self, key: String, value: String)
        ensures
            final(self).entries() == inserted(
                old(self).entries(),
                old(self).capacity(),
                key@,
                value@,
            ),
            final(self).capacity() == old(self).capacity(),
            cache_invariant(old(self).entries(), old(self).capacity()),
            cache_invariant(final(self).entries(), final(self).capacity()),
    {
        proof {
            use_type_invariant(&*self);
            lemma_inserted_keeps_invariant(
                lru_entries(self.cache),
                lru_capacity(self.cache),
                key@,
                value@,
            );
        }
        let _ = lru_put(&mut self.cache, key, value);
    }

    /// Whether a value is stored under `key`. The order of use stays.
    pub fn contains(&self, key: &str) -> (found: bool)
        ensures
            found == holds_key(self.entries(), key@),
            cache_invariant(self.entries(), self.capacity()),
    {
        proof {
            use_type_invariant(self);
        }
        lru_contains(&self.cache, key)
    }

    /// Drops every entry.
    pub fn clear(&mut self)
        ensures
            final(self).entries() == Seq::<(Seq<char>, Seq<char>)>::empty(),
            final(self).capacity() == old(self).capacity(),
    {
        proof {
            use_type_invariant(&*self);
        }
        lru_clear(&mut self.cache)
    }

    /// The number of entries.
    pub fn len(&self) -> (n: usize)
        ensures
            n == self.entries().len(),
            n <= self.capacity(),
            cache_invariant(self.entries(), self.capacity()),
    {
        proof {
            use_type_invariant(self);
        }
        lru_len(&self.cache)
    }
}

} // verus!
