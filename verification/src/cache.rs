//! Bounded caches of prepared launches.

use vstd::prelude::*;

verus! {

/// A key that can be told apart from every other key.
pub trait CacheKey: Sized {
    /// Whether two keys are the same in every field.
    fn same(&self, other: &Self) -> (equal: bool)
        ensures
            equal == (*self == *other),
    ;
}

impl CacheKey for u32 {
    fn same(&self, other: &u32) -> (equal: bool) {
        *self == *other
    }
}

impl CacheKey for usize {
    fn same(&self, other: &usize) -> (equal: bool) {
        *self == *other
    }
}

/// No two entries have the same key.
pub open spec fn keys_distinct<K, V>(entries: Seq<(K, V)>) -> bool {
    forall|i: int, j: int|
        #![trigger entries[i], entries[j]]
        0 <= i < entries.len() && 0 <= j < entries.len() && entries[i].0 == entries[j].0 ==> i == j
}

/// A key has an entry.
pub open spec fn has_key<K, V>(entries: Seq<(K, V)>, key: K) -> bool {
    exists|i: int| 0 <= i < entries.len() && (#[trigger] entries[i]).0 == key
}

/// Where the entry of a key stands.
pub open spec fn position<K, V>(entries: Seq<(K, V)>, key: K) -> int {
    choose|i: int| 0 <= i < entries.len() && (#[trigger] entries[i]).0 == key
}

/// The entries as a map.
pub open spec fn entry_map<K, V>(entries: Seq<(K, V)>) -> Map<K, V> {
    Map::new(
        |key: K| has_key(entries, key),
        |key: K| entries[position(entries, key)].1,
    )
}

/// The map holds every entry under its key.
pub proof fn entry_of<K, V>(entries: Seq<(K, V)>, i: int)
    requires
        keys_distinct(entries),
        0 <= i < entries.len(),
    ensures
        entry_map(entries).contains_key(entries[i].0),
        entry_map(entries)[entries[i].0] == entries[i].1,
{
    let key = entries[i].0;
    assert(has_key(entries, key));
    let p = position(entries, key);
    assert(entries[p].0 == entries[i].0);
}

/// The map has as many keys as there are entries.
pub proof fn entry_count<K, V>(entries: Seq<(K, V)>)
    requires
        keys_distinct(entries),
    ensures
        entry_map(entries).dom().finite(),
        entry_map(entries).len() == entries.len(),
{
    let keys = Seq::new(entries.len(), |i: int| entries[i].0);
    assert(keys.no_duplicates()) by {
        assert forall|i: int, j: int| 0 <= i < keys.len() && 0 <= j < keys.len() && i != j implies
            keys[i] != keys[j] by {
            assert(entries[i].0 == keys[i] && entries[j].0 == keys[j]);
        }
    }
    keys.unique_seq_to_set();
    assert(entry_map(entries).dom() =~= keys.to_set()) by {
        assert forall|key: K| has_key(entries, key) == keys.to_set().contains(key) by {
            if has_key(entries, key) {
                let i = position(entries, key);
                assert(keys[i] == key);
            }
            if keys.to_set().contains(key) {
                let i = choose|i: int| 0 <= i < keys.len() && keys[i] == key;
                assert(entries[i].0 == key);
            }
        }
    }
    vstd::seq_lib::seq_to_set_is_finite(keys);
}

/// Prepared launches by key.
pub struct PreparedCache<K: CacheKey, V> {
    entries: Vec<(K, V)>,
}

impl<K: CacheKey, V> View for PreparedCache<K, V> {
    type V = Map<K, V>;

    closed spec fn view(&self) -> Map<K, V> {
        entry_map(self.entries@)
    }
}

/// Every value that a cache holds may be asked about.
pub open spec fn asks_of_all<K, V, Keep: Fn(&V) -> bool>(held: Map<K, V>, keep: Keep) -> bool {
    forall|key: K| #[trigger] held.contains_key(key) ==> call_requires(keep, (&held[key],))
}

/// What is left of a cache when the values that are not kept are swept out.
pub open spec fn sweeps<K, V, Keep: Fn(&V) -> bool>(
    before: Map<K, V>,
    keep: Keep,
    after: Map<K, V>,
) -> bool {
    &&& forall|key: K| #[trigger]
        after.contains_key(key) ==> before.contains_key(key) && after[key] == before[key]
            && call_ensures(keep, (&before[key],), true)
    &&& forall|key: K| #[trigger]
        before.contains_key(key) && !after.contains_key(key) ==> call_ensures(
            keep,
            (&before[key],),
            false,
        )
}

/// A sweep that would still leave no room for the incoming key drops
/// everything.
pub open spec fn room_for<K, V>(swept: Map<K, V>, incoming: K, limit: usize) -> Map<K, V> {
    if !swept.contains_key(incoming) && swept.len() >= limit {
        Map::empty()
    } else {
        swept
    }
}

impl<K: CacheKey, V> PreparedCache<K, V> {
    #[verifier::type_invariant]
    spec fn inv(self) -> bool {
        keys_distinct(self.entries@)
    }

    /// An empty cache.
    pub fn new() -> (cache: PreparedCache<K, V>)
        ensures
            cache@ == Map::<K, V>::empty(),
    {
        let cache = PreparedCache { entries: Vec::new() };
        assert(entry_map(cache.entries@) =~= Map::<K, V>::empty());
        cache
    }

    /// How many launches are prepared.
    pub fn len(&self) -> (count: usize)
        ensures
            self@.dom().finite(),
            count == self@.len(),
    {
        proof {
            use_type_invariant(self);
            entry_count(self.entries@);
        }
        self.entries.len()
    }

    fn find(&self, key: &K) -> (at: Option<usize>)
        ensures
            match at {
                Some(i) => i < self.entries@.len() && self.entries@[i as int].0 == *key,
                None => !has_key(self.entries@, *key),
            },
    {
        let mut i: usize = 0;
        while i < self.entries.len()
            invariant
                i <= self.entries@.len(),
                forall|j: int| 0 <= j < i ==> (#[trigger] self.entries@[j]).0 != *key,
            decreases self.entries@.len() - i,
        {
            if self.entries[i].0.same(key) {
                return Some(i);
            }
            i = i + 1;
        }
        None
    }

    /// Whether a launch is prepared under a key.
    pub fn contains_key(&self, key: &K) -> (found: bool)
        ensures
            found == self@.contains_key(*key),
    {
        match self.find(key) {
            Some(i) => {
                assert(has_key(self.entries@, *key)) by {
                    assert(self.entries@[i as int].0 == *key);
                }
                true
            },
            None => false,
        }
    }

    /// The launch that is prepared under a key.
    pub fn get(&self, key: &K) -> (value: Option<&V>)
        ensures
            match value {
                Some(value) => self@.contains_key(*key) && self@[*key] == *value,
                None => !self@.contains_key(*key),
            },
    {
        proof {
            use_type_invariant(self);
        }
        match self.find(key) {
            Some(i) => {
                proof {
                    entry_of(self.entries@, i as int);
                }
                Some(&self.entries[i].1)
            },
            None => None,
        }
    }

    /// Takes the launch that is prepared under a key out of the cache.
    pub fn remove(&mut self, key: &K) -> (value: Option<V>)
        ensures
            final(self)@ == old(self)@.remove(*key),
            match value {
                Some(value) => old(self)@.contains_key(*key) && old(self)@[*key] == value,
                None => !old(self)@.contains_key(*key),
            },
    {
        proof {
            use_type_invariant(&*self);
        }
        match self.find(key) {
            None => {
                assert(self@ =~= old(self)@.remove(*key));
                None
            },
            Some(i) => {
                let mut entries: Vec<(K, V)> = Vec::new();
                std::mem::swap(&mut entries, &mut self.entries);
                let ghost before = entries@;
                let (_, value) = entries.remove(i);
                proof {
                    let after = entries@;
                    let at = i as int;
                    entry_of(before, at);
                    assert forall|j: int| 0 <= j < after.len() implies (#[trigger] after[j])
                        == before[if j < at {
                        j
                    } else {
                        j + 1
                    }] by {}
                    assert(keys_distinct(after));
                    assert forall|other: K| #[trigger]
                        entry_map(after).contains_key(other) == entry_map(before).remove(
                            *key,
                        ).contains_key(other) by {
                        if has_key(after, other) {
                            let j = position(after, other);
                            assert(before[if j < at {
                                j
                            } else {
                                j + 1
                            }].0 == other);
                        }
                        if has_key(before, other) && other != *key {
                            let j = position(before, other);
                            assert(after[if j < at {
                                j
                            } else {
                                j - 1
                            }].0 == other);
                        }
                    }
                    assert forall|other: K| #[trigger]
                        entry_map(after).contains_key(other) implies entry_map(after)[other]
                        == entry_map(before)[other] by {
                        let j = position(after, other);
                        entry_of(after, j);
                        entry_of(
                            before,
                            if j < at {
                                j
                            } else {
                                j + 1
                            },
                        );
                    }
                    assert(entry_map(after) =~= entry_map(before).remove(*key));
                }
                self.entries = entries;
                Some(value)
            },
        }
    }

    /// Prepares a launch under a key, in place of an earlier one.
    pub fn insert(&mut self, key: K, value: V)
        ensures
            final(self)@ == old(self)@.insert(key, value),
    {
        let _ = self.remove(&key);
        proof {
            use_type_invariant(&*self);
        }
        let mut entries: Vec<(K, V)> = Vec::new();
        std::mem::swap(&mut entries, &mut self.entries);
        let ghost before = entries@;
        entries.push((key, value));
        proof {
            let after = entries@;
            assert(!entry_map(before).contains_key(key));
            assert forall|j: int| 0 <= j < before.len() implies (#[trigger] after[j]) == before[j]
                && before[j].0 != key by {
                assert(has_key(before, before[j].0));
            }
            assert(keys_distinct(after));
            assert forall|other: K| #[trigger]
                entry_map(after).contains_key(other) == entry_map(before).insert(
                    key,
                    value,
                ).contains_key(other) by {
                if has_key(after, other) {
                    let j = position(after, other);
                    if j < before.len() {
                        assert(before[j].0 == other);
                    }
                }
                if has_key(before, other) {
                    let j = position(before, other);
                    assert(after[j].0 == other);
                }
                assert(after[before.len() as int].0 == key);
            }
            assert forall|other: K| #[trigger]
                entry_map(after).contains_key(other) implies entry_map(after)[other]
                == entry_map(before).insert(key, value)[other] by {
                let j = position(after, other);
                entry_of(after, j);
                if j < before.len() {
                    entry_of(before, j);
                }
            }
            assert(entry_map(after) =~= entry_map(before).insert(key, value));
            assert(entry_map(before).insert(key, value) =~= old(self)@.insert(key, value));
        }
        self.entries = entries;
    }

    /// Sweeps out the values that are not kept.
    pub fn retain<Keep: Fn(&V) -> bool>(&mut self, keep: Keep)
        requires
            asks_of_all(old(self)@, keep),
        ensures
            sweeps(old(self)@, keep, final(self)@),
    {
        proof {
            use_type_invariant(&*self);
        }
        let mut entries: Vec<(K, V)> = Vec::new();
        std::mem::swap(&mut entries, &mut self.entries);
        let ghost before = entries@;
        assert forall|i: int| 0 <= i < before.len() implies call_requires(
            keep,
            (&(#[trigger] before[i]).1,),
        ) by {
            entry_of(before, i);
            assert(entry_map(before).contains_key(before[i].0));
        }
        let mut kept: Vec<(K, V)> = Vec::new();
        while entries.len() > 0
            invariant
                forall|i: int|
                    0 <= i < before.len() ==> call_requires(keep, (&(#[trigger] before[i]).1,)),
                keys_distinct(before),
                entries@.len() <= before.len(),
                entries@ == before.subrange(0, entries@.len() as int),
                keys_distinct(kept@),
                forall|j: int|
                    0 <= j < kept@.len() ==> exists|i: int|
                        entries@.len() <= i < before.len() && before[i] == #[trigger] kept@[j],
                forall|j: int|
                    0 <= j < kept@.len() ==> call_ensures(
                        keep,
                        (&(#[trigger] kept@[j]).1,),
                        true,
                    ),
                forall|i: int|
                    entries@.len() <= i < before.len() ==> has_key(
                        kept@,
                        (#[trigger] before[i]).0,
                    ) || call_ensures(keep, (&before[i].1,), false),
            decreases entries@.len(),
        {
            let ghost rest = entries@;
            let ghost earlier = kept@;
            let entry = match entries.pop() {
                Some(entry) => entry,
                None => {
                    return;
                },
            };
            let ghost at = rest.len() - 1;
            assert(before[at] == entry);
            if keep(&entry.1) {
                kept.push(entry);
                proof {
                    assert forall|j: int| 0 <= j < earlier.len() implies (#[trigger] kept@[j])
                        == earlier[j] && earlier[j].0 != entry.0 by {
                        let i = choose|i: int|
                            rest.len() <= i < before.len() && before[i] == earlier[j];
                        assert(before[i].0 == earlier[j].0);
                        assert(before[at].0 == entry.0);
                    }
                    assert(kept@[earlier.len() as int] == entry);
                    assert forall|j: int| 0 <= j < kept@.len() implies exists|i: int|
                        entries@.len() <= i < before.len() && before[i] == #[trigger] kept@[j] by {
                        if j < earlier.len() {
                            let i = choose|i: int|
                                rest.len() <= i < before.len() && before[i] == earlier[j];
                            assert(before[i] == kept@[j]);
                        } else {
                            assert(before[at] == kept@[j]);
                        }
                    }
                    assert forall|i: int| entries@.len() <= i < before.len() implies has_key(
                        kept@,
                        (#[trigger] before[i]).0,
                    ) || call_ensures(keep, (&before[i].1,), false) by {
                        if i > at && has_key(earlier, before[i].0) {
                            let j = position(earlier, before[i].0);
                            assert(kept@[j].0 == before[i].0);
                        }
                        if i == at {
                            assert(kept@[earlier.len() as int].0 == before[i].0);
                        }
                    }
                }
            }
        }
        proof {
            let after = kept@;
            assert forall|key: K| #[trigger] entry_map(after).contains_key(key) implies entry_map(
                before,
            ).contains_key(key) && entry_map(after)[key] == entry_map(before)[key]
                && call_ensures(keep, (&entry_map(before)[key],), true) by {
                let j = position(after, key);
                entry_of(after, j);
                let i = choose|i: int| 0 <= i < before.len() && before[i] == after[j];
                entry_of(before, i);
            }
            assert forall|key: K| #[trigger]
                entry_map(before).contains_key(key) && !entry_map(after).contains_key(key) implies
                call_ensures(keep, (&entry_map(before)[key],), false) by {
                let i = position(before, key);
                entry_of(before, i);
            }
        }
        self.entries = kept;
    }

    /// Drops everything.
    pub fn clear(&mut self)
        ensures
            final(self)@ == Map::<K, V>::empty(),
    {
        let entries: Vec<(K, V)> = Vec::new();
        self.entries = entries;
        assert(entry_map(self.entries@) =~= Map::<K, V>::empty());
    }
}

/// Sweeps out the values that are not kept, and drops everything where that
/// would still leave no room for the incoming key.
pub fn make_room_in_bounded_cache<K: CacheKey, V, Keep: Fn(&V) -> bool>(
    cache: &mut PreparedCache<K, V>,
    incoming: &K,
    limit: usize,
    keep: Keep,
)
    requires
        asks_of_all(old(cache)@, keep),
    ensures
        exists|swept: Map<K, V>| #[trigger]
            sweeps(old(cache)@, keep, swept) && final(cache)@ == room_for(swept, *incoming, limit),
{
    cache.retain(keep);
    let ghost swept = cache@;
    if !cache.contains_key(incoming) && cache.len() >= limit {
        cache.clear();
    }
    assert(sweeps(old(cache)@, keep, swept) && cache@ == room_for(swept, *incoming, limit));
}

/// Whatever is swept out of a cache that holds no more than its limit, it
/// still holds no more after it made room for a key and the key was inserted.
pub proof fn swept_cache_stays_bounded<K, V>(
    before: Map<K, V>,
    swept: Map<K, V>,
    key: K,
    value: V,
    limit: usize,
)
    requires
        before.dom().finite(),
        before.len() <= limit,
        limit >= 1,
        swept.dom().subset_of(before.dom()),
    ensures
        room_for(swept, key, limit).insert(key, value).dom().finite(),
        room_for(swept, key, limit).insert(key, value).len() <= limit,
{
    vstd::set_lib::lemma_len_subset(swept.dom(), before.dom());
    let roomed = room_for(swept, key, limit);
    if swept.contains_key(key) {
        assert(roomed.insert(key, value).dom() =~= swept.dom());
    }
}

/// A cache that holds no more than its limit still does after it made room
/// for a key and the key was inserted.
pub proof fn bounded_cache_stays_bounded<K, V, Keep: Fn(&V) -> bool>(
    before: Map<K, V>,
    keep: Keep,
    swept: Map<K, V>,
    key: K,
    value: V,
    limit: usize,
)
    requires
        before.dom().finite(),
        before.len() <= limit,
        limit >= 1,
        sweeps(before, keep, swept),
    ensures
        room_for(swept, key, limit).insert(key, value).len() <= limit,
{
    assert forall|other: K| swept.dom().contains(other) implies before.dom().contains(other) by {
        assert(swept.contains_key(other));
    }
    swept_cache_stays_bounded(before, swept, key, value, limit);
}

} // verus!
