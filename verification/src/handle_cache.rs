//! Handles of objects that are shared, by what the objects were made from.

use vstd::prelude::*;

verus! {

/// What a handle is found by.
pub trait CacheKey {
    /// What keys are compared by.
    type Model;

    /// What a key is compared by.
    spec fn model(&self) -> Self::Model;

    /// Whether two keys find the same handle.
    fn same_key(&self, other: &Self) -> (same: bool)
        ensures
            same == (self.model() == other.model()),
    ;
}

/// Handles, by what their objects were made from.
#[derive(Debug)]
pub struct HandleCache<K> {
    entries: Vec<(K, u64)>,
}

impl<K: CacheKey> HandleCache<K> {
    /// The handles, by the models of their keys.
    pub closed spec fn view(&self) -> Map<K::Model, u64> {
        Map::new(
            |key: K::Model| exists|i: int| 0 <= i < self.entries@.len() && self.key_at(i) == key,
            |key: K::Model|
                self.entries@[choose|i: int| 0 <= i < self.entries@.len() && self.key_at(i) == key].1,
        )
    }

    /// The model of the key of an entry.
    spec fn key_at(&self, index: int) -> K::Model {
        self.entries@[index].0.model()
    }

    /// No key is there twice.
    pub closed spec fn wf(&self) -> bool {
        forall|i: int, j: int|
            0 <= i < j < self.entries@.len() ==> #[trigger] self.key_at(i) != #[trigger] self.key_at(
                j,
            )
    }

    /// Creates an empty cache.
    pub fn new() -> (cache: Self)
        ensures
            cache.wf(),
            cache@ == Map::<K::Model, u64>::empty(),
    {
        let cache = HandleCache { entries: Vec::new() };
        assert(cache@ =~= Map::<K::Model, u64>::empty());
        cache
    }

    /// Returns the handle that a key finds, where there is one.
    pub fn get(&self, key: &K) -> (handle: Option<u64>)
        requires
            self.wf(),
        ensures
            handle == (if self@.dom().contains(key.model()) {
                Some(self@[key.model()])
            } else {
                None
            }),
    {
        let mut index: usize = 0;
        while index < self.entries.len()
            invariant
                index <= self.entries@.len(),
                self.wf(),
                forall|i: int| 0 <= i < index ==> self.key_at(i) != key.model(),
            decreases self.entries@.len() - index,
        {
            if self.entries[index].0.same_key(key) {
                proof {
                    assert(self.key_at(index as int) == key.model());
                    let i = choose|i: int|
                        0 <= i < self.entries@.len() && self.key_at(i) == key.model();
                    assert(i == index);
                }
                return Some(self.entries[index].1);
            }
            assert(self.key_at(index as int) != key.model());
            index += 1;
        }
        None
    }

    /// Remembers the handle of an object that was made because there was none.
    pub fn insert(&mut self, key: K, handle: u64)
        requires
            old(self).wf(),
            !old(self)@.dom().contains(key.model()),
        ensures
            final(self).wf(),
            final(self)@ == old(self)@.insert(key.model(), handle),
    {
        let ghost model = key.model();
        let ghost before = *self;
        self.entries.push((key, handle));
        proof {
            let n = before.entries@.len() as int;
            assert forall|i: int| 0 <= i < n implies #[trigger] self.key_at(i) == before.key_at(i)
                && self.key_at(i) != model by {
                if before.key_at(i) == model {
                    assert(before@.dom().contains(model));
                }
            }
            assert(self.key_at(n) == model);
            assert forall|i: int, j: int| 0 <= i < j < self.entries@.len() implies
                #[trigger] self.key_at(i) != #[trigger] self.key_at(j) by {
                if j < n {
                    assert(before.key_at(i) != before.key_at(j));
                }
            }
            let grown = before@.insert(model, handle);
            assert forall|k: K::Model| self@.dom().contains(k) == grown.dom().contains(k) by {
                if exists|i: int| 0 <= i < n && before.key_at(i) == k {
                    let i = choose|i: int| 0 <= i < n && before.key_at(i) == k;
                    assert(self.key_at(i) == k);
                }
                if exists|i: int| 0 <= i < self.entries@.len() && self.key_at(i) == k {
                    let i = choose|i: int| 0 <= i < self.entries@.len() && self.key_at(i) == k;
                    if i < n {
                        assert(before.key_at(i) == k);
                    }
                }
            }
            assert forall|k: K::Model| self@.dom().contains(k) implies self@[k] == grown[k] by {
                let i = choose|i: int| 0 <= i < self.entries@.len() && self.key_at(i) == k;
                assert(self.key_at(i) == k);
                if k != model {
                    assert(before.key_at(i) == k);
                    let j = choose|j: int| 0 <= j < n && before.key_at(j) == k;
                    assert(before.key_at(j) == k);
                    assert(i == j);
                } else if i < n {
                    assert(self.key_at(i) != model);
                }
            }
            assert(self@ =~= grown);
        }
    }

    /// Forgets the handles that are not in a list.
    pub fn retain(&mut self, live: &Vec<u64>)
        requires
            old(self).wf(),
        ensures
            final(self).wf(),
            final(self)@ == old(self)@.restrict(
                Set::new(|key: K::Model| live@.contains(old(self)@[key])),
            ),
    {
        let ghost before = *self;
        let ghost all = self.entries@;
        let ghost mut from: Seq<int> = seq![];
        let mut kept: Vec<(K, u64)> = Vec::new();
        while self.entries.len() > 0
            invariant
                self.entries@.len() <= all.len(),
                self.entries@ == all.take(self.entries@.len() as int),
                kept@.len() == from.len(),
                forall|k: int|
                    0 <= k < from.len() ==> self.entries@.len() <= (#[trigger] from[k]) < all.len()
                        && kept@[k] == all[from[k]] && live@.contains(all[from[k]].1),
                from.no_duplicates(),
                forall|i: int|
                    self.entries@.len() <= i < all.len() ==> !live@.contains(all[i].1)
                        || from.contains(i),
            decreases self.entries@.len(),
        {
            let ghost index = self.entries@.len() - 1;
            if let Some(entry) = self.entries.pop() {
                assert(entry == all[index]);
                if is_listed(live, entry.1) {
                    let ghost old_from = from;
                    kept.push(entry);
                    proof {
                        from = from.push(index);
                        assert(from[old_from.len() as int] == index);
                        assert forall|i: int| index <= i < all.len() implies !live@.contains(
                            all[i].1,
                        ) || from.contains(i) by {
                            if i > index && old_from.contains(i) {
                                let k = choose|k: int| 0 <= k < old_from.len() && old_from[k] == i;
                                assert(from[k] == i);
                            }
                        }
                    }
                }
            }
        }
        self.entries = kept;
        proof {
            let left = before@.restrict(Set::new(|key: K::Model| live@.contains(before@[key])));
            assert forall|k: int| 0 <= k < from.len() implies self.key_at(k) == before.key_at(
                #[trigger] from[k],
            ) by {}
            assert forall|i: int, j: int| 0 <= i < j < self.entries@.len() implies
                #[trigger] self.key_at(i) != #[trigger] self.key_at(j) by {
                assert(from[i] != from[j]);
                assert(before.key_at(from[i]) != before.key_at(from[j]));
            }
            assert forall|i: int| 0 <= i < all.len() implies before@[#[trigger] before.key_at(i)]
                == all[i].1 by {
                let key = before.key_at(i);
                let j = choose|j: int| 0 <= j < all.len() && before.key_at(j) == key;
                assert(before.key_at(j) == key);
                assert(i == j);
            }
            assert forall|k: K::Model| self@.dom().contains(k) == left.dom().contains(k) by {
                if self@.dom().contains(k) {
                    let i = choose|i: int| 0 <= i < self.entries@.len() && self.key_at(i) == k;
                    assert(before.key_at(from[i]) == k);
                    assert(before@[k] == all[from[i]].1);
                }
                if left.dom().contains(k) {
                    let i = choose|i: int| 0 <= i < all.len() && before.key_at(i) == k;
                    assert(before.key_at(i) == k);
                    assert(from.contains(i));
                    let n = choose|n: int| 0 <= n < from.len() && from[n] == i;
                    assert(self.key_at(n) == k);
                }
            }
            assert forall|k: K::Model| self@.dom().contains(k) implies self@[k] == left[k] by {
                let i = choose|i: int| 0 <= i < self.entries@.len() && self.key_at(i) == k;
                assert(self.key_at(i) == k);
                assert(before.key_at(from[i]) == k);
                assert(before@[k] == all[from[i]].1);
            }
            assert(self@ =~= left);
        }
    }

    /// Takes all handles out of the cache.
    pub fn drain(&mut self) -> (handles: Vec<u64>)
        requires
            old(self).wf(),
        ensures
            final(self).wf(),
            final(self)@ == Map::<K::Model, u64>::empty(),
            lists(handles@, old(self)@),
    {
        let mut handles: Vec<u64> = Vec::new();
        let ghost before = *self;
        let mut index: usize = 0;
        while index < self.entries.len()
            invariant
                index <= self.entries@.len(),
                *self == before,
                handles@.len() == index,
                forall|i: int| 0 <= i < index ==> #[trigger] handles@[i] == self.entries@[i].1,
            decreases self.entries@.len() - index,
        {
            handles.push(self.entries[index].1);
            index += 1;
        }
        proof {
            let keys = Seq::new(before.entries@.len(), |i: int| before.key_at(i));
            assert forall|i: int| 0 <= i < keys.len() implies before@.dom().contains(
                #[trigger] keys[i],
            ) && before@[keys[i]] == handles@[i] by {
                let key = before.key_at(i);
                assert(before@.dom().contains(key));
                let j = choose|j: int| 0 <= j < before.entries@.len() && before.key_at(j) == key;
                assert(before.key_at(j) == key);
                assert(i == j);
            }
            assert forall|key: K::Model| #[trigger] before@.dom().contains(key) implies keys.contains(
                key,
            ) by {
                let i = choose|i: int| 0 <= i < before.entries@.len() && before.key_at(i) == key;
                assert(keys[i] == key);
            }
            assert(is_listing(keys, handles@, before@));
        }
        self.entries = Vec::new();
        assert(self@ =~= Map::<K::Model, u64>::empty());
        handles
    }
}

/// Whether some keys, none of them twice, are all the keys of a map, and some handles are what
/// the map has at them.
pub open spec fn is_listing<M>(keys: Seq<M>, handles: Seq<u64>, map: Map<M, u64>) -> bool {
    &&& keys.no_duplicates()
    &&& keys.len() == handles.len()
    &&& forall|key: M| #[trigger] map.dom().contains(key) ==> keys.contains(key)
    &&& forall|i: int|
        0 <= i < keys.len() ==> map.dom().contains(#[trigger] keys[i]) && map[keys[i]] == handles[i]
}

/// Whether some handles are those of a map, each as often as the map has it.
pub open spec fn lists<M>(handles: Seq<u64>, map: Map<M, u64>) -> bool {
    exists|keys: Seq<M>| #[trigger] is_listing(keys, handles, map)
}

/// Whether a list has a handle.
fn is_listed(handles: &Vec<u64>, handle: u64) -> (listed: bool)
    ensures
        listed == handles@.contains(handle),
{
    let mut index: usize = 0;
    while index < handles.len()
        invariant
            index <= handles@.len(),
            forall|i: int| 0 <= i < index ==> handles@[i] != handle,
        decreases handles@.len() - index,
    {
        if handles[index] == handle {
            assert(handles@[index as int] == handle);
            return true;
        }
        index += 1;
    }
    false
}

/// A list of the handles of a map has every handle that the map has at a key, no other handle, and
/// as many as the map has keys.
pub proof fn lists_have_every_handle<M>(handles: Seq<u64>, map: Map<M, u64>, key: M, index: int)
    requires
        lists(handles, map),
    ensures
        map.dom().contains(key) ==> handles.contains(map[key]),
        0 <= index < handles.len() ==> exists|at: M| #[trigger]
            map.dom().contains(at) && map[at] == handles[index],
        map.dom().finite(),
        map.dom().len() == handles.len(),
{
    let keys = choose|keys: Seq<M>| #[trigger] is_listing(keys, handles, map);
    if map.dom().contains(key) {
        let i = choose|i: int| 0 <= i < keys.len() && keys[i] == key;
        assert(handles[i] == map[key]);
    }
    if 0 <= index < handles.len() {
        assert(map.dom().contains(keys[index]));
    }
    keys.unique_seq_to_set();
    assert(map.dom() =~= keys.to_set());
}

} // verus!
