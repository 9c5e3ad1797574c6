//! The entries of a store by their keys.

use std::sync::Arc;

use dashmap::DashMap;
use tokio::sync::{Mutex, OwnedMutexGuard};
use vstd::arithmetic::power2::is_pow2;
use vstd::prelude::*;

use crate::expiry::{
    expires, is_listed, keys_of, lists_expired, tries_each_once, without_expired,
};
use crate::index::{
    index_contents, index_get, index_get_or_insert, index_new, index_remove, index_retain,
    index_shards, index_with_shards, index_without,
};
use crate::key::Uuid;
use crate::live::LiveValue;
use crate::lock::owned_of;
use crate::options::{shards_for, valid_shard_amt};
use crate::raw::RawEntry;
use crate::store::trials::Trials;
use crate::time::Instant;

verus! {

/// An entry in the slot that holds it.
#[verifier::reject_recursive_types(V)]
pub struct Slot<V: LiveValue> {
    pub key: Uuid,
    pub raw: RawEntry<V>,
}

/// A map from keys to entries. The entries lie in slots, and an index from keys to slots
/// finds them. A slot whose entry was removed is used again.
#[verifier::reject_recursive_types(V)]
pub struct Entries<V: LiveValue> {
    index: DashMap<u128, usize>,
    slots: Vec<Option<Slot<V>>>,
    free: Vec<usize>,
}

impl<V: LiveValue> View for Entries<V> {
    type V = Map<Uuid, RawEntry<V>>;

    closed spec fn view(&self) -> Map<Uuid, RawEntry<V>> {
        let contents = index_contents(self.index);
        Map::new(
            |key: Uuid| contents.contains_key(key.bits),
            |key: Uuid| self.slots@[contents[key.bits] as int]->0.raw,
        )
    }
}

impl<V: LiveValue> Entries<V> {
    /// The index leads from each key to the slot with its entry, no slot holds an entry that
    /// the index does not lead to, and the free slots are those that hold nothing.
    pub closed spec fn wf(self) -> bool {
        let contents = index_contents(self.index);
        &&& forall|bits: u128| #[trigger]
            contents.contains_key(bits) ==> {
                &&& contents[bits] < self.slots@.len()
                &&& self.slots@[contents[bits] as int] matches Some(slot) && slot.key.bits == bits
            }
        &&& forall|i: int|
            0 <= i < self.slots@.len() ==> (#[trigger] self.slots@[i] matches Some(slot) ==> {
                &&& contents.contains_key(slot.key.bits)
                &&& contents[slot.key.bits] == i
            })
        &&& self.free@.no_duplicates()
        &&& forall|j: int|
            0 <= j < self.free@.len() ==> {
                &&& #[trigger] self.free@[j] < self.slots@.len()
                &&& self.slots@[self.free@[j] as int] is None
            }
        &&& forall|i: int|
            0 <= i < self.slots@.len() && #[trigger] self.slots@[i] is None ==> self.free@.contains(
                i as usize,
            )
    }

    /// The number of shards that the map is split into.
    pub closed spec fn shards(self) -> usize {
        index_shards(self.index)
    }

    /// An empty map with the given number of shards.
    pub(crate) fn new(shard_amt: Option<usize>) -> (entries: Self)
        requires
            valid_shard_amt(shard_amt),
        ensures
            entries.wf(),
            entries@ == Map::<Uuid, RawEntry<V>>::empty(),
            shard_amt matches Some(amt) ==> entries.shards() == shards_for(amt),
    {
        proof {
            reveal_with_fuel(is_pow2, 2);
        }
        let index = match shard_amt {
            Some(amt) => if amt == 1 {
                index_with_shards(2)
            } else {
                index_with_shards(amt)
            },
            None => index_new(),
        };
        let entries = Entries { index, slots: Vec::new(), free: Vec::new() };
        assert(entries@ =~= Map::<Uuid, RawEntry<V>>::empty());
        entries
    }

    /// The entry at a key.
    pub(crate) fn get(&self, key: &Uuid) -> (raw: Option<&RawEntry<V>>)
        requires
            self.wf(),
        ensures
            match raw {
                Some(raw) => self@.contains_key(*key) && *raw == self@[*key],
                None => !self@.contains_key(*key),
            },
    {
        match index_get(&self.index, key.bits) {
            Some(i) => {
                assert(index_contents(self.index).contains_key(key.bits));
                match &self.slots[i] {
                    Some(slot) => Some(&slot.raw),
                    None => None,
                }
            },
            None => None,
        }
    }

    /// The entry at a key, for changing.
    pub(crate) fn get_mut(&mut self, key: &Uuid) -> (raw: Option<&mut RawEntry<V>>)
        requires
            old(self).wf(),
        ensures
            final(self).wf(),
            final(self).shards() == old(self).shards(),
            match raw {
                Some(raw) => {
                    &&& old(self)@.contains_key(*key)
                    &&& *raw == old(self)@[*key]
                    &&& final(self)@ == old(self)@.insert(*key, *final(raw))
                },
                None => !old(self)@.contains_key(*key) && final(self)@ == old(self)@,
            },
    {
        match index_get(&self.index, key.bits) {
            Some(i) => {
                assert(index_contents(self.index).contains_key(key.bits));
                match &mut self.slots[i] {
                    Some(slot) => Some(&mut slot.raw),
                    None => None,
                }
            },
            None => None,
        }
    }

    /// Puts an entry at a key and returns the one that was there before, if any.
    pub(crate) fn insert(&mut self, key: &Uuid, raw: RawEntry<V>) -> (replaced: Option<RawEntry<V>>)
        requires
            old(self).wf(),
        ensures
            final(self).wf(),
            final(self).shards() == old(self).shards(),
            final(self)@ == old(self)@.insert(*key, raw),
            replaced == old(self)@.get(*key),
    {
        let fresh: usize = if self.free.len() > 0 {
            self.free[self.free.len() - 1]
        } else {
            self.slots.len()
        };
        let i = index_get_or_insert(&mut self.index, key.bits, fresh);
        let ghost contents = index_contents(old(self).index);
        let slot = Slot { key: *key, raw };
        if i != fresh {
            let mut item = Some(slot);
            std::mem::swap(&mut self.slots[i], &mut item);
            assert(self@ =~= old(self)@.insert(*key, raw));
            match item {
                Some(slot) => Some(slot.raw),
                None => None,
            }
        } else {
            assert(!contents.contains_key(key.bits));
            if i == self.slots.len() {
                self.slots.push(Some(slot));
            } else {
                let ghost free = self.free@;
                self.free.pop();
                self.slots[i] = Some(slot);
                proof {
                    assert forall|n: int|
                        0 <= n < self.slots@.len() && #[trigger] self.slots@[n] is None implies self.free@.contains(
                        n as usize,
                    ) by {
                        assert(old(self).slots@[n] is None);
                        let j = free.index_of(n as usize);
                        assert(free[j] == n);
                        assert(self.free@[j] == n);
                    }
                }
            }
            assert(self@ =~= old(self)@.insert(*key, raw));
            None
        }
    }

    /// Takes the entry at a key out of the map.
    pub(crate) fn remove(&mut self, key: &Uuid) -> (removed: Option<RawEntry<V>>)
        requires
            old(self).wf(),
        ensures
            final(self).wf(),
            final(self).shards() == old(self).shards(),
            final(self)@ == old(self)@.remove(*key),
            removed == old(self)@.get(*key),
    {
        match index_remove(&mut self.index, key.bits) {
            Some(i) => {
                assert(index_contents(old(self).index).contains_key(key.bits));
                let taken = self.slots[i].take();
                self.free.push(i);
                proof {
                    assert forall|n: int|
                        0 <= n < self.slots@.len() && #[trigger] self.slots@[n] is None implies self.free@.contains(
                        n as usize,
                    ) by {
                        if n == i {
                            assert(self.free@[self.free@.len() - 1] == i);
                        } else {
                            assert(old(self).slots@[n] is None && n < self.slots.len());
                            let j = old(self).free@.index_of(n as usize);
                            assert(self.free@[j] == n);
                        }
                    }
                }
                assert(self@ =~= old(self)@.remove(*key));
                match taken {
                    Some(slot) => Some(slot.raw),
                    None => None,
                }
            },
            None => {
                assert(self@ =~= old(self)@.remove(*key));
                None
            },
        }
    }

    /// The keys of the entries last changed before `min` whose lock is held at the moment: of
    /// those entries, the ones for which trying to get the lock was in vain. Each of their locks is
    /// tried once, and no other. Which locks are held is up to the tasks that use the store.
    pub(crate) fn find_locked(&self, min: &Instant, trials: &mut Trials) -> (locked: Vec<Uuid>)
        requires
            self.wf(),
        ensures
            forall|key: Uuid| #[trigger]
                locked@.contains(key) ==> {
                    &&& self@.contains_key(key)
                    &&& self@[key].last_change.nanos < min.nanos
                    &&& self@[key].lock.yields(None)
                },
            forall|key: Uuid| #[trigger]
                self@.contains_key(key) && self@[key].last_change.nanos < min.nanos
                    && !locked@.contains(key) ==> self@[key].lock.yields_guard(),
            old(trials).made().is_prefix_of(final(trials).made()),
            exists|tried: Seq<Uuid>| #[trigger]
                tries_each_once(
                    tried,
                    final(trials).since(*old(trials)),
                    self@,
                    *min,
                    locked@,
                ),
    {
        let mut locked: Vec<Uuid> = Vec::new();
        let ghost mut tried: Seq<Uuid> = Seq::empty();
        let ghost mut from: Seq<usize> = Seq::empty();
        let ghost mut made: Seq<(Arc<Mutex<()>>, Option<OwnedMutexGuard<()>>)> = Seq::empty();
        let mut i: usize = 0;
        while i < self.slots.len()
            invariant
                self.wf(),
                i <= self.slots@.len(),
                forall|j: int|
                    0 <= j < locked@.len() ==> {
                        &&& self@.contains_key(#[trigger] locked@[j])
                        &&& self@[locked@[j]].last_change.nanos < min.nanos
                        &&& self@[locked@[j]].lock.yields(None)
                    },
                forall|n: int|
                    0 <= n < i ==> (#[trigger] self.slots@[n] matches Some(slot) ==> {
                        ||| slot.raw.last_change.nanos >= min.nanos
                        ||| locked@.contains(slot.key)
                        ||| slot.raw.lock.yields_guard()
                    }),
                trials.made() == old(trials).made() + made,
                made.len() == tried.len() == from.len(),
                forall|a: int|
                    0 <= a < from.len() ==> {
                        &&& #[trigger] from[a] < i
                        &&& self.slots@[from[a] as int] is Some
                        &&& self.slots@[from[a] as int]->0.key == tried[a]
                        &&& self.slots@[from[a] as int]->0.raw.last_change.nanos < min.nanos
                        &&& made[a].0 == self.slots@[from[a] as int]->0.raw.lock.mutex()
                        &&& made[a].1 is None <==> locked@.contains(tried[a])
                    },
                forall|a: int, b: int| 0 <= a < b < from.len() ==> from[a] < from[b],
                forall|n: int|
                    0 <= n < i ==> (#[trigger] self.slots@[n] matches Some(slot) ==> {
                        slot.raw.last_change.nanos < min.nanos ==> from.contains(n as usize)
                    }),
                forall|key: Uuid| #[trigger] locked@.contains(key) ==> tried.contains(key),
            decreases self.slots@.len() - i,
        {
            let ghost before = locked@;
            let ghost before_from = from;
            let ghost before_tried = tried;
            match &self.slots[i] {
                Some(slot) => if slot.raw.last_change.is_before(min) {
                    let got = slot.raw.lock.try_lock(trials);
                    proof {
                        tried = tried.push(slot.key);
                        from = from.push(i);
                        made = made.push((slot.raw.lock.mutex(), owned_of(got)));
                        assert(trials.made() =~= old(trials).made() + made);
                        assert(from[from.len() - 1] == i && tried[tried.len() - 1] == slot.key);
                        assert forall|a: int| 0 <= a < before_from.len() implies tried[a]
                            != slot.key by {
                            assert(self.slots@[before_from[a] as int]->0.key == tried[a]);
                        }
                        assert(!before.contains(slot.key)) by {
                            if before.contains(slot.key) {
                                let a = before_tried.index_of(slot.key);
                                assert(before_tried[a] == tried[a]);
                            }
                        }
                    }
                    if got.is_none() {
                        locked.push(slot.key);
                        assert(locked@[locked@.len() - 1] == slot.key);
                    }
                },
                None => {},
            }
            assert forall|key: Uuid| before.contains(key) implies locked@.contains(key) by {
                assert(locked@[before.index_of(key)] == key);
            }
            assert forall|key: Uuid| before_tried.contains(key) implies tried.contains(key) by {
                assert(tried[before_tried.index_of(key)] == key);
            }
            assert forall|n: usize| before_from.contains(n) implies from.contains(n) by {
                assert(from[before_from.index_of(n)] == n);
            }
            assert forall|key: Uuid| #[trigger] locked@.contains(key) implies tried.contains(
                key,
            ) by {
                if !before.contains(key) {
                    let a = locked@.index_of(key);
                    assert(a < before.len() ==> before[a] == key);
                    assert(tried[tried.len() - 1] == key);
                }
            }
            i += 1;
        }
        assert forall|key: Uuid| #[trigger]
            self@.contains_key(key) && self@[key].last_change.nanos < min.nanos
                && !locked@.contains(key) implies self@[key].lock.yields_guard() by {
            let contents = index_contents(self.index);
            assert(contents.contains_key(key.bits));
            assert(self.slots@[contents[key.bits] as int]->0.key == key);
        }
        proof {
            let contents = index_contents(self.index);
            assert(trials.since(*old(trials)) =~= made);
            assert forall|a: int, b: int| 0 <= a < b < tried.len() implies tried[a]
                != tried[b] by {
                assert(from[a] < from[b]);
            }
            assert forall|key: Uuid| #[trigger] tried.contains(key) <==> self@.contains_key(key)
                && self@[key].last_change.nanos < min.nanos by {
                if tried.contains(key) {
                    let a = tried.index_of(key);
                    assert(from[a] < self.slots@.len());
                }
                if self@.contains_key(key) && self@[key].last_change.nanos < min.nanos {
                    assert(contents.contains_key(key.bits));
                    let n = contents[key.bits];
                    assert(self.slots@[n as int] is Some);
                    let a = from.index_of(n);
                    assert(from[a] == n);
                    assert(tried[a] == key);
                }
            }
            assert forall|a: int| 0 <= a < tried.len() implies {
                &&& (#[trigger] made[a]).0 == self@[tried[a]].lock.mutex()
                &&& made[a].1 is None <==> locked@.contains(tried[a])
            } by {
                assert(from[a] < self.slots@.len());
            }
            assert(tries_each_once(tried, made, self@, *min, locked@));
        }
        locked
    }

    /// Marks the slots whose entries expire.
    fn mark_expired(&self, min: &Instant, locked: &Vec<Uuid>) -> (doomed: Vec<bool>)
        requires
            self.wf(),
        ensures
            doomed@.len() == self.slots@.len(),
            forall|i: int|
                0 <= i < doomed@.len() ==> (#[trigger] doomed@[i] <==> {
                    &&& self.slots@[i] is Some
                    &&& expires(self@, *min, locked@, self.slots@[i]->0.key)
                }),
    {
        let mut doomed: Vec<bool> = Vec::new();
        let mut i: usize = 0;
        while i < self.slots.len()
            invariant
                self.wf(),
                i <= self.slots@.len(),
                doomed@.len() == i,
                forall|n: int|
                    0 <= n < i ==> (#[trigger] doomed@[n] <==> {
                        &&& self.slots@[n] is Some
                        &&& expires(self@, *min, locked@, self.slots@[n]->0.key)
                    }),
            decreases self.slots@.len() - i,
        {
            let mark = match &self.slots[i] {
                Some(slot) => slot.raw.last_change.is_before(min) && !is_listed(locked, &slot.key),
                None => false,
            };
            doomed.push(mark);
            i += 1;
        }
        doomed
    }

    /// Takes the entries that expire out of the map: those last changed before `min`, except
    /// at the keys in `locked`.
    pub(crate) fn expire(&mut self, min: &Instant, locked: &Vec<Uuid>) -> (expired: Vec<
        (Uuid, RawEntry<V>),
    >)
        requires
            old(self).wf(),
        ensures
            final(self).wf(),
            final(self).shards() == old(self).shards(),
            final(self)@ == without_expired(old(self)@, *min, locked@),
            lists_expired(keys_of(expired@), old(self)@, *min, locked@),
            forall|j: int|
                0 <= j < expired@.len() ==> (#[trigger] expired@[j]).1 == old(self)@[expired@[j].0],
    {
        let doomed = self.mark_expired(min, locked);
        index_retain(&mut self.index, &doomed);
        let mut expired: Vec<(Uuid, RawEntry<V>)> = Vec::new();
        let ghost mut from: Seq<usize> = Seq::empty();
        let mut i: usize = 0;
        while i < self.slots.len()
            invariant
                old(self).wf(),
                doomed@.len() == old(self).slots@.len(),
                forall|n: int|
                    0 <= n < doomed@.len() ==> (#[trigger] doomed@[n] <==> {
                        &&& old(self).slots@[n] is Some
                        &&& expires(old(self)@, *min, locked@, old(self).slots@[n]->0.key)
                    }),
                i <= self.slots@.len() == old(self).slots@.len(),
                index_shards(self.index) == index_shards(old(self).index),
                index_contents(self.index) == index_without(
                    index_contents(old(self).index),
                    doomed@,
                ),
                forall|n: int|
                    0 <= n < self.slots@.len() ==> #[trigger] self.slots@[n] == if n < i
                        && doomed@[n] {
                        None
                    } else {
                        old(self).slots@[n]
                    },
                from.len() == expired@.len(),
                self.free@ == old(self).free@ + from,
                forall|a: int|
                    0 <= a < from.len() ==> {
                        &&& #[trigger] from[a] < i
                        &&& doomed@[from[a] as int]
                        &&& old(self).slots@[from[a] as int] == Some(
                            Slot { key: expired@[a].0, raw: expired@[a].1 },
                        )
                    },
                forall|a: int, b: int| 0 <= a < b < from.len() ==> from[a] < from[b],
                forall|n: int|
                    0 <= n < i && #[trigger] doomed@[n] ==> from.contains(n as usize),
            decreases self.slots@.len() - i,
        {
            if doomed[i] {
                let ghost before = from;
                match self.slots[i].take() {
                    Some(slot) => {
                        expired.push((slot.key, slot.raw));
                        self.free.push(i);
                        proof {
                            from = from.push(i);
                            assert(from[from.len() - 1] == i);
                            assert forall|n: int| 0 <= n <= i && #[trigger] doomed@[n] implies from.contains(
                                n as usize,
                            ) by {
                                if n < i {
                                    let a = before.index_of(n as usize);
                                    assert(from[a] == n as usize);
                                }
                            }
                            assert(self.free@ =~= old(self).free@ + from);
                        }
                    },
                    None => {},
                }
            }
            i += 1;
        }
        proof {
            let keys = keys_of(expired@);
            let contents = index_contents(old(self).index);
            assert forall|a: int, b: int| 0 <= a < b < keys.len() implies keys[a] != keys[b] by {
                assert(old(self).slots@[from[a] as int] is Some);
                assert(old(self).slots@[from[b] as int] is Some);
            }
            assert forall|key: Uuid| #[trigger] keys.contains(key) <==> expires(
                old(self)@,
                *min,
                locked@,
                key,
            ) by {
                if keys.contains(key) {
                    let a = keys.index_of(key);
                    assert(doomed@[from[a] as int]);
                }
                if expires(old(self)@, *min, locked@, key) {
                    assert(contents.contains_key(key.bits));
                    let n = contents[key.bits];
                    assert(old(self).slots@[n as int]->0.key == key);
                    assert(doomed@[n as int]);
                    let a = from.index_of(n);
                    assert(keys[a] == key);
                }
            }
            assert forall|a: int| 0 <= a < expired@.len() implies (#[trigger] expired@[a]).1 == old(
                self,
            )@[expired@[a].0] by {
                assert(old(self).slots@[from[a] as int] is Some);
            }
            assert(self@ =~= without_expired(old(self)@, *min, locked@));
            assert forall|n: int|
                0 <= n < self.slots@.len() && #[trigger] self.slots@[n] is None implies self.free@.contains(
                n as usize,
            ) by {
                assert(n < self.slots.len());
                if doomed@[n] {
                    let a = from.index_of(n as usize);
                    assert(self.free@[old(self).free@.len() + a] == n);
                } else {
                    assert(old(self).slots@[n] is None);
                    let j = old(self).free@.index_of(n as usize);
                    assert(self.free@[j] == n);
                }
            }
        }
        expired
    }
}

} // verus!
