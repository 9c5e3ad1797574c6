//! What a store amounts to, for contracts to speak of.

use std::sync::Arc;

use tokio::sync::{Mutex, OwnedMutexGuard};
use vstd::prelude::*;

use crate::expiry::{expires, keys_of, lists_expired, tries_each_once, without_expired};
use crate::key::Uuid;
use crate::live::{Entry, LiveValue, Update};
use crate::lock::LockGuard;
use crate::options::{shards_for, StoreOptions};
use crate::raw::RawEntry;
use crate::time::{Clock, Instant};

verus! {

/// The mathematical content of a store.
#[verifier::ext_equal]
#[verifier::reject_recursive_types(V)]
pub struct StoreState<V: LiveValue> {
    /// The entries by their keys.
    pub entries: Map<Uuid, RawEntry<V>>,
    /// The entries that have left the store, in the order in which they left it, as they
    /// were in the end. The channel of an entry that has left is closed.
    pub retired: Seq<(Uuid, RawEntry<V>)>,
    /// The number of shards that the map of the store is split into.
    pub shards: usize,
    /// The clock that the times of the entries are read off.
    pub clock: Clock,
    /// The settings of the store.
    pub options: StoreOptions,
    /// Whether somebody is to be told of entries that expire.
    pub on_expire: bool,
}

impl<V: LiveValue> StoreState<V> {
    /// A store without entries.
    pub open spec fn empty(
        shards: usize,
        clock: Clock,
        options: StoreOptions,
        on_expire: bool,
    ) -> Self {
        StoreState {
            entries: Map::empty(),
            retired: Seq::empty(),
            shards,
            clock,
            options,
            on_expire,
        }
    }

    /// Whether this is a store with the given settings that was just made: it holds nothing, its
    /// clock was not read, and it has the number of shards that was asked for, if any.
    pub open spec fn is_fresh(self, options: StoreOptions, on_expire: bool) -> bool {
        &&& self == StoreState::<V>::empty(self.shards, self.clock, options, on_expire)
        &&& self.clock.readings() == Seq::<Instant>::empty()
        &&& options.shard_amt matches Some(amt) ==> self.shards == shards_for(amt)
    }

    /// The store after its clock has become `clock`.
    pub open spec fn at(self, clock: Clock) -> Self {
        StoreState { clock, ..self }
    }

    /// Whether there is an entry at the key.
    pub open spec fn has(self, key: Uuid) -> bool {
        self.entries.contains_key(key)
    }

    /// What is read at the key.
    pub open spec fn fetched(self, key: Uuid) -> Option<Entry<V>> {
        if self.has(key) {
            Some(self.entries[key].entry())
        } else {
            None
        }
    }

    /// Whether `held` is a guard of the lock of the entry at the key.
    pub open spec fn serves(self, key: Uuid, held: Option<LockGuard>) -> bool {
        &&& self.has(key)
        &&& held matches Some(guard) && guard.is_of(self.entries[key].lock)
    }

    /// Whether somebody who came with `held` can have got the lock of the entry at the key.
    pub open spec fn grants(self, key: Uuid, held: Option<LockGuard>) -> bool {
        exists|guard: LockGuard| #[trigger] self.entries[key].lock.settles(held, Some(guard))
    }

    /// Whether somebody who came with `held` can have been refused the lock of the entry at the
    /// key.
    pub open spec fn refuses(self, key: Uuid, held: Option<LockGuard>) -> bool {
        self.entries[key].lock.settles(held, None)
    }

    /// The store after the entry at the key has become `raw`.
    pub open spec fn with_changed(self, key: Uuid, raw: RawEntry<V>) -> Self {
        StoreState { entries: self.entries.insert(key, raw), ..self }
    }

    /// The store after another entry was put at the key. An entry that was there before has
    /// left the store without a word to its subscribers.
    pub open spec fn with_new(self, key: Uuid, raw: RawEntry<V>) -> Self {
        StoreState {
            entries: self.entries.insert(key, raw),
            retired: if self.has(key) {
                self.retired.push((key, self.entries[key]))
            } else {
                self.retired
            },
            ..self
        }
    }

    /// The store after the entry at the key has left it as `last`.
    pub open spec fn without(self, key: Uuid, last: RawEntry<V>) -> Self {
        StoreState {
            entries: self.entries.remove(key),
            retired: self.retired.push((key, last)),
            ..self
        }
    }

    /// Whether this is the store `before` after a new entry for `val`, with the given times and a
    /// lock that no other entry has, was put at the key.
    pub open spec fn is_put(
        self,
        before: Self,
        key: Uuid,
        val: V,
        last_change: Instant,
        create_time: Instant,
    ) -> bool {
        &&& self == before.with_new(key, self.entries[key])
        &&& self.entries[key].is_new(val, before.options)
        &&& self.entries[key].last_change == last_change
        &&& self.entries[key].create_time == create_time
        &&& self.entries[key].lock.is_apart(before.entries)
    }

    /// Whether this is the store `before` after the entry at the key was given the value `val`
    /// at the time `now` and its subscribers were told.
    pub open spec fn is_changed_at(
        self,
        before: Self,
        key: Uuid,
        val: V,
        msg: Option<V::Message>,
        mutn: Option<V::Mutation>,
        now: Instant,
    ) -> bool {
        &&& before.has(key)
        &&& self == before.with_changed(key, self.entries[key])
        &&& self.entries[key].is_changed(before.entries[key], val, msg, mutn)
        &&& self.entries[key].last_change == now
    }

    /// Whether this is the store `before` after a new entry for `val` was put at the key with the
    /// times that the clock of the store showed.
    pub open spec fn is_put_now(self, before: Self, key: Uuid, val: V) -> bool {
        let raw = self.entries[key];
        &&& self.clock.reads(before.clock, seq![raw.last_change, raw.create_time])
        &&& self.is_put(before.at(self.clock), key, val, raw.last_change, raw.create_time)
    }

    /// Whether this is the store `before` after the entry at the key was given the value `val`
    /// at the time that the clock of the store showed, and its subscribers were told.
    pub open spec fn is_changed_now(
        self,
        before: Self,
        key: Uuid,
        val: V,
        msg: Option<V::Message>,
        mutn: Option<V::Mutation>,
    ) -> bool {
        let raw = self.entries[key];
        &&& self.clock.reads(before.clock, seq![raw.last_change])
        &&& self.is_changed_at(before.at(self.clock), key, val, msg, mutn, raw.last_change)
    }

    /// Whether this is the store `before` after the entry at the key was removed and its
    /// subscribers were told.
    pub open spec fn is_removed_from(
        self,
        before: Self,
        key: Uuid,
        msg: Option<V::Message>,
    ) -> bool {
        &&& before.has(key)
        &&& self == before.without(key, self.retired.last().1)
        &&& self.retired.last().1.is_after_sending(
            before.entries[key],
            Update::Remove { msg, val: before.entries[key].value, key },
        )
    }

    /// Whether this is the store `before` after a message was sent to the subscribers of the
    /// entry at the key.
    pub open spec fn is_told(self, before: Self, key: Uuid, msg: V::Message) -> bool {
        &&& before.has(key)
        &&& self == before.with_changed(key, self.entries[key])
        &&& self.entries[key].is_after_sending(
            before.entries[key],
            Update::Message { msg, val: before.entries[key].entry() },
        )
    }

    /// Whether this is the store `before` after an entry for `val` was asked for at the key: one
    /// is made unless there is one already.
    pub open spec fn is_created(
        self,
        before: Self,
        key: Uuid,
        val: V,
        last_change: Instant,
        create_time: Instant,
    ) -> bool {
        if before.has(key) {
            self == before
        } else {
            self.is_put(before, key, val, last_change, create_time)
        }
    }

    /// Whether this is the store `before` after the value `val` was assigned to the key: the
    /// entry there takes it at the time `now`, provided that its lock was `claimed`.
    pub open spec fn is_assigned(
        self,
        before: Self,
        key: Uuid,
        val: V,
        claimed: bool,
        now: Instant,
    ) -> bool {
        if before.has(key) && claimed {
            self.is_changed_at(before, key, val, None, None, now)
        } else {
            self == before
        }
    }

    /// Whether this is the store `before` after the value `val` was inserted at the key: an
    /// entry there takes it, provided that its lock was `claimed`, and where there is none one
    /// is made.
    pub open spec fn is_inserted(
        self,
        before: Self,
        key: Uuid,
        val: V,
        claimed: bool,
        now: Instant,
        create_time: Instant,
    ) -> bool {
        if before.has(key) {
            self.is_assigned(before, key, val, claimed, now)
        } else {
            self.is_put(before, key, val, now, create_time)
        }
    }

    /// Whether this is the store `before` after whoever holds the lock of the entry at the key
    /// has set the value `val` at the time `now`: the entry takes it, if it is there.
    pub open spec fn is_set(
        self,
        before: Self,
        key: Uuid,
        val: V,
        msg: Option<V::Message>,
        now: Instant,
    ) -> bool {
        if before.has(key) {
            self.is_changed_at(before, key, val, msg, None, now)
        } else {
            self == before
        }
    }

    /// Whether this is the store `before` after a mutation that came to `outcome` was
    /// dispatched to the key: the entry there takes the value at the time `now`, provided that
    /// its lock was `claimed` and the mutation did not fail.
    pub open spec fn is_mutated(
        self,
        before: Self,
        key: Uuid,
        mutn: V::Mutation,
        outcome: Result<V, V::MutError>,
        claimed: bool,
        now: Instant,
    ) -> bool {
        if before.has(key) && claimed && outcome is Ok {
            self.is_changed_at(before, key, outcome->Ok_0, None, Some(mutn), now)
        } else {
            self == before
        }
    }

    /// Whether this is the store `before` after the removal of the entry at the key was asked
    /// for: it is removed, provided that its lock was `claimed`.
    pub open spec fn is_deleted(
        self,
        before: Self,
        key: Uuid,
        msg: Option<V::Message>,
        claimed: bool,
    ) -> bool {
        if before.has(key) && claimed {
            self.is_removed_from(before, key, msg)
        } else {
            self == before
        }
    }

    /// Whether this is the store `before` after a message was sent to the subscribers of the
    /// entry at the key, if there is one.
    pub open spec fn is_broadcast(self, before: Self, key: Uuid, msg: V::Message) -> bool {
        if before.has(key) {
            self.is_told(before, key, msg)
        } else {
            self == before
        }
    }

    /// The entries that have left the store since it was `before`.
    pub open spec fn retired_since(self, before: Self) -> Seq<(Uuid, RawEntry<V>)> {
        self.retired.skip(before.retired.len() as int)
    }

    /// Whether `locked` can be the keys of the entries that a search which removes what was last
    /// changed before `min` found locked: of the entries last changed before, those whose lock it
    /// tried to get in vain. It got the lock of all others of them.
    pub open spec fn finds_locked(self, min: Instant, locked: Seq<Uuid>) -> bool {
        &&& forall|key: Uuid| #[trigger]
            locked.contains(key) ==> {
                &&& self.has(key)
                &&& self.entries[key].last_change.nanos < min.nanos
                &&& self.entries[key].lock.yields(None)
            }
        &&& forall|key: Uuid| #[trigger]
            expires(self.entries, min, locked, key) ==> self.entries[key].lock.yields_guard()
    }

    /// Whether a search of the store, which removes what was last changed before `min`, can have
    /// found `locked` by the attempts `made` to get locks: it has tried the lock of each entry that
    /// was last changed before once, and none besides.
    pub open spec fn is_searched(
        self,
        made: Seq<(Arc<Mutex<()>>, Option<OwnedMutexGuard<()>>)>,
        min: Instant,
        locked: Seq<Uuid>,
    ) -> bool {
        &&& self.finds_locked(min, locked)
        &&& exists|tried: Seq<Uuid>| #[trigger]
            tries_each_once(tried, made, self.entries, min, locked)
    }

    /// Whether this is the store `before` after the entries that expire have left it. Their
    /// subscribers are told nothing.
    pub open spec fn is_expired(self, before: Self, min: Instant, locked: Seq<Uuid>) -> bool {
        let gone = self.retired_since(before);
        &&& self == StoreState {
            entries: without_expired(before.entries, min, locked),
            retired: before.retired + gone,
            ..before
        }
        &&& lists_expired(keys_of(gone), before.entries, min, locked)
        &&& forall|j: int| 0 <= j < gone.len() ==> (#[trigger] gone[j]).1 == before.entries[gone[j].0]
    }
}

} // verus!
