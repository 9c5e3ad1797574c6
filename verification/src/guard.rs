//! Entries whose lock is held.

use std::ops::Deref;
use std::sync::Arc;

use vstd::prelude::*;

use crate::channel::Watch;
use crate::key::Uuid;
use crate::live::{Entry, LiveValue};
use crate::lock::LockGuard;
use crate::operation::{is_step, Operation};
use crate::raw::RawEntry;
use crate::state::StoreState;
use crate::store::LiveStore;
use crate::time::Instant;

verus! {

/// The value and the metadata of an entry whose lock is held. Until the guard is dropped,
/// nobody else gets the lock.
#[verifier::reject_recursive_types(V)]
pub struct EntryGuard<V: LiveValue> {
    pub value: Arc<V>,
    /// When the value was last changed.
    pub last_change: Instant,
    /// When the entry was made.
    pub create_time: Instant,
    uuid: Uuid,
    held: LockGuard,
}

impl<V: LiveValue> EntryGuard<V> {
    /// The key of the entry.
    pub closed spec fn uuid(self) -> Uuid {
        self.uuid
    }

    /// The guard of the lock.
    pub closed spec fn held(self) -> LockGuard {
        self.held
    }

    /// The entry as the guard has it.
    pub closed spec fn entry(self) -> Entry<V> {
        Entry {
            value: self.value,
            last_change: self.last_change,
            create_time: self.create_time,
        }
    }

    /// The guard of an entry.
    pub(crate) fn new(uuid: Uuid, raw: &RawEntry<V>, held: LockGuard) -> (guard: Self)
        ensures
            guard.uuid() == uuid,
            guard.held() == held,
            guard.entry() == raw.entry(),
    {
        EntryGuard {
            value: raw.value.clone(),
            last_change: raw.last_change,
            create_time: raw.create_time,
            uuid,
            held,
        }
    }

    /// The key of the entry.
    pub fn key(&self) -> (key: &Uuid)
        ensures
            *key == self.uuid(),
    {
        &self.uuid
    }

    /// The value of the entry.
    pub fn value(&self) -> (value: &V)
        ensures
            *value == *self.entry().value,
    {
        &self.value
    }

    /// The entry as the guard has it.
    pub fn as_entry(&self) -> (entry: Entry<V>)
        ensures
            entry == self.entry(),
    {
        Entry {
            value: self.value.clone(),
            last_change: self.last_change,
            create_time: self.create_time,
        }
    }
}

impl<V: LiveValue> EntryGuard<V> {
    /// Whether this is the guard `before` after it was given the value and the time of the
    /// last change of `raw`.
    pub open spec fn follows(self, before: Self, raw: RawEntry<V>) -> bool {
        &&& self.uuid() == before.uuid()
        &&& self.held() == before.held()
        &&& self.entry() == Entry { create_time: before.entry().create_time, ..raw.entry() }
    }

    /// Whether the entry, if it is in the store, is one that this guard holds the lock of.
    pub open spec fn fits(self, store: StoreState<V>) -> bool {
        store.has(self.uuid()) ==> self.held().is_of(store.entries[self.uuid()].lock)
    }

    /// Whether the entry is in the store and this guard holds its lock.
    pub fn holds(&self, store: &LiveStore<V>) -> (holds: bool)
        requires
            store.wf(),
        ensures
            holds == (store@.has(self.uuid()) && self.fits(store@)),
    {
        store.is_held_by(&self.uuid, &self.held)
    }

    /// Subscribes to the entry.
    pub fn watch(&self, store: &LiveStore<V>) -> (watch: Option<Watch<V>>)
        requires
            store.wf(),
        ensures
            watch is Some <==> store@.has(self.uuid()),
            watch matches Some(watch) ==> watch.origin() == store@.entries[self.uuid()].channel,
    {
        store.watch(&self.uuid)
    }

    /// Sends a message to the subscribers of the entry.
    pub fn broadcast(&self, store: &mut LiveStore<V>, msg: V::Message)
        requires
            old(store).wf(),
        ensures
            final(store).wf(),
            final(store)@.is_broadcast(old(store)@, self.uuid(), msg),
            is_step(old(store)@, final(store)@),
    {
        let _ = store.broadcast(&self.uuid, msg);
    }

    /// Gives the entry a new value at the time `now` and tells its subscribers.
    pub fn set_at(
        &mut self,
        store: &mut LiveStore<V>,
        val: V,
        msg: Option<V::Message>,
        now: Instant,
    )
        requires
            old(store).wf(),
            old(self).fits(old(store)@),
        ensures
            final(store).wf(),
            final(store)@.is_set(old(store)@, old(self).uuid(), val, msg, now),
            !old(store)@.has(old(self).uuid()) ==> *final(self) == *old(self),
            old(store)@.has(old(self).uuid()) ==> final(self).follows(
                *old(self),
                final(store)@.entries[old(self).uuid()],
            ),
    {
        let val = Arc::new(val);
        if store.overwrite(&self.uuid, val.clone(), msg, None, now).is_some() {
            self.value = val;
            self.last_change = now;
        }
    }

    /// Gives the entry a new value and tells its subscribers.
    pub fn set(&mut self, store: &mut LiveStore<V>, val: V)
        requires
            old(store).wf(),
            old(self).fits(old(store)@),
        ensures
            final(store).wf(),
            !old(store)@.has(old(self).uuid()) ==> {
                &&& final(store)@ == old(store)@
                &&& *final(self) == *old(self)
            },
            old(store)@.has(old(self).uuid()) ==> {
                let raw = final(store)@.entries[old(self).uuid()];
                &&& final(store)@.is_changed_now(old(store)@, old(self).uuid(), val, None, None)
                &&& final(self).follows(*old(self), raw)
            },
            is_step(old(store)@, final(store)@),
    {
        if store.fetch(&self.uuid).is_some() {
            let now = store.now();
            self.set_at(store, val, None, now);
        }
        assert((Operation::SetHeld {
            key: old(self).uuid(),
            val,
            msg: None,
            guard: old(self).held(),
        }).leads(old(store)@, store@));
    }

    /// Gives the entry a new value and tells its subscribers, with a message.
    pub fn set_with_msg(&mut self, store: &mut LiveStore<V>, val: V, msg: V::Message)
        requires
            old(store).wf(),
            old(self).fits(old(store)@),
        ensures
            final(store).wf(),
            !old(store)@.has(old(self).uuid()) ==> {
                &&& final(store)@ == old(store)@
                &&& *final(self) == *old(self)
            },
            old(store)@.has(old(self).uuid()) ==> {
                let raw = final(store)@.entries[old(self).uuid()];
                &&& final(store)@.is_changed_now(old(store)@, old(self).uuid(), val, Some(msg), None)
                &&& final(self).follows(*old(self), raw)
            },
            is_step(old(store)@, final(store)@),
    {
        if store.fetch(&self.uuid).is_some() {
            let now = store.now();
            self.set_at(store, val, Some(msg), now);
        }
        assert((Operation::SetHeld {
            key: old(self).uuid(),
            val,
            msg: Some(msg),
            guard: old(self).held(),
        }).leads(old(store)@, store@));
    }

    /// Carries out a mutation of the entry that came to `outcome`. If that is an error,
    /// nothing is changed and nobody is told.
    pub fn mutate_with(
        &mut self,
        store: &mut LiveStore<V>,
        mutn: V::Mutation,
        outcome: Result<V, V::MutError>,
        now: Instant,
    ) -> (result: Result<Entry<V>, V::MutError>)
        requires
            old(store).wf(),
            outcome is Ok ==> old(store)@.has(old(self).uuid()),
            old(self).fits(old(store)@),
        ensures
            final(store).wf(),
            final(self).uuid() == old(self).uuid(),
            final(self).held() == old(self).held(),
            final(store)@.is_mutated(old(store)@, old(self).uuid(), mutn, outcome, true, now),
            match outcome {
                Ok(_) => {
                    let raw = final(store)@.entries[old(self).uuid()];
                    &&& final(self).entry() == raw.entry()
                    &&& result == Ok::<Entry<V>, V::MutError>(raw.entry())
                },
                Err(error) => {
                    &&& *final(self) == *old(self)
                    &&& result == Err::<Entry<V>, V::MutError>(error)
                },
            },
    {
        match store.mutate_with(&self.uuid, &self.held, mutn, outcome, now) {
            Ok(entry) => {
                self.value = entry.value.clone();
                self.create_time = entry.create_time;
                self.last_change = entry.last_change;
                Ok(entry)
            },
            Err(error) => Err(error),
        }
    }

    /// Mutates the entry and returns what it is afterwards. If the mutation fails, the error
    /// is returned and nobody is told.
    pub fn mutate(&mut self, store: &mut LiveStore<V>, mutn: V::Mutation) -> (result: Result<
        Entry<V>,
        V::MutError,
    >)
        requires
            old(store).wf(),
            old(store)@.has(old(self).uuid()) || forall|val: V|
                !#[trigger] call_ensures(
                    V::mutate,
                    (&old(self).entry(), &mutn),
                    Ok::<V, V::MutError>(val),
                ),
            old(self).fits(old(store)@),
        ensures
            final(store).wf(),
            final(self).uuid() == old(self).uuid(),
            final(self).held() == old(self).held(),
            match result {
                Ok(after) => {
                    let raw = final(store)@.entries[old(self).uuid()];
                    &&& final(store)@.is_changed_now(
                        old(store)@,
                        old(self).uuid(),
                        *after.value,
                        None,
                        Some(mutn),
                    )
                    &&& after == raw.entry()
                    &&& final(self).entry() == raw.entry()
                    &&& call_ensures(
                        V::mutate,
                        (&old(self).entry(), &mutn),
                        Ok::<V, V::MutError>(*after.value),
                    )
                },
                Err(error) => {
                    &&& final(store)@ == old(store)@
                    &&& *final(self) == *old(self)
                    &&& call_ensures(
                        V::mutate,
                        (&old(self).entry(), &mutn),
                        Err::<V, V::MutError>(error),
                    )
                },
            },
            is_step(old(store)@, final(store)@),
    {
        let entry = self.as_entry();
        let outcome = V::mutate(&entry, &mutn);
        let ghost op = Operation::MutateHeld {
            key: self.uuid(),
            mutn,
            seen: entry,
            outcome,
            guard: self.held(),
        };
        match outcome {
            Ok(val) => {
                let now = store.now();
                let result = self.mutate_with(store, mutn, Ok(val), now);
                assert(op.leads(old(store)@, store@));
                result
            },
            Err(error) => {
                assert(op.leads(old(store)@, store@));
                Err(error)
            },
        }
    }

    /// Removes the entry from the store and tells its subscribers.
    pub fn delete(self, store: &mut LiveStore<V>)
        requires
            old(store).wf(),
            self.fits(old(store)@),
        ensures
            final(store).wf(),
            final(store)@.is_deleted(old(store)@, self.uuid(), None, true),
            final(store).attempts() == old(store).attempts(),
            is_step(old(store)@, final(store)@),
    {
        store.take_out(&self.uuid, None);
        assert((Operation::DeleteHeld {
            key: self.uuid(),
            msg: None,
            guard: self.held(),
        }).leads(old(store)@, store@));
    }

    /// Removes the entry from the store and tells its subscribers, with a message.
    pub fn delete_with_msg(self, store: &mut LiveStore<V>, msg: V::Message)
        requires
            old(store).wf(),
            self.fits(old(store)@),
        ensures
            final(store).wf(),
            final(store)@.is_deleted(old(store)@, self.uuid(), Some(msg), true),
            is_step(old(store)@, final(store)@),
    {
        store.take_out(&self.uuid, Some(msg));
        assert((Operation::DeleteHeld {
            key: self.uuid(),
            msg: Some(msg),
            guard: self.held(),
        }).leads(old(store)@, store@));
    }
}

impl<V: LiveValue> Deref for EntryGuard<V> {
    type Target = V;

    fn deref(&self) -> (value: &V)
        ensures
            *value == *self.entry().value,
    {
        &self.value
    }
}

} // verus!
