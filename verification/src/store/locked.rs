//! Operations that need the lock of an entry.

use std::sync::Arc;

use vstd::prelude::*;

use crate::channel::Watch;
use crate::entries::Entries;
use crate::guard::EntryGuard;
use crate::key::Uuid;
use crate::live::{Entry, LiveValue};
use crate::lock::{Attempt, EntryLock, LockGuard};
use crate::operation::{is_step, Operation};
use crate::options::valid_channel_cap;
use crate::raw::RawEntry;
use crate::state::StoreState;
use crate::store::trials::Trials;
use crate::store::LiveStore;
use crate::time::Instant;

verus! {

impl<V: LiveValue> LiveStore<V> {
    /// Gets the lock of the entry at the key for a task that may come with a guard. If that
    /// does not serve, it is up to the tasks that use the store whether the lock is to be had.
    fn acquire_raw(
        entries: &Entries<V>,
        key: &Uuid,
        held: Option<LockGuard>,
        trials: &mut Trials,
    ) -> (claimed: Option<LockGuard>)
        requires
            entries.wf(),
        ensures
            entries@.contains_key(*key) ==> {
                &&& entries@[*key].lock.settles(held, claimed)
                &&& final(trials).is_after_claim(
                    *old(trials),
                    entries@[*key].lock,
                    held,
                    claimed is Some,
                )
            },
            !entries@.contains_key(*key) ==> {
                &&& claimed is None
                &&& *final(trials) == *old(trials)
            },
    {
        match entries.get(key) {
            Some(raw) => {
                let claimed = raw.lock.claim(held, trials);
                assert(trials.since(*old(trials)).len() == trials.made().len()
                    - old(trials).made().len());
                claimed
            },
            None => None,
        }
    }

    /// Whether this is the store `before` after a task that came with `held` has got the lock of the
    /// entry at the key, or has not: it has tried the lock once, unless it came with a guard of it,
    /// and no other lock.
    pub open spec fn tries_lock_once(
        self,
        before: Self,
        key: Uuid,
        held: Option<LockGuard>,
        got: bool,
    ) -> bool {
        if before@.has(key) {
            self.attempts().is_after_claim(before.attempts(), before@.entries[key].lock, held, got)
        } else {
            self.attempts() == before.attempts()
        }
    }

    /// The answer to a task that did not get the lock of the entry at the key, if there is one.
    fn refusal<T, B>(&self, key: &Uuid, back: B) -> (attempt: Attempt<T, B>)
        requires
            self.wf(),
        ensures
            attempt == if self@.has(*key) {
                Attempt::<T, B>::Busy(self@.entries[*key].lock, back)
            } else {
                Attempt::<T, B>::Missing
            },
    {
        match self.entries.get(key) {
            Some(raw) => Attempt::Busy(raw.lock.clone(), back),
            None => Attempt::Missing,
        }
    }

    /// Whether there is an entry at the key and `held` is a guard of its lock.
    pub(crate) fn is_held_by(&self, key: &Uuid, held: &LockGuard) -> (is_held: bool)
        requires
            self.wf(),
        ensures
            is_held == self@.serves(*key, Some(*held)),
    {
        match self.entries.get(key) {
            Some(raw) => held.guards(&raw.lock),
            None => false,
        }
    }

    /// Reads the entry at the key under its lock, if `claimed` is a guard of it.
    pub fn acquire_with(&self, key: &Uuid, claimed: Option<LockGuard>) -> (attempt: Attempt<
        EntryGuard<V>,
        (),
    >)
        requires
            self.wf(),
            self@.has(*key) && claimed is Some ==> self@.serves(*key, claimed),
        ensures
            !self@.has(*key) ==> attempt is Missing,
            self@.has(*key) && claimed is None ==> attempt == Attempt::<EntryGuard<V>, ()>::Busy(
                self@.entries[*key].lock,
                (),
            ),
            self@.has(*key) && claimed is Some ==> {
                &&& attempt matches Attempt::Done(guard)
                &&& guard.uuid() == *key
                &&& guard.entry() == self@.entries[*key].entry()
                &&& guard.held() == claimed->0
            },
    {
        match self.entries.get(key) {
            Some(raw) => match claimed {
                Some(held) => Attempt::Done(EntryGuard::new(*key, raw, held)),
                None => Attempt::Busy(raw.lock.clone(), ()),
            },
            None => Attempt::Missing,
        }
    }

    /// Gets the lock of the entry at the key and reads the entry.
    pub fn acquire(&self, key: &Uuid, held: Option<LockGuard>) -> (attempt: Attempt<
        EntryGuard<V>,
        (),
    >)
        requires
            self.wf(),
        ensures
            match attempt {
                Attempt::Missing => !self@.has(*key),
                Attempt::Busy(lock, _) => {
                    &&& self@.has(*key)
                    &&& self@.refuses(*key, held)
                    &&& lock == self@.entries[*key].lock
                },
                Attempt::Done(guard) => {
                    &&& self@.has(*key)
                    &&& self@.entries[*key].lock.settles(held, Some(guard.held()))
                    &&& guard.held().is_of(self@.entries[*key].lock)
                    &&& guard.uuid() == *key
                    &&& guard.entry() == self@.entries[*key].entry()
                },
            },
            self@.serves(*key, held) ==> attempt is Done,
    {
        let mut trials = Trials::new();
        let claimed = Self::acquire_raw(&self.entries, key, held, &mut trials);
        self.acquire_with(key, claimed)
    }

    /// Makes an entry at the key, with the given times, unless there is one already, and
    /// holds its lock. That of an entry that was there already is held if `claimed` is a
    /// guard of it.
    pub fn create_and_acquire_with(
        &mut self,
        key: &Uuid,
        val: V,
        claimed: Option<LockGuard>,
        last_change: Instant,
        create_time: Instant,
    ) -> (attempt: Attempt<EntryGuard<V>, V>)
        requires
            old(self).wf(),
            old(self)@.has(*key) || valid_channel_cap(old(self)@.options.channel_cap),
            old(self)@.has(*key) && claimed is Some ==> old(self)@.serves(*key, claimed),
        ensures
            final(self).wf(),
            final(self)@.is_created(old(self)@, *key, val, last_change, create_time),
            final(self).attempts() == old(self).attempts(),
            old(self)@.has(*key) && claimed is None ==> attempt == Attempt::<
                EntryGuard<V>,
                V,
            >::Busy(old(self)@.entries[*key].lock, val),
            old(self)@.has(*key) && claimed is Some ==> {
                &&& attempt matches Attempt::Done(guard)
                &&& guard.uuid() == *key
                &&& guard.entry() == old(self)@.entries[*key].entry()
                &&& guard.held() == claimed->0
            },
            !old(self)@.has(*key) ==> {
                &&& attempt matches Attempt::Done(guard)
                &&& guard.uuid() == *key
                &&& guard.entry() == final(self)@.entries[*key].entry()
                &&& guard.held().is_of(final(self)@.entries[*key].lock)
            },
    {
        match self.entries.get(key) {
            Some(raw) => match claimed {
                Some(held) => Attempt::Done(EntryGuard::new(*key, raw, held)),
                None => Attempt::Busy(raw.lock.clone(), val),
            },
            None => {
                let (lock, held) = EntryLock::new_held(&self.entries);
                let raw = RawEntry::new(
                    &self.options,
                    Arc::new(val),
                    lock,
                    last_change,
                    create_time,
                );
                let guard = EntryGuard::new(*key, &raw, held);
                self.put(key, raw);
                Attempt::Done(guard)
            },
        }
    }

    /// Makes an entry at the key unless there is one already, and gets its lock.
    pub fn create_and_acquire(&mut self, key: &Uuid, val: V, held: Option<LockGuard>) -> (attempt:
        Attempt<EntryGuard<V>, V>)
        requires
            old(self).wf(),
            old(self)@.has(*key) || valid_channel_cap(old(self)@.options.channel_cap),
        ensures
            final(self).wf(),
            old(self)@.has(*key) ==> final(self)@ == old(self)@,
            !old(self)@.has(*key) ==> final(self)@.is_put_now(old(self)@, *key, val),
            match attempt {
                Attempt::Missing => false,
                Attempt::Busy(lock, back) => {
                    &&& old(self)@.has(*key)
                    &&& old(self)@.refuses(*key, held)
                    &&& lock == old(self)@.entries[*key].lock
                    &&& back == val
                },
                Attempt::Done(guard) => {
                    &&& old(self)@.has(*key) ==> old(self)@.entries[*key].lock.settles(
                        held,
                        Some(guard.held()),
                    )
                    &&& guard.held().is_of(final(self)@.entries[*key].lock)
                    &&& guard.uuid() == *key
                    &&& guard.entry() == final(self)@.entries[*key].entry()
                },
            },
            old(self)@.serves(*key, held) ==> attempt is Done,
            final(self).tries_lock_once(*old(self), *key, held, attempt is Done),
            is_step(old(self)@, final(self)@),
    {
        let claimed = Self::acquire_raw(&self.entries, key, held, &mut self.trials);
        match self.entries.get(key) {
            Some(raw) => {
                assert((Operation::Create { key: *key, val }).leads(old(self)@, self@));
                match claimed {
                    Some(held) => Attempt::Done(EntryGuard::new(*key, raw, held)),
                    None => Attempt::Busy(raw.lock.clone(), val),
                }
            },
            None => {
                let (last_change, create_time) = self.clock.now_twice();
                let attempt = self.create_and_acquire_with(
                    key,
                    val,
                    None,
                    last_change,
                    create_time,
                );
                assert((Operation::Create { key: *key, val }).leads(old(self)@, self@));
                attempt
            },
        }
    }

    /// Gives the entry at the key a new value and returns what it was before.
    pub(crate) fn overwrite(
        &mut self,
        key: &Uuid,
        val: Arc<V>,
        msg: Option<V::Message>,
        mutn: Option<V::Mutation>,
        now: Instant,
    ) -> (before: Option<Entry<V>>)
        requires
            old(self).wf(),
        ensures
            final(self).wf(),
            final(self).attempts() == old(self).attempts(),
            before == old(self)@.fetched(*key),
            !old(self)@.has(*key) ==> final(self)@ == old(self)@,
            old(self)@.has(*key) ==> final(self)@.is_changed_at(
                old(self)@,
                *key,
                *val,
                msg,
                mutn,
                now,
            ),
    {
        match self.entries.get_mut(key) {
            Some(raw) => {
                let before = Entry::from_raw(raw);
                raw.change(val, msg, mutn, now);
                Some(before)
            },
            None => None,
        }
    }

    /// Overwrites the value at the key, if `claimed` is a guard of the lock of the entry there,
    /// and returns what the entry was before. Does not make an entry.
    pub fn assign_with(
        &mut self,
        key: &Uuid,
        val: V,
        claimed: Option<LockGuard>,
        now: Instant,
    ) -> (attempt: Attempt<Entry<V>, V>)
        requires
            old(self).wf(),
            old(self)@.has(*key) && claimed is Some ==> old(self)@.serves(*key, claimed),
        ensures
            final(self).wf(),
            final(self)@.is_assigned(old(self)@, *key, val, claimed is Some, now),
            final(self).attempts() == old(self).attempts(),
            !old(self)@.has(*key) ==> attempt is Missing,
            old(self)@.has(*key) && claimed is None ==> attempt == Attempt::<Entry<V>, V>::Busy(
                old(self)@.entries[*key].lock,
                val,
            ),
            old(self)@.has(*key) && claimed is Some ==> attempt == Attempt::<Entry<V>, V>::Done(
                old(self)@.entries[*key].entry(),
            ),
    {
        if claimed.is_none() {
            self.refusal(key, val)
        } else {
            match self.overwrite(key, Arc::new(val), None, None, now) {
                Some(before) => Attempt::Done(before),
                None => Attempt::Missing,
            }
        }
    }

    /// Overwrites the value at the key under its lock and returns what the entry was before.
    /// Does not make an entry.
    pub fn assign(&mut self, key: &Uuid, val: V, held: Option<LockGuard>) -> (attempt: Attempt<
        Entry<V>,
        V,
    >)
        requires
            old(self).wf(),
        ensures
            final(self).wf(),
            match attempt {
                Attempt::Missing => !old(self)@.has(*key) && final(self)@ == old(self)@,
                Attempt::Busy(lock, back) => {
                    &&& old(self)@.has(*key)
                    &&& old(self)@.refuses(*key, held)
                    &&& lock == old(self)@.entries[*key].lock
                    &&& back == val
                    &&& final(self)@ == old(self)@
                },
                Attempt::Done(before) => {
                    &&& old(self)@.has(*key)
                    &&& old(self)@.grants(*key, held)
                    &&& before == old(self)@.entries[*key].entry()
                    &&& final(self)@.is_changed_now(old(self)@, *key, val, None, None)
                },
            },
            old(self)@.serves(*key, held) ==> attempt is Done,
            final(self).tries_lock_once(*old(self), *key, held, attempt is Done),
            is_step(old(self)@, final(self)@),
    {
        let claimed = Self::acquire_raw(&self.entries, key, held, &mut self.trials);
        let ghost op = Operation::Assign { key: *key, val, held, claimed };
        if claimed.is_none() {
            assert(op.leads(old(self)@, self@));
            return self.refusal(key, val);
        }
        let now = self.clock.now();
        let attempt = self.assign_with(key, val, claimed, now);
        assert(op.leads(old(self)@, self@));
        attempt
    }

    /// Overwrites the value at the key under its lock, and returns what the entry was before
    /// with a subscription to it. Does not make an entry.
    pub fn assign_and_watch(&mut self, key: &Uuid, val: V, held: Option<LockGuard>) -> (attempt:
        Attempt<(Entry<V>, Watch<V>), V>)
        requires
            old(self).wf(),
        ensures
            final(self).wf(),
            match attempt {
                Attempt::Missing => !old(self)@.has(*key) && final(self)@ == old(self)@,
                Attempt::Busy(lock, back) => {
                    &&& old(self)@.has(*key)
                    &&& old(self)@.refuses(*key, held)
                    &&& lock == old(self)@.entries[*key].lock
                    &&& back == val
                    &&& final(self)@ == old(self)@
                },
                Attempt::Done((before, watch)) => {
                    &&& old(self)@.has(*key)
                    &&& old(self)@.grants(*key, held)
                    &&& before == old(self)@.entries[*key].entry()
                    &&& final(self)@.is_changed_now(old(self)@, *key, val, None, None)
                    &&& watch.origin() == final(self)@.entries[*key].channel
                },
            },
            old(self)@.serves(*key, held) ==> attempt is Done,
            final(self).tries_lock_once(*old(self), *key, held, attempt is Done),
            is_step(old(self)@, final(self)@),
    {
        match self.assign(key, val, held) {
            Attempt::Done(before) => match self.watch(key) {
                Some(watch) => Attempt::Done((before, watch)),
                None => Attempt::Missing,
            },
            Attempt::Busy(lock, back) => Attempt::Busy(lock, back),
            Attempt::Missing => Attempt::Missing,
        }
    }

    /// Overwrites the value at the key, if `claimed` is a guard of the lock of the entry there,
    /// and returns what the entry was before with a guard of what it is now. Does not make an
    /// entry.
    pub fn assign_and_acquire_with(
        &mut self,
        key: &Uuid,
        val: V,
        claimed: Option<LockGuard>,
        now: Instant,
    ) -> (attempt: Attempt<(Entry<V>, EntryGuard<V>), V>)
        requires
            old(self).wf(),
            old(self)@.has(*key) && claimed is Some ==> old(self)@.serves(*key, claimed),
        ensures
            final(self).wf(),
            final(self)@.is_assigned(old(self)@, *key, val, claimed is Some, now),
            final(self).attempts() == old(self).attempts(),
            !old(self)@.has(*key) ==> attempt is Missing,
            old(self)@.has(*key) && claimed is None ==> attempt == Attempt::<
                (Entry<V>, EntryGuard<V>),
                V,
            >::Busy(old(self)@.entries[*key].lock, val),
            old(self)@.has(*key) && claimed is Some ==> {
                &&& attempt matches Attempt::Done((before, guard))
                &&& before == old(self)@.entries[*key].entry()
                &&& guard.uuid() == *key
                &&& guard.entry() == final(self)@.entries[*key].entry()
                &&& guard.held() == claimed->0
            },
    {
        match claimed {
            None => self.refusal(key, val),
            Some(held) => match self.entries.get_mut(key) {
                Some(raw) => {
                    let before = Entry::from_raw(raw);
                    raw.change(Arc::new(val), None, None, now);
                    let guard = EntryGuard::new(*key, raw, held);
                    Attempt::Done((before, guard))
                },
                None => Attempt::Missing,
            },
        }
    }

    /// Overwrites the value at the key under its lock, and returns what the entry was before
    /// with a guard of what it is now. Does not make an entry.
    pub fn assign_and_acquire(&mut self, key: &Uuid, val: V, held: Option<LockGuard>) -> (attempt:
        Attempt<(Entry<V>, EntryGuard<V>), V>)
        requires
            old(self).wf(),
        ensures
            final(self).wf(),
            match attempt {
                Attempt::Missing => !old(self)@.has(*key) && final(self)@ == old(self)@,
                Attempt::Busy(lock, back) => {
                    &&& old(self)@.has(*key)
                    &&& old(self)@.refuses(*key, held)
                    &&& lock == old(self)@.entries[*key].lock
                    &&& back == val
                    &&& final(self)@ == old(self)@
                },
                Attempt::Done((before, guard)) => {
                    &&& old(self)@.has(*key)
                    &&& old(self)@.entries[*key].lock.settles(held, Some(guard.held()))
                    &&& before == old(self)@.entries[*key].entry()
                    &&& final(self)@.is_changed_now(old(self)@, *key, val, None, None)
                    &&& guard.held().is_of(final(self)@.entries[*key].lock)
                    &&& guard.uuid() == *key
                    &&& guard.entry() == final(self)@.entries[*key].entry()
                },
            },
            old(self)@.serves(*key, held) ==> attempt is Done,
            final(self).tries_lock_once(*old(self), *key, held, attempt is Done),
            is_step(old(self)@, final(self)@),
    {
        let claimed = Self::acquire_raw(&self.entries, key, held, &mut self.trials);
        let ghost op = Operation::Assign { key: *key, val, held, claimed };
        if claimed.is_none() {
            assert(op.leads(old(self)@, self@));
            return self.refusal(key, val);
        }
        let now = self.clock.now();
        let attempt = self.assign_and_acquire_with(key, val, claimed, now);
        assert(op.leads(old(self)@, self@));
        attempt
    }

    /// Puts a value at the key. Where there is no entry, one is made with the given times.
    /// Where there is one, its value is overwritten at the time `now` if `claimed` is a guard
    /// of its lock, and what the entry was before is returned.
    pub fn insert_with(
        &mut self,
        key: &Uuid,
        val: V,
        claimed: Option<LockGuard>,
        now: Instant,
        create_time: Instant,
    ) -> (attempt: Attempt<Option<Entry<V>>, V>)
        requires
            old(self).wf(),
            old(self)@.has(*key) || valid_channel_cap(old(self)@.options.channel_cap),
            old(self)@.has(*key) && claimed is Some ==> old(self)@.serves(*key, claimed),
        ensures
            final(self).wf(),
            final(self)@.is_inserted(old(self)@, *key, val, claimed is Some, now, create_time),
            final(self).attempts() == old(self).attempts(),
            !old(self)@.has(*key) ==> attempt == Attempt::<Option<Entry<V>>, V>::Done(None),
            old(self)@.has(*key) && claimed is None ==> attempt == Attempt::<
                Option<Entry<V>>,
                V,
            >::Busy(old(self)@.entries[*key].lock, val),
            old(self)@.has(*key) && claimed is Some ==> attempt == Attempt::<
                Option<Entry<V>>,
                V,
            >::Done(Some(old(self)@.entries[*key].entry())),
    {
        match self.entries.get(key) {
            Some(raw) => if claimed.is_some() {
                Attempt::Done(self.overwrite(key, Arc::new(val), None, None, now))
            } else {
                Attempt::Busy(raw.lock.clone(), val)
            },
            None => {
                self.init_at(key, val, now, create_time);
                Attempt::Done(None)
            },
        }
    }

    /// Puts a value at the key, overwriting under its lock the value of an entry that is
    /// there already. What that entry was before is returned.
    pub fn insert(&mut self, key: &Uuid, val: V, held: Option<LockGuard>) -> (attempt: Attempt<
        Option<Entry<V>>,
        V,
    >)
        requires
            old(self).wf(),
            old(self)@.has(*key) || valid_channel_cap(old(self)@.options.channel_cap),
        ensures
            final(self).wf(),
            match attempt {
                Attempt::Missing => false,
                Attempt::Busy(lock, back) => {
                    &&& old(self)@.has(*key)
                    &&& old(self)@.refuses(*key, held)
                    &&& lock == old(self)@.entries[*key].lock
                    &&& back == val
                    &&& final(self)@ == old(self)@
                },
                Attempt::Done(before) => {
                    &&& before == old(self)@.fetched(*key)
                    &&& if old(self)@.has(*key) {
                        &&& old(self)@.grants(*key, held)
                        &&& final(self)@.is_changed_now(old(self)@, *key, val, None, None)
                    } else {
                        final(self)@.is_put_now(old(self)@, *key, val)
                    }
                },
            },
            old(self)@.serves(*key, held) ==> attempt is Done,
            final(self).tries_lock_once(*old(self), *key, held, attempt is Done),
            is_step(old(self)@, final(self)@),
    {
        let claimed = Self::acquire_raw(&self.entries, key, held, &mut self.trials);
        let ghost op = Operation::Insert { key: *key, val, held, claimed };
        match self.entries.get(key) {
            Some(raw) => if claimed.is_some() {
                let now = self.clock.now();
                let attempt = self.insert_with(key, val, claimed, now, now);
                assert(op.leads(old(self)@, self@));
                attempt
            } else {
                assert(op.leads(old(self)@, self@));
                Attempt::Busy(raw.lock.clone(), val)
            },
            None => {
                let (now, create_time) = self.clock.now_twice();
                let attempt = self.insert_with(key, val, None, now, create_time);
                assert(op.leads(old(self)@, self@));
                attempt
            },
        }
    }

    /// Puts a value at the key, overwriting under its lock the value of an entry that is
    /// there already. What that entry was before is returned.
    pub fn insert_and_watch(&mut self, key: &Uuid, val: V, held: Option<LockGuard>) -> (attempt:
        Attempt<Option<Entry<V>>, V>)
        requires
            old(self).wf(),
            old(self)@.has(*key) || valid_channel_cap(old(self)@.options.channel_cap),
        ensures
            final(self).wf(),
            match attempt {
                Attempt::Missing => false,
                Attempt::Busy(lock, back) => {
                    &&& old(self)@.has(*key)
                    &&& old(self)@.refuses(*key, held)
                    &&& lock == old(self)@.entries[*key].lock
                    &&& back == val
                    &&& final(self)@ == old(self)@
                },
                Attempt::Done(before) => {
                    &&& before == old(self)@.fetched(*key)
                    &&& if old(self)@.has(*key) {
                        &&& old(self)@.grants(*key, held)
                        &&& final(self)@.is_changed_now(old(self)@, *key, val, None, None)
                    } else {
                        final(self)@.is_put_now(old(self)@, *key, val)
                    }
                },
            },
            old(self)@.serves(*key, held) ==> attempt is Done,
            final(self).tries_lock_once(*old(self), *key, held, attempt is Done),
            is_step(old(self)@, final(self)@),
    {
        self.insert(key, val, held)
    }

    /// Carries out a mutation of the entry at the key that came to `outcome`, under `guard`. If
    /// the outcome is an error, nothing is changed and nobody is told.
    pub fn mutate_with(
        &mut self,
        key: &Uuid,
        guard: &LockGuard,
        mutn: V::Mutation,
        outcome: Result<V, V::MutError>,
        now: Instant,
    ) -> (result: Result<Entry<V>, V::MutError>)
        requires
            old(self).wf(),
            outcome is Ok ==> old(self)@.serves(*key, Some(*guard)),
        ensures
            final(self).wf(),
            final(self)@.is_mutated(old(self)@, *key, mutn, outcome, true, now),
            final(self).attempts() == old(self).attempts(),
            match outcome {
                Ok(_) => result == Ok::<Entry<V>, V::MutError>(
                    final(self)@.entries[*key].entry(),
                ),
                Err(error) => result == Err::<Entry<V>, V::MutError>(error),
            },
    {
        match outcome {
            Ok(val) => {
                let val = Arc::new(val);
                let create_time = match self.overwrite(key, val.clone(), None, Some(mutn), now) {
                    Some(before) => before.create_time,
                    None => now,
                };
                Ok(Entry { value: val, last_change: now, create_time })
            },
            Err(error) => Err(error),
        }
    }

    /// Mutates the entry at the key under its lock and returns what it is afterwards. If the
    /// mutation fails, the error is returned and nobody is told.
    pub fn mutate(&mut self, key: &Uuid, mutn: V::Mutation, held: Option<LockGuard>) -> (attempt:
        Attempt<Result<Entry<V>, V::MutError>, V::Mutation>)
        requires
            old(self).wf(),
        ensures
            final(self).wf(),
            match attempt {
                Attempt::Missing => !old(self)@.has(*key) && final(self)@ == old(self)@,
                Attempt::Busy(lock, back) => {
                    &&& old(self)@.has(*key)
                    &&& old(self)@.refuses(*key, held)
                    &&& lock == old(self)@.entries[*key].lock
                    &&& back == mutn
                    &&& final(self)@ == old(self)@
                },
                Attempt::Done(result) => {
                    &&& old(self)@.has(*key)
                    &&& old(self)@.grants(*key, held)
                    &&& call_ensures(
                        V::mutate,
                        (&old(self)@.entries[*key].entry(), &mutn),
                        match result {
                            Ok(after) => Ok(*after.value),
                            Err(error) => Err(error),
                        },
                    )
                    &&& match result {
                        Ok(after) => {
                            &&& after == final(self)@.entries[*key].entry()
                            &&& final(self)@.is_changed_now(
                                old(self)@,
                                *key,
                                *after.value,
                                None,
                                Some(mutn),
                            )
                        },
                        Err(_) => final(self)@ == old(self)@,
                    }
                },
            },
            old(self)@.serves(*key, held) ==> attempt is Done,
            final(self).tries_lock_once(*old(self), *key, held, attempt is Done),
            is_step(old(self)@, final(self)@),
    {
        let claimed = Self::acquire_raw(&self.entries, key, held, &mut self.trials);
        match self.entries.get(key) {
            Some(raw) => match claimed {
                Some(guard) => {
                    let entry = Entry::from_raw(raw);
                    let outcome = V::mutate(&entry, &mutn);
                    let ghost op = Operation::Mutate { key: *key, mutn, outcome, held, claimed };
                    match outcome {
                        Ok(val) => {
                            let now = self.clock.now();
                            let result = self.mutate_with(key, &guard, mutn, Ok(val), now);
                            assert(op.leads(old(self)@, self@));
                            Attempt::Done(result)
                        },
                        Err(error) => {
                            assert(op.leads(old(self)@, self@));
                            Attempt::Done(Err(error))
                        },
                    }
                },
                None => {
                    let ghost outcome: Result<V, V::MutError> = arbitrary();
                    assert((Operation::Mutate { key: *key, mutn, outcome, held, claimed }).leads(
                        old(self)@,
                        self@,
                    ));
                    Attempt::Busy(raw.lock.clone(), mutn)
                },
            },
            None => {
                let ghost outcome: Result<V, V::MutError> = arbitrary();
                assert((Operation::Mutate { key: *key, mutn, outcome, held, claimed }).leads(
                    old(self)@,
                    self@,
                ));
                Attempt::Missing
            },
        }
    }

    /// Removes the entry at the key and tells its subscribers. Returns what the entry was.
    pub(crate) fn take_out(&mut self, key: &Uuid, msg: Option<V::Message>) -> (removed: Option<
        Entry<V>,
    >)
        requires
            old(self).wf(),
        ensures
            final(self).wf(),
            removed == old(self)@.fetched(*key),
            final(self)@.is_deleted(old(self)@, *key, msg, true),
            final(self).attempts() == old(self).attempts(),
    {
        match self.entries.remove(key) {
            Some(raw) => {
                let mut raw = raw;
                raw.announce_removal(*key, msg);
                proof {
                    self.retired@ = self.retired@.push((*key, raw));
                }
                Some(Entry::from_raw(&raw))
            },
            None => {
                assert(self.entries@ =~= old(self).entries@);
                None
            },
        }
    }

    /// Removes the entry at the key, if `claimed` is a guard of its lock, and returns it.
    pub fn remove_with(&mut self, key: &Uuid, claimed: Option<LockGuard>) -> (attempt: Attempt<
        Entry<V>,
        (),
    >)
        requires
            old(self).wf(),
            old(self)@.has(*key) && claimed is Some ==> old(self)@.serves(*key, claimed),
        ensures
            final(self).wf(),
            final(self)@.is_deleted(old(self)@, *key, None, claimed is Some),
            final(self).attempts() == old(self).attempts(),
            !old(self)@.has(*key) ==> attempt is Missing,
            old(self)@.has(*key) && claimed is None ==> attempt == Attempt::<Entry<V>, ()>::Busy(
                old(self)@.entries[*key].lock,
                (),
            ),
            old(self)@.has(*key) && claimed is Some ==> attempt == Attempt::<Entry<V>, ()>::Done(
                old(self)@.entries[*key].entry(),
            ),
    {
        match self.acquire_with(key, claimed) {
            Attempt::Done(guard) => {
                let entry = guard.as_entry();
                guard.delete(self);
                Attempt::Done(entry)
            },
            Attempt::Busy(lock, back) => Attempt::Busy(lock, back),
            Attempt::Missing => Attempt::Missing,
        }
    }

    /// Removes the entry at the key under its lock and returns it.
    pub fn remove(&mut self, key: &Uuid, held: Option<LockGuard>) -> (attempt: Attempt<
        Entry<V>,
        (),
    >)
        requires
            old(self).wf(),
        ensures
            final(self).wf(),
            match attempt {
                Attempt::Missing => !old(self)@.has(*key) && final(self)@ == old(self)@,
                Attempt::Busy(lock, _) => {
                    &&& old(self)@.has(*key)
                    &&& old(self)@.refuses(*key, held)
                    &&& lock == old(self)@.entries[*key].lock
                    &&& final(self)@ == old(self)@
                },
                Attempt::Done(removed) => {
                    &&& old(self)@.has(*key)
                    &&& old(self)@.grants(*key, held)
                    &&& removed == old(self)@.entries[*key].entry()
                    &&& final(self)@.is_removed_from(old(self)@, *key, None)
                },
            },
            old(self)@.serves(*key, held) ==> attempt is Done,
            final(self).tries_lock_once(*old(self), *key, held, attempt is Done),
            is_step(old(self)@, final(self)@),
    {
        let claimed = Self::acquire_raw(&self.entries, key, held, &mut self.trials);
        let attempt = self.remove_with(key, claimed);
        assert((Operation::Remove { key: *key, held, claimed }).leads(old(self)@, self@));
        attempt
    }
}

} // verus!
