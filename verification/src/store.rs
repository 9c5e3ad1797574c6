//! The store.

use std::sync::Arc;

use vstd::prelude::*;

use crate::builder::LiveStoreBuilder;
use crate::channel::Watch;
use crate::entries::Entries;
use crate::guard::EntryGuard;
use crate::key::{is_random_uuid, Uuid};
use crate::live::{Entry, LiveValue};
use crate::lock::EntryLock;
use crate::operation::{is_step, Operation};
use crate::options::{is_default_options, valid_channel_cap, valid_shard_amt, StoreOptions};
use crate::raw::RawEntry;
use crate::state::StoreState;
use crate::store::trials::Trials;
use crate::time::{Clock, Instant};

mod expire;
mod locked;
pub mod trials;

verus! {

/// Entries of one type by their keys. Each entry has a channel on which its subscribers are
/// told of changes, and a lock that is held while it is changed.
///
/// An operation that needs the lock of an entry does not wait for it. It takes a guard that
/// the caller may have got by waiting, and returns an [`Attempt`](crate::lock::Attempt).
#[verifier::reject_recursive_types(V)]
pub struct LiveStore<V: LiveValue> {
    entries: Entries<V>,
    clock: Clock,
    trials: Trials,
    options: StoreOptions,
    on_expire: bool,
    retired: Ghost<Seq<(Uuid, RawEntry<V>)>>,
}

impl<V: LiveValue> View for LiveStore<V> {
    type V = StoreState<V>;

    closed spec fn view(&self) -> StoreState<V> {
        StoreState {
            entries: self.entries@,
            shards: self.entries.shards(),
            retired: self.retired@,
            clock: self.clock,
            options: self.options,
            on_expire: self.on_expire,
        }
    }
}

impl<V: LiveValue> LiveStore<V> {
    /// Whether the parts of the store fit together.
    pub closed spec fn wf(self) -> bool {
        self.entries.wf()
    }

    /// The attempts to get locks of entries that were made in changing and searching the store.
    pub closed spec fn attempts(self) -> Trials {
        self.trials
    }

    /// Starts to set up a store.
    pub fn new() -> (builder: LiveStoreBuilder<V>)
        ensures
            is_default_options(builder.options()),
            !builder.has_on_expire(),
    {
        LiveStoreBuilder::start()
    }

    /// A store with the default settings.
    pub fn default() -> (store: Self)
        ensures
            store.wf(),
            is_default_options(store@.options),
            store@.is_fresh(store@.options, false),
    {
        LiveStore::with(StoreOptions::default(), false)
    }

    /// A store with the given settings.
    pub(crate) fn with(options: StoreOptions, on_expire: bool) -> (store: Self)
        requires
            valid_shard_amt(options.shard_amt),
        ensures
            store.wf(),
            store@.is_fresh(options, on_expire),
    {
        LiveStore {
            entries: Entries::new(options.shard_amt),
            clock: Clock::start(),
            trials: Trials::new(),
            options,
            on_expire,
            retired: Ghost(Seq::empty()),
        }
    }

    /// The settings of the store.
    pub fn options(&self) -> (options: &StoreOptions)
        ensures
            *options == self@.options,
    {
        &self.options
    }

    /// The clock that the times of the entries are read off.
    pub fn clock(&self) -> (clock: &Clock)
        ensures
            *clock == self@.clock,
    {
        &self.clock
    }

    /// Reads the clock of the store.
    pub fn now(&mut self) -> (now: Instant)
        requires
            old(self).wf(),
        ensures
            final(self).wf(),
            final(self)@ == old(self)@.at(final(self)@.clock),
            final(self)@.clock.reads(old(self)@.clock, seq![now]),
            is_step(old(self)@, final(self)@),
    {
        let now = self.clock.now();
        assert((Operation::Read { now }).leads(old(self)@, self@));
        now
    }

    /// Subscribes to the entry at the key.
    pub fn watch(&self, key: &Uuid) -> (watch: Option<Watch<V>>)
        requires
            self.wf(),
        ensures
            watch is Some <==> self@.has(*key),
            watch matches Some(watch) ==> watch.origin() == self@.entries[*key].channel,
    {
        match self.entries.get(key) {
            Some(raw) => Some(raw.watch()),
            None => None,
        }
    }

    /// Reads the entry at the key, whether its lock is held or not.
    pub fn fetch(&self, key: &Uuid) -> (entry: Option<Entry<V>>)
        requires
            self.wf(),
        ensures
            entry == self@.fetched(*key),
    {
        match self.entries.get(key) {
            Some(raw) => Some(Entry::from_raw(raw)),
            None => None,
        }
    }

    /// Reads the entry at the key and subscribes to it.
    pub fn fetch_and_watch(&self, key: &Uuid) -> (both: Option<(Entry<V>, Watch<V>)>)
        requires
            self.wf(),
        ensures
            both is Some <==> self@.has(*key),
            both matches Some((entry, watch)) ==> {
                &&& entry == self@.entries[*key].entry()
                &&& watch.origin() == self@.entries[*key].channel
            },
    {
        match self.entries.get(key) {
            Some(raw) => Some((Entry::from_raw(raw), raw.watch())),
            None => None,
        }
    }

    /// Puts an entry at a key. One that was there before leaves the store.
    fn put(&mut self, key: &Uuid, raw: RawEntry<V>)
        requires
            old(self).wf(),
        ensures
            final(self).wf(),
            final(self)@ == old(self)@.with_new(*key, raw),
            final(self).attempts() == old(self).attempts(),
    {
        let replaced = self.entries.insert(key, raw);
        proof {
            if let Some(last) = replaced {
                self.retired@ = self.retired@.push((*key, last));
            }
        }
    }

    /// Makes an entry at the given key, with the given times.
    pub fn init_at(&mut self, key: &Uuid, val: V, last_change: Instant, create_time: Instant)
        requires
            old(self).wf(),
            valid_channel_cap(old(self)@.options.channel_cap),
        ensures
            final(self).wf(),
            final(self)@.is_put(old(self)@, *key, val, last_change, create_time),
            final(self).attempts() == old(self).attempts(),
    {
        let raw = RawEntry::new(
            &self.options,
            Arc::new(val),
            EntryLock::new(&self.entries),
            last_change,
            create_time,
        );
        self.put(key, raw);
    }

    /// Makes an entry at a random key, which is returned.
    pub fn init(&mut self, val: V) -> (key: Uuid)
        requires
            old(self).wf(),
            valid_channel_cap(old(self)@.options.channel_cap),
        ensures
            final(self).wf(),
            key.is_drawn(),
            is_random_uuid(key.bits),
            final(self)@.is_put_now(old(self)@, key, val),
            is_step(old(self)@, final(self)@),
    {
        let key = Uuid::new_v4();
        let (last_change, create_time) = self.clock.now_twice();
        self.init_at(&key, val, last_change, create_time);
        assert((Operation::Init { key, val }).leads(old(self)@, self@));
        key
    }

    /// Makes an entry at a random key, which is returned with a subscription to the entry.
    pub fn init_and_watch(&mut self, val: V) -> (both: (Uuid, Watch<V>))
        requires
            old(self).wf(),
            valid_channel_cap(old(self)@.options.channel_cap),
        ensures
            final(self).wf(),
            both.0.is_drawn(),
            is_random_uuid(both.0.bits),
            final(self)@.is_put_now(old(self)@, both.0, val),
            both.1.origin() == final(self)@.entries[both.0].channel,
            is_step(old(self)@, final(self)@),
    {
        let key = Uuid::new_v4();
        let (last_change, create_time) = self.clock.now_twice();
        let raw = RawEntry::new(
            &self.options,
            Arc::new(val),
            EntryLock::new(&self.entries),
            last_change,
            create_time,
        );
        let watch = raw.watch();
        self.put(&key, raw);
        assert((Operation::Init { key, val }).leads(old(self)@, self@));
        (key, watch)
    }

    /// Makes an entry at a random key and holds its lock.
    pub fn init_and_acquire(&mut self, val: V) -> (guard: EntryGuard<V>)
        requires
            old(self).wf(),
            valid_channel_cap(old(self)@.options.channel_cap),
        ensures
            final(self).wf(),
            guard.uuid().is_drawn(),
            is_random_uuid(guard.uuid().bits),
            final(self)@.is_put_now(old(self)@, guard.uuid(), val),
            guard.entry() == final(self)@.entries[guard.uuid()].entry(),
            guard.held().is_of(final(self)@.entries[guard.uuid()].lock),
            is_step(old(self)@, final(self)@),
    {
        let key = Uuid::new_v4();
        let (lock, held) = EntryLock::new_held(&self.entries);
        let (last_change, create_time) = self.clock.now_twice();
        let raw = RawEntry::new(&self.options, Arc::new(val), lock, last_change, create_time);
        let guard = EntryGuard::new(key, &raw, held);
        self.put(&key, raw);
        assert((Operation::Init { key, val }).leads(old(self)@, self@));
        guard
    }

    /// Makes an entry at the key, with the given times, unless there is one already. Then
    /// that one is returned.
    pub fn create_at(
        &mut self,
        key: &Uuid,
        val: V,
        last_change: Instant,
        create_time: Instant,
    ) -> (existing: Option<Entry<V>>)
        requires
            old(self).wf(),
            old(self)@.has(*key) || valid_channel_cap(old(self)@.options.channel_cap),
        ensures
            final(self).wf(),
            existing == old(self)@.fetched(*key),
            final(self)@.is_created(old(self)@, *key, val, last_change, create_time),
    {
        let existing = self.fetch(key);
        if existing.is_none() {
            self.init_at(key, val, last_change, create_time);
        }
        existing
    }

    /// Makes an entry at the key unless there is one already. Then that one is returned.
    pub fn create(&mut self, key: &Uuid, val: V) -> (existing: Option<Entry<V>>)
        requires
            old(self).wf(),
            old(self)@.has(*key) || valid_channel_cap(old(self)@.options.channel_cap),
        ensures
            final(self).wf(),
            existing == old(self)@.fetched(*key),
            old(self)@.has(*key) ==> final(self)@ == old(self)@,
            !old(self)@.has(*key) ==> final(self)@.is_put_now(old(self)@, *key, val),
            is_step(old(self)@, final(self)@),
    {
        let existing = self.fetch(key);
        if existing.is_none() {
            let (last_change, create_time) = self.clock.now_twice();
            self.init_at(key, val, last_change, create_time);
        }
        assert((Operation::Create { key: *key, val }).leads(old(self)@, self@));
        existing
    }

    /// Makes an entry at the key unless there is one already, which is then returned, and
    /// subscribes to the entry in either case.
    pub fn create_and_watch(&mut self, key: &Uuid, val: V) -> (both: (Option<Entry<V>>, Watch<V>))
        requires
            old(self).wf(),
            old(self)@.has(*key) || valid_channel_cap(old(self)@.options.channel_cap),
        ensures
            final(self).wf(),
            both.0 == old(self)@.fetched(*key),
            old(self)@.has(*key) ==> final(self)@ == old(self)@,
            !old(self)@.has(*key) ==> final(self)@.is_put_now(old(self)@, *key, val),
            both.1.origin() == final(self)@.entries[*key].channel,
            is_step(old(self)@, final(self)@),
    {
        match self.entries.get(key) {
            Some(raw) => {
                assert((Operation::Create { key: *key, val }).leads(old(self)@, self@));
                (Some(Entry::from_raw(raw)), raw.watch())
            },
            None => {
                let (last_change, create_time) = self.clock.now_twice();
                let raw = RawEntry::new(
                    &self.options,
                    Arc::new(val),
                    EntryLock::new(&self.entries),
                    last_change,
                    create_time,
                );
                let watch = raw.watch();
                self.put(key, raw);
                assert((Operation::Create { key: *key, val }).leads(old(self)@, self@));
                (None, watch)
            },
        }
    }
}

} // verus!
