//! Entries as a store holds them.

use std::sync::Arc;

use vstd::prelude::*;

use crate::channel::{Channel, Watch};
use crate::key::Uuid;
use crate::live::{change_update, Entry, LiveValue, Update};
use crate::lock::EntryLock;
use crate::options::{is_queue_for, valid_channel_cap, StoreOptions};
use crate::time::Instant;

verus! {

/// An entry with its broadcast channel and its lock. The value is never changed in place:
/// a change puts another one where it was.
#[verifier::reject_recursive_types(V)]
pub struct RawEntry<V: LiveValue> {
    pub value: Arc<V>,
    /// When the value was last changed.
    pub last_change: Instant,
    /// When the entry was made.
    pub create_time: Instant,
    /// Where subscribers are told of updates.
    pub channel: Channel<V>,
    /// The lock that tasks hold while they change the value.
    pub lock: EntryLock,
}

impl<V: LiveValue> RawEntry<V> {
    /// What is handed out of the entry.
    pub open spec fn entry(self) -> Entry<V> {
        Entry {
            value: self.value,
            last_change: self.last_change,
            create_time: self.create_time,
        }
    }

    /// Whether this is an entry that was just made for `val`.
    pub open spec fn is_new(self, val: V, options: StoreOptions) -> bool {
        &&& *self.value == val
        &&& self.channel.capacity() == options.channel_cap
        &&& is_queue_for(self.channel.places(), options.channel_cap)
        &&& self.channel.sent() == Seq::<Update<V>>::empty()
    }

    /// Whether this is the entry `before` after it was given the value `val`: its lock, its
    /// channel and its time of creation are the same, and the change was sent to subscribers.
    pub open spec fn is_changed(
        self,
        before: Self,
        val: V,
        msg: Option<V::Message>,
        mutn: Option<V::Mutation>,
    ) -> bool {
        &&& *self.value == val
        &&& self.create_time == before.create_time
        &&& self.lock == before.lock
        &&& self.channel.is_after_sending(
            before.channel,
            change_update(before.entry(), self.entry(), msg, mutn),
        )
    }

    /// Whether this is the entry `before` after `update` was sent to its subscribers.
    pub open spec fn is_after_sending(self, before: Self, update: Update<V>) -> bool {
        &&& self.entry() == before.entry()
        &&& self.lock == before.lock
        &&& self.channel.is_after_sending(before.channel, update)
    }

    /// Makes an entry with the given times.
    pub(crate) fn new(
        options: &StoreOptions,
        val: Arc<V>,
        lock: EntryLock,
        last_change: Instant,
        create_time: Instant,
    ) -> (raw: Self)
        requires
            valid_channel_cap(options.channel_cap),
        ensures
            raw.is_new(*val, *options),
            raw.lock == lock,
            raw.last_change == last_change,
            raw.create_time == create_time,
    {
        RawEntry {
            value: val,
            last_change,
            create_time,
            channel: Channel::open(options.channel_cap),
            lock,
        }
    }

    /// Gives the entry a new value and tells its subscribers.
    pub(crate) fn change(
        &mut self,
        val: Arc<V>,
        msg: Option<V::Message>,
        mutn: Option<V::Mutation>,
        now: Instant,
    )
        ensures
            final(self).is_changed(*old(self), *val, msg, mutn),
            final(self).last_change == now,
    {
        let old = Entry::from_raw(self);
        self.last_change = now;
        self.value = val;
        let new = Entry::from_raw(self);
        let update = match mutn {
            Some(mutn) => Update::Mutate { mutn, new, old },
            None => Update::Overwrite { msg, new, old },
        };
        self.channel.send(update);
    }

    /// Sends a message to the subscribers of the entry.
    pub(crate) fn broadcast(&mut self, msg: V::Message)
        ensures
            final(self).is_after_sending(
                *old(self),
                Update::Message { msg, val: old(self).entry() },
            ),
    {
        let val = Entry::from_raw(self);
        self.channel.send(Update::Message { msg, val });
    }

    /// Tells the subscribers of the entry that it is removed from the key.
    pub(crate) fn announce_removal(&mut self, key: Uuid, msg: Option<V::Message>)
        ensures
            final(self).is_after_sending(
                *old(self),
                Update::Remove { msg, val: old(self).value, key },
            ),
    {
        let val = self.value.clone();
        self.channel.send(Update::Remove { msg, val, key });
    }

    /// Subscribes to the entry.
    pub(crate) fn watch(&self) -> (watch: Watch<V>)
        ensures
            watch.origin() == self.channel,
    {
        self.channel.subscribe()
    }
}

impl<V: LiveValue> Entry<V> {
    /// Reads the entry.
    pub(crate) fn from_raw(raw: &RawEntry<V>) -> (entry: Self)
        ensures
            entry == raw.entry(),
    {
        Entry {
            value: raw.value.clone(),
            last_change: raw.last_change,
            create_time: raw.create_time,
        }
    }
}

} // verus!
