//! The broadcast channel of an entry and the subscriptions to it.

use tokio::sync::broadcast::{Receiver, Sender};
use vstd::prelude::*;

use crate::live::{LiveValue, Update};
use crate::options::{is_queue_for, valid_channel_cap};

verus! {

/// `tokio::sync::broadcast::Sender`, carried as an opaque value.
#[verifier::external_type_specification]
#[verifier::external_body]
#[verifier::reject_recursive_types(T)]
pub struct ExSender<T>(Sender<T>);

/// `tokio::sync::broadcast::Receiver`, carried as an opaque value.
#[verifier::external_type_specification]
#[verifier::external_body]
#[verifier::reject_recursive_types(T)]
pub struct ExReceiver<T>(Receiver<T>);

/// The channel on which the subscribers of an entry are told of updates.
#[verifier::reject_recursive_types(V)]
pub struct Channel<V: LiveValue> {
    tx: Sender<Update<V>>,
    capacity: Ghost<usize>,
    places: Ghost<nat>,
    sent: Ghost<Seq<Update<V>>>,
}

/// A subscription to an entry.
#[verifier::reject_recursive_types(V)]
pub struct Watch<V: LiveValue> {
    /// Where the updates arrive.
    pub rx: Receiver<Update<V>>,
    origin: Ghost<Channel<V>>,
}

/// What a subscriber gets when it waits for the next update.
pub enum Received<V: LiveValue> {
    /// An update.
    Update(Update<V>),
    /// The entry is gone, and all that was sent before has been received.
    Closed,
    /// The subscriber was too slow, and has lost this many updates.
    Lagged(u64),
}

/// What a subscriber does with what it got.
pub enum Next<V: LiveValue> {
    /// Hand this to whoever asked for the next update: an update, or `None` at the end.
    Ready(Option<Update<V>>),
    /// Warn of the loss of this many updates and wait again.
    Again(u64),
}

/// What is done with what was received: an update is handed on, the end of the channel is told,
/// and a loss is reported.
pub open spec fn next_of<V: LiveValue>(received: Received<V>) -> Next<V> {
    match received {
        Received::Update(update) => Next::Ready(Some(update)),
        Received::Closed => Next::Ready(None),
        Received::Lagged(lost) => Next::Again(lost),
    }
}

/// What whoever asks for updates gets, one answer after the other, when this is received.
pub open spec fn answers<V: LiveValue>(received: Seq<Received<V>>) -> Seq<Option<Update<V>>>
    decreases received.len(),
{
    if received.len() == 0 {
        Seq::empty()
    } else {
        match next_of(received.last()) {
            Next::Ready(answer) => answers(received.drop_last()).push(answer),
            Next::Again(_) => answers(received.drop_last()),
        }
    }
}

impl<V: LiveValue> Channel<V> {
    /// The sender behind the channel, by which one channel is told from another.
    pub closed spec fn sender(self) -> Sender<Update<V>> {
        self.tx
    }

    /// The capacity the channel was opened with.
    pub closed spec fn capacity(self) -> usize {
        self.capacity@
    }

    /// The number of updates that the channel holds for a subscriber.
    pub closed spec fn places(self) -> nat {
        self.places@
    }

    /// The updates that have been sent on the channel, in order.
    pub closed spec fn sent(self) -> Seq<Update<V>> {
        self.sent@
    }

    /// Whether this is the channel `before` after `update` was sent on it.
    pub open spec fn is_after_sending(self, before: Self, update: Update<V>) -> bool {
        &&& self.sender() == before.sender()
        &&& self.capacity() == before.capacity()
        &&& self.places() == before.places()
        &&& self.sent() == before.sent().push(update)
    }

    /// `tokio::sync::broadcast::Sender::new`: opens a channel. The contract records the
    /// capacity that was asked for, the next power of two as the number of updates that the
    /// channel holds, and that nothing has been sent; the call panics on a capacity that
    /// [`valid_channel_cap`] does not admit.
    #[verifier::external_body]
    pub(crate) fn open(capacity: usize) -> (channel: Self)
        requires
            valid_channel_cap(capacity),
        ensures
            channel.capacity() == capacity,
            is_queue_for(channel.places(), capacity),
            channel.sent() == Seq::<Update<V>>::empty(),
    {
        Channel {
            tx: Sender::new(capacity),
            capacity: Ghost(capacity),
            places: Ghost(choose|places: nat| is_queue_for(places, capacity)),
            sent: Ghost(Seq::empty()),
        }
    }

    /// `tokio::sync::broadcast::Sender::send`: sends an update to all current subscribers,
    /// and drops it if there are none. The contract records that this update was sent after
    /// the ones before; how far subscribers have read is not part of it.
    #[verifier::external_body]
    pub(crate) fn send(&mut self, update: Update<V>)
        ensures
            final(self).is_after_sending(*old(self), update),
    {
        let _ = self.tx.send(update);
    }

    /// `tokio::sync::broadcast::Sender::subscribe`: a subscription that receives what is
    /// sent from now on. The contract records the channel it belongs to, as it is at that
    /// moment: what the channel has sent by then does not reach the subscriber, what it
    /// sends later does.
    #[verifier::external_body]
    pub(crate) fn subscribe(&self) -> (watch: Watch<V>)
        ensures
            watch.origin() == *self,
    {
        Watch { rx: self.tx.subscribe(), origin: Ghost(*self) }
    }
}

impl<V: LiveValue> Watch<V> {
    /// The channel that this is a subscription to, as it was when the subscription was made.
    pub closed spec fn origin(self) -> Channel<V> {
        self.origin@
    }

    /// Whether `received` is what the subscription receives of the channel until the entry is
    /// gone, if it keeps pace: what was sent since the subscription was made, in order, and then
    /// the end over and over.
    pub open spec fn receives(self, channel: Channel<V>, received: Seq<Received<V>>) -> bool {
        let since = channel.sent().skip(self.origin().sent().len() as int);
        &&& self.origin().sender() == channel.sender()
        &&& self.origin().sent().is_prefix_of(channel.sent())
        &&& forall|i: int|
            0 <= i < received.len() ==> #[trigger] received[i] == if i < since.len() {
                Received::Update(since[i])
            } else {
                Received::Closed
            }
    }

    /// What to do with what waiting on `rx` gave: an update is the next one, a closed
    /// channel has no next one, and a subscriber that has lagged behind waits again.
    pub fn next(&self, received: Received<V>) -> (next: Next<V>)
        ensures
            next == next_of(received),
    {
        match received {
            Received::Update(update) => Next::Ready(Some(update)),
            Received::Closed => Next::Ready(None),
            Received::Lagged(lost) => Next::Again(lost),
        }
    }
}

} // verus!
