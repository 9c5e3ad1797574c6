//! Values that live in a store, and what their subscribers are told about them.

use std::ops::Deref;
use std::sync::Arc;

use vstd::prelude::*;

use crate::key::Uuid;
use crate::time::Instant;

verus! {

/// A type whose values can live in a store.
pub trait LiveValue: Clone + Sized + Send + Sync + 'static {
    /// A message to subscribed tasks that does not change the value. `()` if unused.
    type Message: Clone + Send + Sync;

    /// A request to change the value, which is passed on to subscribed tasks once it has
    /// been carried out. `()` if unused.
    type Mutation: Clone + Send + Sync;

    /// Why a mutation was refused. `()` if unused.
    type MutError;

    /// The value that the mutation makes of the entry, or an error if it is refused.
    fn mutate(entry: &Entry<Self>, mutation: &Self::Mutation) -> (outcome: Result<
        Self,
        Self::MutError,
    >);
}

/// The value and the metadata of an entry, as they were when the entry was read. Holding
/// one does not keep the entry from changing.
pub struct Entry<V> {
    pub value: Arc<V>,
    /// When the value was last changed.
    pub last_change: Instant,
    /// When the entry was made.
    pub create_time: Instant,
}

impl<V> Clone for Entry<V> {
    fn clone(&self) -> (copy: Self)
        ensures
            copy == *self,
    {
        Entry {
            value: self.value.clone(),
            last_change: self.last_change,
            create_time: self.create_time,
        }
    }
}

impl<V> Deref for Entry<V> {
    type Target = V;

    fn deref(&self) -> (value: &V)
        ensures
            *value == *self.value,
    {
        &self.value
    }
}

/// What the subscribers of an entry are told.
#[derive(Clone)]
#[allow(inconsistent_fields)]
pub enum Update<V: LiveValue> {
    /// The entry was removed while it held `val`.
    Remove { msg: Option<V::Message>, val: Arc<V>, key: Uuid },
    /// The entry was given a new value.
    Overwrite { msg: Option<V::Message>, new: Entry<V>, old: Entry<V> },
    /// A mutation was applied to the entry.
    Mutate { mutn: V::Mutation, new: Entry<V>, old: Entry<V> },
    /// A message was sent to the subscribers of the entry, which read `val`.
    Message { msg: V::Message, val: Entry<V> },
}

/// The update that tells of a change from `old` to `new`: a mutation where one was applied,
/// an overwrite otherwise.
pub open spec fn change_update<V: LiveValue>(
    old: Entry<V>,
    new: Entry<V>,
    msg: Option<V::Message>,
    mutn: Option<V::Mutation>,
) -> Update<V> {
    match mutn {
        Some(mutn) => Update::Mutate { mutn, new, old },
        None => Update::Overwrite { msg, new, old },
    }
}

} // verus!
