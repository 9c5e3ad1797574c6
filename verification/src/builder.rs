//! Setting up a store.

use std::marker::PhantomData;

use vstd::prelude::*;

use crate::live::LiveValue;
use crate::options::{is_default_options, valid_shard_amt, StoreOptions};
use crate::store::LiveStore;

verus! {

/// The settings of a store that is yet to be made.
pub struct LiveStoreBuilder<V: LiveValue> {
    options: StoreOptions,
    on_expire: bool,
    values: PhantomData<V>,
}

impl<V: LiveValue> LiveStoreBuilder<V> {
    /// The settings chosen so far.
    pub closed spec fn options(self) -> StoreOptions {
        self.options
    }

    /// Whether somebody is to be told of entries that expire.
    pub closed spec fn has_on_expire(self) -> bool {
        self.on_expire
    }

    /// The default settings.
    pub(crate) fn start() -> (builder: Self)
        ensures
            is_default_options(builder.options()),
            !builder.has_on_expire(),
    {
        LiveStoreBuilder { options: StoreOptions::default(), on_expire: false, values: PhantomData }
    }

    /// Chooses the settings.
    pub fn with_options(self, options: StoreOptions) -> (builder: Self)
        ensures
            builder.options() == options,
            builder.has_on_expire() == self.has_on_expire(),
    {
        LiveStoreBuilder { options, on_expire: self.on_expire, values: PhantomData }
    }

    /// Chooses that entries that expire are handed to a callback.
    pub fn on_expire(self) -> (builder: Self)
        ensures
            builder.options() == self.options(),
            builder.has_on_expire(),
    {
        LiveStoreBuilder { options: self.options, on_expire: true, values: PhantomData }
    }

    /// Makes the store.
    pub fn done(self) -> (store: LiveStore<V>)
        requires
            valid_shard_amt(self.options().shard_amt),
        ensures
            store.wf(),
            store@.is_fresh(self.options(), self.has_on_expire()),
    {
        LiveStore::with(self.options, self.on_expire)
    }
}

} // verus!
