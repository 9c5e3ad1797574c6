//! How a store is set up.

use vstd::arithmetic::power2::is_pow2;
use vstd::prelude::*;

use crate::time::{Duration, NANOS_PER_SEC};

verus! {

/// The conditions of expiration.
#[derive(Copy, Clone, Debug, PartialEq, Eq, Structural)]
pub enum ExpireMode {
    /// An entry expires when it has not been changed for this long.
    Timeout(Duration),
}

/// The settings of a store.
#[derive(Copy, Clone, Debug)]
pub struct StoreOptions {
    /// The number of updates that the broadcast queue of an entry holds for a subscriber. The
    /// queue has a power of two of places, so a number that is none is rounded up to the next one:
    /// a queue for 3 updates holds 4.
    pub channel_cap: usize,
    /// The number of shards the map of the store is split into, a power of two. `None`
    /// leaves the choice to the map.
    pub shard_amt: Option<usize>,
    /// How often the store is searched for expired entries. `None` means never.
    pub expire_check_freq: Option<Duration>,
    /// The conditions of expiration.
    pub expire_mode: ExpireMode,
}

/// The capacities that a broadcast channel can be opened with.
pub open spec fn valid_channel_cap(cap: usize) -> bool {
    0 < cap <= usize::MAX / 2
}

/// Whether a broadcast queue for `cap` updates has `places` of them: the least power of two that
/// is not less.
pub open spec fn is_queue_for(places: nat, cap: usize) -> bool {
    &&& is_pow2(places as int)
    &&& cap <= places < 2 * cap
}

/// The number of shards that a map is split into when `amt` of them are asked for. One shard is
/// the least that can be asked for, two the least that a map has.
pub open spec fn shards_for(amt: usize) -> usize {
    if amt == 1 {
        2
    } else {
        amt
    }
}

/// The numbers of shards that a map can be asked for.
pub open spec fn valid_shard_amt(amt: Option<usize>) -> bool {
    amt matches Some(n) ==> is_pow2(n as int)
}

/// The settings of a store for which nothing was chosen: a queue of 4 updates, no choice of
/// shards, no search for expired entries, and expiration after an hour.
pub open spec fn is_default_options(options: StoreOptions) -> bool {
    &&& options.channel_cap == 4
    &&& options.shard_amt is None
    &&& options.expire_check_freq is None
    &&& options.expire_mode matches ExpireMode::Timeout(span) && span.nanos == 3600 * NANOS_PER_SEC
}

impl Default for StoreOptions {
    fn default() -> (options: Self)
        ensures
            is_default_options(options),
    {
        StoreOptions {
            channel_cap: 4,
            shard_amt: None,
            expire_check_freq: None,
            expire_mode: ExpireMode::Timeout(Duration::from_secs(60 * 60)),
        }
    }
}

} // verus!
