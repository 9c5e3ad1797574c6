//! Which entries of a store expire.

use std::sync::Arc;

use tokio::sync::{Mutex, OwnedMutexGuard};
use vstd::prelude::*;

use crate::key::Uuid;
use crate::live::{Entry, LiveValue};
use crate::options::{ExpireMode, StoreOptions};
use crate::raw::RawEntry;
use crate::time::Instant;

verus! {

/// The time before which an entry must have been last changed to be expired at the time `now`.
/// Nothing was changed before the clock was started.
pub open spec fn expire_min(options: StoreOptions, now: Instant) -> Instant {
    match options.expire_mode {
        ExpireMode::Timeout(span) => Instant {
            nanos: if span.nanos <= now.nanos {
                (now.nanos - span.nanos) as u128
            } else {
                0
            },
        },
    }
}

/// Whether the entry at a key expires: it was last changed before `min`, and its lock is not
/// among those that were found to be held.
pub open spec fn expires<V: LiveValue>(
    entries: Map<Uuid, RawEntry<V>>,
    min: Instant,
    locked: Seq<Uuid>,
    key: Uuid,
) -> bool {
    &&& entries.contains_key(key)
    &&& entries[key].last_change.nanos < min.nanos
    &&& !locked.contains(key)
}

/// The entries that do not expire.
pub open spec fn without_expired<V: LiveValue>(
    entries: Map<Uuid, RawEntry<V>>,
    min: Instant,
    locked: Seq<Uuid>,
) -> Map<Uuid, RawEntry<V>> {
    Map::new(
        |key: Uuid| entries.contains_key(key) && !expires(entries, min, locked, key),
        |key: Uuid| entries[key],
    )
}

/// Whether `keys` are the keys of the entries that expire, each of them once.
pub open spec fn lists_expired<V: LiveValue>(
    keys: Seq<Uuid>,
    entries: Map<Uuid, RawEntry<V>>,
    min: Instant,
    locked: Seq<Uuid>,
) -> bool {
    &&& keys.no_duplicates()
    &&& forall|key: Uuid| #[trigger]
        keys.contains(key) <==> expires(entries, min, locked, key)
}

/// Whether the attempts `made` to get locks were one for each of the entries last changed before
/// `min`, whose keys are `tried`, and `locked` are the keys of those of which nothing came.
pub open spec fn tries_each_once<V: LiveValue>(
    tried: Seq<Uuid>,
    made: Seq<(Arc<Mutex<()>>, Option<OwnedMutexGuard<()>>)>,
    entries: Map<Uuid, RawEntry<V>>,
    min: Instant,
    locked: Seq<Uuid>,
) -> bool {
    &&& tried.no_duplicates()
    &&& forall|key: Uuid| #[trigger]
        tried.contains(key) <==> entries.contains_key(key) && entries[key].last_change.nanos
            < min.nanos
    &&& made.len() == tried.len()
    &&& forall|i: int|
        0 <= i < tried.len() ==> {
            &&& (#[trigger] made[i]).0 == entries[tried[i]].lock.mutex()
            &&& made[i].1 is None <==> locked.contains(tried[i])
        }
    &&& forall|key: Uuid| #[trigger] locked.contains(key) ==> tried.contains(key)
}

/// The keys of a list of entries.
pub open spec fn keys_of<E>(pairs: Seq<(Uuid, E)>) -> Seq<Uuid> {
    pairs.map_values(|pair: (Uuid, E)| pair.0)
}

/// Whether `listed` are the entries that expire, each of them once.
pub open spec fn collects_expired<V: LiveValue>(
    listed: Seq<(Uuid, Entry<V>)>,
    entries: Map<Uuid, RawEntry<V>>,
    min: Instant,
    locked: Seq<Uuid>,
) -> bool {
    &&& lists_expired(keys_of(listed), entries, min, locked)
    &&& forall|j: int|
        0 <= j < listed.len() ==> (#[trigger] listed[j]).1 == entries[listed[j].0].entry()
}

/// Whether `key` is among `keys`.
pub(crate) fn is_listed(keys: &Vec<Uuid>, key: &Uuid) -> (listed: bool)
    ensures
        listed == keys@.contains(*key),
{
    let mut i: usize = 0;
    while i < keys.len()
        invariant
            i <= keys.len(),
            forall|j: int| 0 <= j < i ==> keys@[j] != *key,
        decreases keys.len() - i,
    {
        if keys[i].bits == key.bits {
            assert(keys@[i as int] == *key);
            return true;
        }
        i += 1;
    }
    false
}

} // verus!
