//! The operations on a store, for laws to speak of.

use std::sync::Arc;

use tokio::sync::{Mutex, OwnedMutexGuard};
use vstd::prelude::*;

use crate::key::Uuid;
use crate::live::{Entry, LiveValue};
use crate::lock::{EntryLock, LockGuard};
use crate::state::StoreState;
use crate::time::Instant;

verus! {

/// What is done to a store. An operation that needs the lock of an entry came with the guard
/// `held`, if any, and ended up with the guard `claimed`, if any. An operation of somebody who
/// has the lock already is done under the guard `guard`.
///
/// Every function that changes a store, and reads off its clock the times it needs, ensures that
/// it takes the store one operation further: see [`is_step`]. A function that is handed its times
/// leaves the clock alone, and is no operation by itself.
#[allow(inconsistent_fields)]
pub enum Operation<V: LiveValue> {
    /// A new entry is put at a key that was generated for it.
    Init { key: Uuid, val: V },
    /// An entry is made unless there is one.
    Create { key: Uuid, val: V },
    /// A value is assigned to an entry.
    Assign { key: Uuid, val: V, held: Option<LockGuard>, claimed: Option<LockGuard> },
    /// A value is inserted.
    Insert { key: Uuid, val: V, held: Option<LockGuard>, claimed: Option<LockGuard> },
    /// A mutation is dispatched.
    Mutate {
        key: Uuid,
        mutn: V::Mutation,
        outcome: Result<V, V::MutError>,
        held: Option<LockGuard>,
        claimed: Option<LockGuard>,
    },
    /// An entry is removed.
    Remove { key: Uuid, held: Option<LockGuard>, claimed: Option<LockGuard> },
    /// A value is set by whoever holds the lock of the entry.
    SetHeld { key: Uuid, val: V, msg: Option<V::Message>, guard: LockGuard },
    /// A mutation is dispatched by whoever holds the lock of the entry, and knows it as `seen`.
    MutateHeld {
        key: Uuid,
        mutn: V::Mutation,
        seen: Entry<V>,
        outcome: Result<V, V::MutError>,
        guard: LockGuard,
    },
    /// An entry is removed by whoever holds its lock.
    DeleteHeld { key: Uuid, msg: Option<V::Message>, guard: LockGuard },
    /// The clock is read.
    Read { now: Instant },
    /// A message is sent.
    Broadcast { key: Uuid, msg: V::Message },
    /// Entries that were last changed before `min` expire, except those whose locks were found
    /// to be held by the attempts `made` to get them. The clock may have been read to find out
    /// about `min`.
    Expire {
        min: Instant,
        locked: Seq<Uuid>,
        made: Seq<(Arc<Mutex<()>>, Option<OwnedMutexGuard<()>>)>,
        times: Seq<Instant>,
    },
}

impl<V: LiveValue> Operation<V> {
    /// Whether the operation can have come by the guards it has.
    pub open spec fn has_its_guards(self, before: StoreState<V>) -> bool {
        match self {
            Operation::Init { .. } => true,
            Operation::Create { .. } => true,
            Operation::Assign { key, held, claimed, .. } => before.has(key)
                ==> before.entries[key].lock.settles(held, claimed),
            Operation::Insert { key, held, claimed, .. } => before.has(key)
                ==> before.entries[key].lock.settles(held, claimed),
            Operation::Mutate { key, held, claimed, .. } => before.has(key)
                ==> before.entries[key].lock.settles(held, claimed),
            Operation::Remove { key, held, claimed } => before.has(key)
                ==> before.entries[key].lock.settles(held, claimed),
            Operation::SetHeld { key, guard, .. } => before.has(key) ==> guard.is_of(
                before.entries[key].lock,
            ),
            Operation::MutateHeld { key, guard, .. } => before.has(key) ==> guard.is_of(
                before.entries[key].lock,
            ),
            Operation::DeleteHeld { key, guard, .. } => before.has(key) ==> guard.is_of(
                before.entries[key].lock,
            ),
            Operation::Read { .. } => true,
            Operation::Broadcast { .. } => true,
            Operation::Expire { min, locked, made, .. } => before.is_searched(made, min, locked),
        }
    }

    /// Whether the operation makes of the store `before` the store `after`.
    pub open spec fn makes(self, before: StoreState<V>, after: StoreState<V>) -> bool {
        match self {
            Operation::Init { key, val } => after.is_put_now(before, key, val),
            Operation::Create { key, val } => if before.has(key) {
                after == before
            } else {
                after.is_put_now(before, key, val)
            },
            Operation::Assign { key, val, claimed, .. } => if before.has(key) && claimed is Some {
                after.is_changed_now(before, key, val, None, None)
            } else {
                after == before
            },
            Operation::Insert { key, val, claimed, .. } => if !before.has(key) {
                after.is_put_now(before, key, val)
            } else if claimed is Some {
                after.is_changed_now(before, key, val, None, None)
            } else {
                after == before
            },
            Operation::Mutate { key, mutn, outcome, claimed, .. } => if before.has(key)
                && claimed is Some {
                &&& call_ensures(V::mutate, (&before.entries[key].entry(), &mutn), outcome)
                &&& match outcome {
                    Ok(val) => after.is_changed_now(before, key, val, None, Some(mutn)),
                    Err(_) => after == before,
                }
            } else {
                after == before
            },
            Operation::Remove { key, claimed, .. } => after.is_deleted(
                before,
                key,
                None,
                claimed is Some,
            ),
            Operation::SetHeld { key, val, msg, .. } => if before.has(key) {
                after.is_changed_now(before, key, val, msg, None)
            } else {
                after == before
            },
            Operation::MutateHeld { key, mutn, seen, outcome, .. } => {
                &&& call_ensures(V::mutate, (&seen, &mutn), outcome)
                &&& match outcome {
                    Ok(val) => after.is_changed_now(before, key, val, None, Some(mutn)),
                    Err(_) => after == before,
                }
            },
            Operation::DeleteHeld { key, msg, .. } => after.is_deleted(before, key, msg, true),
            Operation::Read { now } => {
                &&& after.clock.reads(before.clock, seq![now])
                &&& after == before.at(after.clock)
            },
            Operation::Broadcast { key, msg } => after.is_broadcast(before, key, msg),
            Operation::Expire { min, locked, times, .. } => {
                &&& after.clock.reads(before.clock, times)
                &&& after.is_expired(before.at(after.clock), min, locked)
            },
        }
    }

    /// Whether the operation can lead from the store `before` to the store `after`.
    pub open spec fn leads(self, before: StoreState<V>, after: StoreState<V>) -> bool {
        self.has_its_guards(before) && self.makes(before, after)
    }

    /// Whether the operation puts a new entry at the key without regard to one that is there.
    pub open spec fn puts_anew(self, key: Uuid) -> bool {
        self matches Operation::Init { key: at, .. } && at == key
    }

    /// Whether the operation had `guard`, with which it came or which it got when it tried the
    /// lock of the entry at the key.
    pub open spec fn had(self, key: Uuid, lock: EntryLock, guard: LockGuard) -> bool {
        match self {
            Operation::Init { .. } => false,
            Operation::Create { .. } => false,
            Operation::Assign { key: at, held, claimed, .. } => {
                &&& at == key && claimed == Some(guard)
                &&& held == Some(guard) || lock.yields(Some(guard))
            },
            Operation::Insert { key: at, held, claimed, .. } => {
                &&& at == key && claimed == Some(guard)
                &&& held == Some(guard) || lock.yields(Some(guard))
            },
            Operation::Mutate { key: at, held, claimed, .. } => {
                &&& at == key && claimed == Some(guard)
                &&& held == Some(guard) || lock.yields(Some(guard))
            },
            Operation::Remove { key: at, held, claimed } => {
                &&& at == key && claimed == Some(guard)
                &&& held == Some(guard) || lock.yields(Some(guard))
            },
            Operation::SetHeld { key: at, guard: has, .. } => at == key && has == guard,
            Operation::MutateHeld { key: at, guard: has, .. } => at == key && has == guard,
            Operation::DeleteHeld { key: at, guard: has, .. } => at == key && has == guard,
            Operation::Read { .. } => false,
            Operation::Broadcast { .. } => false,
            Operation::Expire { locked, .. } => !locked.contains(key) && lock.yields(Some(guard)),
        }
    }

    /// Whether the operation had a guard of the lock of the entry at the key.
    pub open spec fn had_lock_of(self, before: StoreState<V>, key: Uuid) -> bool {
        exists|guard: LockGuard|
            {
                &&& #[trigger] self.had(key, before.entries[key].lock, guard)
                &&& guard.is_of(before.entries[key].lock)
            }
    }

    /// Whether the operation is about the key. Expiration is about all of them.
    pub open spec fn is_about(self, key: Uuid) -> bool {
        match self {
            Operation::Init { key: at, .. } => at == key,
            Operation::Create { key: at, .. } => at == key,
            Operation::Assign { key: at, .. } => at == key,
            Operation::Insert { key: at, .. } => at == key,
            Operation::Mutate { key: at, .. } => at == key,
            Operation::Remove { key: at, .. } => at == key,
            Operation::SetHeld { key: at, .. } => at == key,
            Operation::MutateHeld { key: at, .. } => at == key,
            Operation::DeleteHeld { key: at, .. } => at == key,
            Operation::Read { .. } => false,
            Operation::Broadcast { key: at, .. } => at == key,
            Operation::Expire { .. } => true,
        }
    }

    /// The value that the operation gives to the entry that is at the key, if it does.
    pub open spec fn writes(self, before: StoreState<V>, key: Uuid) -> Option<V> {
        if !before.has(key) {
            None
        } else {
            match self {
                Operation::Assign { key: at, val, claimed, .. } if at == key && claimed is Some => Some(
                    val,
                ),
                Operation::Insert { key: at, val, claimed, .. } if at == key && claimed is Some => Some(
                    val,
                ),
                Operation::Mutate { key: at, outcome: Ok(val), claimed, .. } if at == key
                    && claimed is Some => Some(val),
                Operation::SetHeld { key: at, val, .. } if at == key => Some(val),
                Operation::MutateHeld { key: at, outcome: Ok(val), .. } if at == key => Some(val),
                _ => None,
            }
        }
    }

    /// The mutation that the operation carries out on the entry that is at the key as it finds
    /// it, if it does.
    pub open spec fn mutation(self, before: StoreState<V>, key: Uuid) -> Option<V::Mutation> {
        match self {
            Operation::Mutate { mutn, .. } if self.writes(before, key) is Some => Some(mutn),
            Operation::MutateHeld { mutn, seen, .. } if self.writes(before, key) is Some && seen
                == before.entries[key].entry() => Some(mutn),
            _ => None,
        }
    }
}

/// Whether some operation can lead from the store `before` to the store `after`.
pub open spec fn is_step<V: LiveValue>(before: StoreState<V>, after: StoreState<V>) -> bool {
    exists|op: Operation<V>| #[trigger] op.leads(before, after)
}

} // verus!
