//! The record of attempts to get locks.

use std::sync::Arc;

use tokio::sync::{Mutex, OwnedMutexGuard};
use vstd::prelude::*;

use crate::lock::{EntryLock, LockGuard};

verus! {

/// Attempts to get the locks of entries, in the order in which they were made. Every attempt is
/// made on behalf of somebody who keeps such a record, and is entered in it.
pub struct Trials {
    made: Ghost<Seq<(Arc<Mutex<()>>, Option<OwnedMutexGuard<()>>)>>,
}

impl Trials {
    /// The mutexes that were tried, each with what came of it.
    pub closed spec fn made(self) -> Seq<(Arc<Mutex<()>>, Option<OwnedMutexGuard<()>>)> {
        self.made@
    }

    /// The attempts that were made since the record was `before`.
    pub open spec fn since(self, before: Self) -> Seq<
        (Arc<Mutex<()>>, Option<OwnedMutexGuard<()>>),
    > {
        self.made().skip(before.made().len() as int)
    }

    /// Whether this is the record `before` after a task that came with `held` has got the lock, or
    /// has not: it has tried the lock once, unless it came with a guard of it.
    pub open spec fn is_after_claim(
        self,
        before: Self,
        lock: EntryLock,
        held: Option<LockGuard>,
        got: bool,
    ) -> bool {
        &&& before.made().is_prefix_of(self.made())
        &&& if held matches Some(guard) && guard.is_of(lock) {
            got && self.since(before).len() == 0
        } else {
            &&& self.since(before).len() == 1
            &&& self.since(before)[0].0 == lock.mutex()
            &&& self.since(before)[0].1 is Some <==> got
        }
    }

    /// The record of somebody who has not tried any lock.
    pub(in crate::store) fn new() -> (trials: Self)
        ensures
            trials.made().len() == 0,
    {
        Trials { made: Ghost(Seq::empty()) }
    }
}

/// Whether somebody else has the lock of `mutex`, as the attempts that somebody has made tell: they
/// have tried it once, in vain, and have not got it before or after.
pub open spec fn is_held_by_another(
    made: Seq<(Arc<Mutex<()>>, Option<OwnedMutexGuard<()>>)>,
    mutex: Arc<Mutex<()>>,
) -> bool {
    exists|i: int|
        {
            &&& 0 <= i < made.len()
            &&& #[trigger] made[i] == (mutex, None::<OwnedMutexGuard<()>>)
            &&& forall|j: int|
                0 <= j < made.len() && j != i ==> (#[trigger] made[j]).0 != mutex
        }
}

} // verus!
