//! The lock of an entry, and attempts to get it.

use std::sync::Arc;

use tokio::sync::{Mutex, OwnedMutexGuard};
use vstd::prelude::*;

use crate::entries::Entries;
use crate::key::Uuid;
use crate::live::LiveValue;
use crate::raw::RawEntry;
use crate::store::trials::Trials;

verus! {

/// `tokio::sync::Mutex`, carried as an opaque value.
#[verifier::external_type_specification]
#[verifier::external_body]
#[verifier::reject_recursive_types(T)]
pub struct ExMutex<T: ?Sized>(Mutex<T>);

/// `tokio::sync::OwnedMutexGuard`, carried as an opaque value.
#[verifier::external_type_specification]
#[verifier::external_body]
#[verifier::reject_recursive_types(T)]
pub struct ExOwnedMutexGuard<T: ?Sized>(OwnedMutexGuard<T>);

/// The lock of an entry. It does not keep the value from being read; it keeps tasks that
/// want to change the value out of each other's way.
pub struct EntryLock {
    mutex: Arc<Mutex<()>>,
}

/// The lock of an entry while it is held. Dropping the guard releases the lock.
pub struct LockGuard {
    guard: OwnedMutexGuard<()>,
}

/// How far an operation got that needs the lock of an entry.
pub enum Attempt<T, B> {
    /// There is no entry at the key.
    Missing,
    /// The operation was carried out.
    Done(T),
    /// The lock is held elsewhere and nothing was changed. Wait for the lock, then ask for
    /// the operation again with the guard and with the argument that is handed back.
    Busy(EntryLock, B),
}

impl Clone for EntryLock {
    fn clone(&self) -> (copy: Self)
        ensures
            copy == *self,
    {
        EntryLock { mutex: self.mutex.clone() }
    }
}

impl EntryLock {
    /// Whether none of the entries has this lock.
    pub open spec fn is_apart<V: LiveValue>(self, entries: Map<Uuid, RawEntry<V>>) -> bool {
        forall|key: Uuid| #[trigger] entries.contains_key(key) ==> entries[key].lock != self
    }

    /// Whether somebody who has tried to get the lock can have come away with `got`.
    pub closed spec fn yields(self, got: Option<LockGuard>) -> bool {
        exists|trials: &mut Trials| #[trigger]
            call_ensures(try_lock_mutex, (&self.mutex, trials), owned_of(got))
    }

    /// Whether somebody who has tried to get the lock can have come away with a guard.
    pub open spec fn yields_guard(self) -> bool {
        exists|guard: LockGuard| self.yields(Some(guard))
    }

    /// Whether a task that came with `held` can have ended up with `claimed` of this lock: with
    /// the guard it came with, if that is a guard of this lock, and otherwise with what it came
    /// away with when it tried to get the lock.
    pub open spec fn settles(self, held: Option<LockGuard>, claimed: Option<LockGuard>) -> bool {
        if held matches Some(guard) && guard.is_of(self) {
            claimed == held
        } else {
            self.yields(claimed) && (claimed matches Some(guard) ==> guard.is_of(self))
        }
    }

    /// A lock that nobody holds, and that none of the entries has. Who holds a lock is no part of
    /// its value.
    pub(crate) fn new<V: LiveValue>(entries: &Entries<V>) -> (lock: Self)
        ensures
            lock.is_apart(entries@),
    {
        EntryLock { mutex: new_mutex(entries) }
    }

    /// A lock that none of the entries has, and that is held by the guard it comes with.
    pub(crate) fn new_held<V: LiveValue>(entries: &Entries<V>) -> (both: (EntryLock, LockGuard))
        ensures
            both.0.is_apart(entries@),
            both.1.is_of(both.0),
    {
        let (mutex, guard) = new_locked_mutex(entries);
        (EntryLock { mutex }, LockGuard { guard })
    }

    /// Gets the lock if nobody holds it at the moment.
    pub(crate) fn try_lock(&self, trials: &mut Trials) -> (got: Option<LockGuard>)
        ensures
            got matches Some(guard) ==> guard.is_of(*self),
            self.yields(got),
            final(trials).made() == old(trials).made().push((self.mutex(), owned_of(got))),
    {
        match try_lock_mutex(&self.mutex, trials) {
            Some(guard) => Some(LockGuard { guard }),
            None => None,
        }
    }

    /// The mutex behind the lock.
    pub closed spec fn mutex(self) -> Arc<Mutex<()>> {
        self.mutex
    }

    /// The mutex to wait for.
    pub fn into_mutex(self) -> (mutex: Arc<Mutex<()>>)
        ensures
            mutex == self.mutex(),
    {
        self.mutex
    }

    /// Gets the lock for a task that may come with a guard. A guard that it got by waiting
    /// serves only if it is a guard of this lock: while the task waited, the entry may have
    /// been removed and another one made in its place, with a lock of its own.
    pub(crate) fn claim(&self, held: Option<LockGuard>, trials: &mut Trials) -> (claimed: Option<LockGuard>)
        ensures
            self.settles(held, claimed),
            final(trials).made() == if held matches Some(guard) && guard.is_of(*self) {
                old(trials).made()
            } else {
                old(trials).made().push((self.mutex(), owned_of(claimed)))
            },
    {
        match held {
            Some(held) => {
                let same = held.guards(self);
                let tried = if same {
                    None
                } else {
                    self.try_lock(trials)
                };
                settle_claim(Some(held), same, tried)
            },
            None => settle_claim(None, false, self.try_lock(trials)),
        }
    }
}

/// The guard of the mutex, where there is a guard of the lock.
pub open spec fn owned_of(got: Option<LockGuard>) -> Option<OwnedMutexGuard<()>> {
    match got {
        Some(guard) => Some(guard.owned()),
        None => None,
    }
}

/// Which guard a task ends up with: the one it came with, if it is a guard of the lock in
/// question, and otherwise the one, if any, that it has just tried to get.
pub fn settle_claim(held: Option<LockGuard>, same: bool, tried: Option<LockGuard>) -> (claimed:
    Option<LockGuard>)
    ensures
        claimed == if same && held is Some {
            held
        } else {
            tried
        },
{
    if same && held.is_some() {
        held
    } else {
        tried
    }
}

impl LockGuard {
    /// The guard of the mutex behind the lock.
    pub closed spec fn owned(self) -> OwnedMutexGuard<()> {
        self.guard
    }

    /// Whether this is a guard of the lock.
    pub open spec fn is_of(self, lock: EntryLock) -> bool {
        guarded_mutex(self.owned()) == lock.mutex()
    }

    /// Whether this is a guard of the lock.
    pub fn guards(&self, lock: &EntryLock) -> (same: bool)
        ensures
            same == self.is_of(*lock),
    {
        guards_mutex(&self.guard, &lock.mutex)
    }

    /// The guard that waiting for the mutex of an [`EntryLock`] gave.
    pub fn from_owned(guard: OwnedMutexGuard<()>) -> (held: Self)
        ensures
            held.owned() == guard,
    {
        LockGuard { guard }
    }
}

/// What somebody comes away with who has tried to get a lock is a guard of that lock.
pub proof fn lemma_yielded_guard(lock: EntryLock, guard: LockGuard)
    requires
        lock.yields(Some(guard)),
    ensures
        guard.is_of(lock),
{
}

/// Locks with the same mutex are the same lock.
pub proof fn lemma_lock_is_its_mutex(one: EntryLock, two: EntryLock)
    requires
        one.mutex() == two.mutex(),
    ensures
        one == two,
{
}

/// A guard is a guard of one lock only.
pub proof fn lemma_guard_of_one_lock(guard: LockGuard, one: EntryLock, two: EntryLock)
    requires
        guard.is_of(one),
        guard.is_of(two),
    ensures
        one == two,
{
}

/// The mutex that a guard is a guard of, as `tokio::sync::OwnedMutexGuard::mutex` tells it. A
/// mutex has no value to speak of, and stands for itself: it is equal to no other.
pub uninterp spec fn guarded_mutex(guard: OwnedMutexGuard<()>) -> Arc<Mutex<()>>;

/// `tokio::sync::Mutex::new`: a mutex that nobody holds. The contract claims that it is another
/// one than those of the entries, which were there before it was made.
#[verifier::external_body]
fn new_mutex<V: LiveValue>(entries: &Entries<V>) -> (mutex: Arc<Mutex<()>>)
    ensures
        forall|key: Uuid| #[trigger]
            entries@.contains_key(key) ==> entries@[key].lock.mutex() != mutex,
{
    Arc::new(Mutex::new(()))
}

/// `tokio::sync::Mutex::new` and, on the mutex it has made, `try_lock_owned`: a mutex other than
/// those of the entries, and a guard of it. The second call fails only while a guard of the mutex
/// exists, and none does before it.
#[verifier::external_body]
fn new_locked_mutex<V: LiveValue>(entries: &Entries<V>) -> (held: (
    Arc<Mutex<()>>,
    OwnedMutexGuard<()>,
))
    ensures
        guarded_mutex(held.1) == held.0,
        forall|key: Uuid| #[trigger]
            entries@.contains_key(key) ==> entries@[key].lock.mutex() != held.0,
{
    let mutex = Arc::new(Mutex::new(()));
    let guard = mutex.clone().try_lock_owned().expect("a new mutex is free");
    (mutex, guard)
}

/// `tokio::sync::Mutex::try_lock_owned`: a guard of the mutex, or `None` while there is
/// another. Which of the two it is depends on who holds the mutex, so nothing is claimed of
/// that. The contract records the attempt and what came of it.
#[verifier::external_body]
fn try_lock_mutex(mutex: &Arc<Mutex<()>>, trials: &mut Trials) -> (got: Option<OwnedMutexGuard<()>>)
    ensures
        final(trials).made() == old(trials).made().push((*mutex, got)),
        got matches Some(guard) ==> guarded_mutex(guard) == *mutex,
{
    mutex.clone().try_lock_owned().ok()
}

/// `tokio::sync::OwnedMutexGuard::mutex`, compared by `Arc::ptr_eq`: whether `guard` is a guard
/// of `mutex`. The guard keeps its mutex in place, so a mutex elsewhere is another one.
#[verifier::external_body]
fn guards_mutex(guard: &OwnedMutexGuard<()>, mutex: &Arc<Mutex<()>>) -> (same: bool)
    ensures
        same == (guarded_mutex(*guard) == *mutex),
{
    Arc::ptr_eq(OwnedMutexGuard::mutex(guard), mutex)
}

} // verus!
