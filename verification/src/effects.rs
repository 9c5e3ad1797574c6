//! What each operation does to the entries of a store, to their subscribers and to whoever asked
//! for it.

use std::any::TypeId;

use boomphf::Mphf;
use tokio::sync::OwnedMutexGuard;
use vstd::prelude::*;

use crate::channel::{answers, next_of, Next, Received};
use crate::expiry::{collects_expired, expire_min, keys_of, tries_each_once};
use crate::guard::EntryGuard;
use crate::key::Uuid;
use crate::live::{Entry, LiveValue, Update};
use crate::lock::{EntryLock, LockGuard};
use crate::operation::Operation;
use crate::options::{ExpireMode, StoreOptions};
use crate::raw::RawEntry;
use crate::state::StoreState;
use crate::storages::{is_perfect_for, type_positions};
use crate::store::trials::{is_held_by_another, Trials};
use crate::task::{expire_step, ExpireAction, ExpireEvent, ExpirePhase};
use crate::time::Instant;

verus! {

/// Whoever comes with a guard of a lock ends up with that guard: the lock is not tried anew, and
/// nobody who has waited for it is turned away.
pub proof fn law_guard_that_came_is_kept(
    lock: EntryLock,
    guard: LockGuard,
    claimed: Option<LockGuard>,
)
    requires
        guard.is_of(lock),
        lock.settles(Some(guard), claimed),
    ensures
        claimed == Some(guard),
{
}

/// Whoever comes with no guard, or with one of another lock, ends up with what trying the lock
/// gave: nothing if it is in vain, and otherwise a guard of that lock.
pub proof fn law_lock_is_tried(
    lock: EntryLock,
    held: Option<LockGuard>,
    claimed: Option<LockGuard>,
)
    requires
        held matches Some(guard) ==> !guard.is_of(lock),
        lock.settles(held, claimed),
    ensures
        lock.yields(claimed),
        claimed matches Some(guard) ==> guard.is_of(lock),
{
}

/// An operation that comes with a guard of the lock of an entry is never refused the lock, and is
/// done under that very guard.
pub proof fn law_operation_keeps_its_guard<V: LiveValue>(
    op: Operation<V>,
    before: StoreState<V>,
    after: StoreState<V>,
    key: Uuid,
    guard: LockGuard,
)
    requires
        op.leads(before, after),
        before.entries.contains_key(key),
        guard.is_of(before.entries[key].lock),
    ensures
        match op {
            Operation::Assign { key: at, held, claimed, .. } => at == key && held == Some(guard)
                ==> claimed == Some(guard),
            Operation::Insert { key: at, held, claimed, .. } => at == key && held == Some(guard)
                ==> claimed == Some(guard),
            Operation::Mutate { key: at, held, claimed, .. } => at == key && held == Some(guard)
                ==> claimed == Some(guard),
            Operation::Remove { key: at, held, claimed } => at == key && held == Some(guard)
                ==> claimed == Some(guard),
            _ => true,
        },
{
}

/// Who comes with a guard of the lock of an entry is granted the lock and not refused it. Who does
/// not, is granted or refused it as trying the lock turns out.
pub proof fn law_lock_is_granted_or_refused<V: LiveValue>(
    store: StoreState<V>,
    key: Uuid,
    held: Option<LockGuard>,
)
    requires
        store.entries.contains_key(key),
    ensures
        held matches Some(guard) && guard.is_of(store.entries[key].lock) ==> {
            &&& store.serves(key, held)
            &&& store.grants(key, held)
            &&& !store.refuses(key, held)
        },
        !(held matches Some(guard) && guard.is_of(store.entries[key].lock)) ==> {
            &&& !store.serves(key, held)
            &&& store.grants(key, held) ==> store.entries[key].lock.yields_guard()
            &&& store.refuses(key, held) <==> store.entries[key].lock.yields(None)
        },
{
    if held is Some && held->0.is_of(store.entries[key].lock) {
        assert(store.entries[key].lock.settles(held, Some(held->0)));
    }
}

/// Whoever is refused a lock is refused it because somebody else has it: they have tried it once, in
/// vain, and have not got it before. Whoever gets it has tried it once, or came with a guard of it.
pub proof fn law_lock_is_refused_by_others_only(
    before: Trials,
    after: Trials,
    lock: EntryLock,
    held: Option<LockGuard>,
    got: bool,
)
    requires
        after.is_after_claim(before, lock, held, got),
    ensures
        !got ==> is_held_by_another(after.since(before), lock.mutex()),
        held matches Some(guard) && guard.is_of(lock) ==> got && after.made() == before.made(),
        after.made().len() <= before.made().len() + 1,
{
    let made = after.since(before);
    if !got {
        assert(made[0] == (lock.mutex(), None::<OwnedMutexGuard<()>>));
    }
}

/// What is read at a key is the entry that is there: its value, the time of its last change and the
/// time at which it was made. Where there is none, nothing is read.
pub proof fn law_entry_is_read<V: LiveValue>(store: StoreState<V>, key: Uuid)
    ensures
        store.fetched(key) == if store.entries.contains_key(key) {
            Some(
                Entry {
                    value: store.entries[key].value,
                    last_change: store.entries[key].last_change,
                    create_time: store.entries[key].create_time,
                },
            )
        } else {
            None
        },
{
}

/// An operation that makes an entry puts the value at the key, with the times that were just read
/// off the clock, a channel on which nothing was sent yet, of the capacity that the settings ask
/// for, and a lock that no entry had. Whatever the settings, other entries are left alone.
pub proof fn law_entry_is_made<V: LiveValue>(
    op: Operation<V>,
    before: StoreState<V>,
    after: StoreState<V>,
    key: Uuid,
    val: V,
)
    requires
        op.leads(before, after),
        match op {
            Operation::Init { key: at, val: new } => at == key && new == val,
            Operation::Create { key: at, val: new } => {
                at == key && new == val && !before.entries.contains_key(key)
            },
            Operation::Insert { key: at, val: new, .. } => {
                at == key && new == val && !before.entries.contains_key(key)
            },
            _ => false,
        },
    ensures
        after.entries == before.entries.insert(key, after.entries[key]),
        *after.entries[key].value == val,
        after.entries[key].channel.sent().len() == 0,
        after.entries[key].channel.capacity() == before.options.channel_cap,
        after.clock.readings() == before.clock.readings().push(
            after.entries[key].last_change,
        ).push(after.entries[key].create_time),
        after.entries[key].last_change.nanos <= after.entries[key].create_time.nanos,
        forall|other: Uuid| #[trigger]
            before.entries.contains_key(other) ==> before.entries[other].lock
                != after.entries[key].lock,
        after.retired == if before.entries.contains_key(key) {
            before.retired.push((key, before.entries[key]))
        } else {
            before.retired
        },
{
    let raw = after.entries[key];
    let n = before.clock.readings().len() as int;
    assert(after.clock.readings()[n] == raw.last_change);
    assert(after.clock.readings()[n + 1] == raw.create_time);
}

/// An operation that assigns, inserts or sets a value under the lock of an entry that is there
/// leaves the value at the key, and tells the subscribers of the overwrite once, with the message it
/// came with, and with what the entry was before and is after. Whatever the settings, other entries
/// are left alone.
pub proof fn law_value_is_overwritten<V: LiveValue>(
    op: Operation<V>,
    before: StoreState<V>,
    after: StoreState<V>,
    key: Uuid,
    val: V,
    msg: Option<V::Message>,
)
    requires
        op.leads(before, after),
        before.entries.contains_key(key),
        match op {
            Operation::Assign { key: at, val: new, claimed, .. } => {
                at == key && new == val && claimed is Some && msg is None
            },
            Operation::Insert { key: at, val: new, claimed, .. } => {
                at == key && new == val && claimed is Some && msg is None
            },
            Operation::SetHeld { key: at, val: new, msg: with, .. } => {
                at == key && new == val && with == msg
            },
            _ => false,
        },
    ensures
        after.entries == before.entries.insert(key, after.entries[key]),
        *after.entries[key].value == val,
        after.entries[key].create_time == before.entries[key].create_time,
        after.entries[key].lock == before.entries[key].lock,
        after.clock.readings() == before.clock.readings().push(after.entries[key].last_change),
        after.retired == before.retired,
        after.entries[key].channel.sender() == before.entries[key].channel.sender(),
        after.entries[key].channel.sent() == before.entries[key].channel.sent().push(
            Update::Overwrite {
                msg,
                new: Entry {
                    value: after.entries[key].value,
                    last_change: after.entries[key].last_change,
                    create_time: after.entries[key].create_time,
                },
                old: Entry {
                    value: before.entries[key].value,
                    last_change: before.entries[key].last_change,
                    create_time: before.entries[key].create_time,
                },
            },
        ),
{
}

/// An operation that mutates an entry that is there under its lock, without an error, leaves the
/// value that the mutation came to, and tells the subscribers of the mutation once, with what the
/// entry was before and is after. Whatever the settings, other entries are left alone.
pub proof fn law_value_is_mutated<V: LiveValue>(
    op: Operation<V>,
    before: StoreState<V>,
    after: StoreState<V>,
    key: Uuid,
    mutn: V::Mutation,
    val: V,
)
    requires
        op.leads(before, after),
        before.entries.contains_key(key),
        match op {
            Operation::Mutate { key: at, mutn: with, outcome, claimed, .. } => {
                &&& at == key && with == mutn && claimed is Some
                &&& outcome == Ok::<V, V::MutError>(val)
            },
            Operation::MutateHeld { key: at, mutn: with, outcome, .. } => {
                at == key && with == mutn && outcome == Ok::<V, V::MutError>(val)
            },
            _ => false,
        },
    ensures
        after.entries == before.entries.insert(key, after.entries[key]),
        *after.entries[key].value == val,
        after.entries[key].create_time == before.entries[key].create_time,
        after.entries[key].lock == before.entries[key].lock,
        after.clock.readings() == before.clock.readings().push(after.entries[key].last_change),
        after.retired == before.retired,
        after.entries[key].channel.sender() == before.entries[key].channel.sender(),
        after.entries[key].channel.sent() == before.entries[key].channel.sent().push(
            Update::Mutate {
                mutn,
                new: Entry {
                    value: after.entries[key].value,
                    last_change: after.entries[key].last_change,
                    create_time: after.entries[key].create_time,
                },
                old: Entry {
                    value: before.entries[key].value,
                    last_change: before.entries[key].last_change,
                    create_time: before.entries[key].create_time,
                },
            },
        ),
{
}

/// What a mutation comes to is what mutating the entry comes to: the entry that is at the key, and
/// for whoever holds its lock the entry as they know it.
pub proof fn law_mutation_has_its_outcome<V: LiveValue>(
    op: Operation<V>,
    before: StoreState<V>,
    after: StoreState<V>,
)
    requires
        op.leads(before, after),
    ensures
        match op {
            Operation::Mutate { key, mutn, outcome, claimed, .. } => {
                let entry = Entry {
                    value: before.entries[key].value,
                    last_change: before.entries[key].last_change,
                    create_time: before.entries[key].create_time,
                };
                before.entries.contains_key(key) && claimed is Some ==> call_ensures(
                    V::mutate,
                    (&entry, &mutn),
                    outcome,
                )
            },
            Operation::MutateHeld { mutn, seen, outcome, .. } => call_ensures(
                V::mutate,
                (&seen, &mutn),
                outcome,
            ),
            _ => true,
        },
{
}

/// An operation that removes an entry that is there under its lock takes it out of the store, and
/// tells the subscribers of the removal once, with the message it came with and the value that the
/// entry had. Whatever the settings, other entries are left alone.
pub proof fn law_entry_is_removed<V: LiveValue>(
    op: Operation<V>,
    before: StoreState<V>,
    after: StoreState<V>,
    key: Uuid,
    msg: Option<V::Message>,
)
    requires
        op.leads(before, after),
        before.entries.contains_key(key),
        match op {
            Operation::Remove { key: at, claimed, .. } => {
                at == key && claimed is Some && msg is None
            },
            Operation::DeleteHeld { key: at, msg: with, .. } => at == key && with == msg,
            _ => false,
        },
    ensures
        after.entries == before.entries.remove(key),
        after.retired.len() == before.retired.len() + 1,
        after.retired.drop_last() == before.retired,
        after.retired.last().0 == key,
        after.retired.last().1.value == before.entries[key].value,
        after.retired.last().1.last_change == before.entries[key].last_change,
        after.retired.last().1.create_time == before.entries[key].create_time,
        after.retired.last().1.channel.sender() == before.entries[key].channel.sender(),
        after.retired.last().1.channel.sent() == before.entries[key].channel.sent().push(
            Update::Remove { msg, val: before.entries[key].value, key },
        ),
{
    assert(after.retired.drop_last() =~= before.retired);
}

/// A message to an entry that is there is sent to its subscribers, with the entry as it is.
/// Whatever the settings, nothing else is sent or changed, and a message to no entry is not sent.
pub proof fn law_message_is_sent<V: LiveValue>(
    before: StoreState<V>,
    after: StoreState<V>,
    key: Uuid,
    msg: V::Message,
)
    requires
        after.is_broadcast(before, key, msg),
    ensures
        before.entries.contains_key(key) ==> {
            &&& after.entries == before.entries.insert(key, after.entries[key])
            &&& after.entries[key].channel.sender() == before.entries[key].channel.sender()
            &&& after.entries[key].channel.sent() == before.entries[key].channel.sent().push(
                Update::Message {
                    msg,
                    val: Entry {
                        value: before.entries[key].value,
                        last_change: before.entries[key].last_change,
                        create_time: before.entries[key].create_time,
                    },
                },
            )
            &&& after.entries[key].value == before.entries[key].value
            &&& after.entries[key].last_change == before.entries[key].last_change
            &&& after.entries[key].create_time == before.entries[key].create_time
            &&& after.entries[key].lock == before.entries[key].lock
        },
        !before.entries.contains_key(key) ==> after.entries == before.entries,
        after.retired == before.retired,
{
}

/// A message that is sent as an operation is sent: see [`law_message_is_sent`].
pub proof fn law_broadcast_sends<V: LiveValue>(
    before: StoreState<V>,
    after: StoreState<V>,
    key: Uuid,
    msg: V::Message,
)
    requires
        (Operation::Broadcast { key, msg }).leads(before, after),
        before.entries.contains_key(key),
    ensures
        after.entries[key].channel.sent() == before.entries[key].channel.sent().push(
            Update::Message {
                msg,
                val: Entry {
                    value: before.entries[key].value,
                    last_change: before.entries[key].last_change,
                    create_time: before.entries[key].create_time,
                },
            },
        ),
{
    law_message_is_sent(before, after, key, msg);
}

/// An operation on an entry that is not there does nothing, unless it is one that makes an entry.
/// So does one that needs the lock of an entry and did not get it.
pub proof fn law_nothing_to_do<V: LiveValue>(
    op: Operation<V>,
    before: StoreState<V>,
    after: StoreState<V>,
)
    requires
        op.leads(before, after),
        match op {
            Operation::Create { key, .. } => before.entries.contains_key(key),
            Operation::Assign { key, claimed, .. } => {
                !before.entries.contains_key(key) || claimed is None
            },
            Operation::Insert { key, claimed, .. } => {
                before.entries.contains_key(key) && claimed is None
            },
            Operation::Mutate { key, outcome, claimed, .. } => {
                !before.entries.contains_key(key) || claimed is None || outcome is Err
            },
            Operation::MutateHeld { outcome, .. } => outcome is Err,
            Operation::Remove { key, claimed, .. } => {
                !before.entries.contains_key(key) || claimed is None
            },
            Operation::SetHeld { key, .. } => !before.entries.contains_key(key),
            Operation::DeleteHeld { key, .. } => !before.entries.contains_key(key),
            Operation::Broadcast { key, .. } => !before.entries.contains_key(key),
            _ => false,
        },
    ensures
        after == before,
{
}

/// A function that is handed the times of a new entry makes the entry with these times, unless
/// there is one at the key already, which it leaves as it is.
pub proof fn law_entry_is_made_as_told<V: LiveValue>(
    before: StoreState<V>,
    after: StoreState<V>,
    key: Uuid,
    val: V,
    last_change: Instant,
    create_time: Instant,
)
    requires
        after.is_created(before, key, val, last_change, create_time),
    ensures
        before.entries.contains_key(key) ==> after == before,
        !before.entries.contains_key(key) ==> {
            &&& after.entries == before.entries.insert(key, after.entries[key])
            &&& *after.entries[key].value == val
            &&& after.entries[key].last_change == last_change
            &&& after.entries[key].create_time == create_time
            &&& after.entries[key].channel.sent().len() == 0
            &&& after.entries[key].channel.capacity() == before.options.channel_cap
            &&& after.retired == before.retired
            &&& after.clock == before.clock
        },
{
}

/// A function that is handed the time of an overwrite gives the entry that is there the value at
/// that time, and tells its subscribers once of what it was before and is after.
pub proof fn law_value_is_overwritten_as_told<V: LiveValue>(
    before: StoreState<V>,
    after: StoreState<V>,
    key: Uuid,
    val: V,
    msg: Option<V::Message>,
    now: Instant,
    create_time: Instant,
)
    requires
        before.entries.contains_key(key),
        ({
            ||| after.is_assigned(before, key, val, true, now) && msg is None
            ||| after.is_inserted(before, key, val, true, now, create_time) && msg is None
            ||| after.is_set(before, key, val, msg, now)
        }),
    ensures
        after.entries == before.entries.insert(key, after.entries[key]),
        *after.entries[key].value == val,
        after.entries[key].last_change == now,
        after.entries[key].create_time == before.entries[key].create_time,
        after.entries[key].lock == before.entries[key].lock,
        after.clock == before.clock,
        after.retired == before.retired,
        after.entries[key].channel.sender() == before.entries[key].channel.sender(),
        after.entries[key].channel.sent() == before.entries[key].channel.sent().push(
            Update::Overwrite {
                msg,
                new: Entry {
                    value: after.entries[key].value,
                    last_change: now,
                    create_time: before.entries[key].create_time,
                },
                old: Entry {
                    value: before.entries[key].value,
                    last_change: before.entries[key].last_change,
                    create_time: before.entries[key].create_time,
                },
            },
        ),
{
}

/// A function that is handed the time of a mutation and what it came to gives the entry that is
/// there the value at that time, and tells its subscribers once of what it was before and is after.
pub proof fn law_value_is_mutated_as_told<V: LiveValue>(
    before: StoreState<V>,
    after: StoreState<V>,
    key: Uuid,
    mutn: V::Mutation,
    val: V,
    now: Instant,
)
    requires
        before.entries.contains_key(key),
        after.is_mutated(before, key, mutn, Ok(val), true, now),
    ensures
        after.entries == before.entries.insert(key, after.entries[key]),
        *after.entries[key].value == val,
        after.entries[key].last_change == now,
        after.entries[key].create_time == before.entries[key].create_time,
        after.entries[key].lock == before.entries[key].lock,
        after.clock == before.clock,
        after.retired == before.retired,
        after.entries[key].channel.sender() == before.entries[key].channel.sender(),
        after.entries[key].channel.sent() == before.entries[key].channel.sent().push(
            Update::Mutate {
                mutn,
                new: Entry {
                    value: after.entries[key].value,
                    last_change: now,
                    create_time: before.entries[key].create_time,
                },
                old: Entry {
                    value: before.entries[key].value,
                    last_change: before.entries[key].last_change,
                    create_time: before.entries[key].create_time,
                },
            },
        ),
{
}

/// A function that is told whether it had the lock of an entry does nothing if it had not, if there
/// is no entry, or if a mutation has failed, unless it is one that makes an entry.
pub proof fn law_nothing_is_done_as_told<V: LiveValue>(
    before: StoreState<V>,
    after: StoreState<V>,
    key: Uuid,
    val: V,
    msg: Option<V::Message>,
    mutn: V::Mutation,
    outcome: Result<V, V::MutError>,
    claimed: bool,
    now: Instant,
    create_time: Instant,
)
    ensures
        !claimed || !before.entries.contains_key(key) ==> {
            &&& after.is_assigned(before, key, val, claimed, now) ==> after == before
            &&& after.is_mutated(before, key, mutn, outcome, claimed, now) ==> after == before
            &&& after.is_deleted(before, key, msg, claimed) ==> after == before
        },
        outcome is Err && after.is_mutated(before, key, mutn, outcome, claimed, now) ==> after
            == before,
        !claimed && before.entries.contains_key(key) && after.is_inserted(
            before,
            key,
            val,
            claimed,
            now,
            create_time,
        ) ==> after == before,
        !before.entries.contains_key(key) && after.is_set(before, key, val, msg, now) ==> after
            == before,
{
}

/// A function that is handed the times for a value to insert makes an entry with these times where
/// there is none.
pub proof fn law_insert_makes_as_told<V: LiveValue>(
    before: StoreState<V>,
    after: StoreState<V>,
    key: Uuid,
    val: V,
    claimed: bool,
    now: Instant,
    create_time: Instant,
)
    requires
        !before.entries.contains_key(key),
    ensures
        after.is_inserted(before, key, val, claimed, now, create_time) <==> after.is_created(
            before,
            key,
            val,
            now,
            create_time,
        ),
{
}

/// A guard fits a store just when the entry at its key, if there is one, has the lock that it
/// holds.
pub proof fn law_guard_fits_its_entry<V: LiveValue>(guard: EntryGuard<V>, store: StoreState<V>)
    ensures
        guard.fits(store) <==> !store.entries.contains_key(guard.uuid()) || guard.held().is_of(
            store.entries[guard.uuid()].lock,
        ),
{
}

/// A guard that has given its entry a value knows the entry as it is then.
pub proof fn law_guard_follows_its_entry<V: LiveValue>(
    before: EntryGuard<V>,
    after: EntryGuard<V>,
    raw: RawEntry<V>,
)
    requires
        after.follows(before, raw),
    ensures
        after.uuid() == before.uuid(),
        after.held() == before.held(),
        after.entry().value == raw.value,
        after.entry().last_change == raw.last_change,
        after.entry().create_time == before.entry().create_time,
{
}

/// A search takes those entries out of the store that were last changed before the limit and that
/// it did not find locked, and leaves all others as they are. Whatever the settings, the
/// subscribers of neither are told anything.
pub proof fn law_search_removes_the_stale<V: LiveValue>(
    before: StoreState<V>,
    after: StoreState<V>,
    min: Instant,
    locked: Seq<Uuid>,
    key: Uuid,
)
    requires
        after.is_expired(before, min, locked),
    ensures
        after.entries.contains_key(key) <==> {
            &&& before.entries.contains_key(key)
            &&& before.entries[key].last_change.nanos >= min.nanos || locked.contains(key)
        },
        after.entries.contains_key(key) ==> after.entries[key] == before.entries[key],
        before.retired.is_prefix_of(after.retired),
        forall|j: int|
            before.retired.len() <= j < after.retired.len() ==> {
                &&& before.entries.contains_key((#[trigger] after.retired[j]).0)
                &&& !after.entries.contains_key(after.retired[j].0)
                &&& after.retired[j].1 == before.entries[after.retired[j].0]
            },
        before.entries.contains_key(key) && !after.entries.contains_key(key) ==> exists|j: int|
            before.retired.len() <= j < after.retired.len() && (#[trigger] after.retired[j]).0
                == key,
{
    let gone = after.retired_since(before);
    let keys = keys_of(gone);
    assert forall|j: int| before.retired.len() <= j < after.retired.len() implies {
        &&& before.entries.contains_key((#[trigger] after.retired[j]).0)
        &&& !after.entries.contains_key(after.retired[j].0)
        &&& after.retired[j].1 == before.entries[after.retired[j].0]
    } by {
        let i = j - before.retired.len();
        assert(gone[i] == after.retired[j]);
        assert(keys[i] == gone[i].0);
        assert(keys.contains(gone[i].0));
    }
    if before.entries.contains_key(key) && !after.entries.contains_key(key) {
        assert(keys.contains(key));
        let i = keys.index_of(key);
        assert(gone[i].0 == key);
        assert(after.retired[before.retired.len() + i] == gone[i]);
    }
}

/// What a search hands out is what it takes out of the store: each entry that was last changed
/// before the limit and was not found locked, once and as it was, and nothing else.
pub proof fn law_search_hands_out_the_stale<V: LiveValue>(
    listed: Seq<(Uuid, Entry<V>)>,
    entries: Map<Uuid, RawEntry<V>>,
    min: Instant,
    locked: Seq<Uuid>,
    key: Uuid,
)
    requires
        collects_expired(listed, entries, min, locked),
    ensures
        (exists|j: int| 0 <= j < listed.len() && (#[trigger] listed[j]).0 == key) <==> {
            &&& entries.contains_key(key)
            &&& entries[key].last_change.nanos < min.nanos
            &&& !locked.contains(key)
        },
        forall|i: int, j: int|
            0 <= i < j < listed.len() ==> (#[trigger] listed[i]).0 != (#[trigger] listed[j]).0,
        forall|j: int|
            0 <= j < listed.len() ==> {
                let raw = entries[(#[trigger] listed[j]).0];
                &&& listed[j].1.value == raw.value
                &&& listed[j].1.last_change == raw.last_change
                &&& listed[j].1.create_time == raw.create_time
            },
{
    let keys = keys_of(listed);
    if keys.contains(key) {
        let j = keys.index_of(key);
        assert(listed[j].0 == key);
    }
    if exists|j: int| 0 <= j < listed.len() && (#[trigger] listed[j]).0 == key {
        let j = choose|j: int| 0 <= j < listed.len() && (#[trigger] listed[j]).0 == key;
        assert(keys[j] == key);
    }
    assert forall|i: int, j: int| 0 <= i < j < listed.len() implies (#[trigger] listed[i]).0 != (
    #[trigger] listed[j]).0 by {
        assert(keys[i] == listed[i].0 && keys[j] == listed[j].0);
    }
}

/// A search finds an entry locked only because somebody else holds its lock: it has tried the lock
/// once, in vain, and has not got it before. So an entry that was last changed before the limit and
/// whose lock nobody else holds is taken out of the store.
pub proof fn law_search_is_stopped_by_others_only<V: LiveValue>(
    op: Operation<V>,
    before: StoreState<V>,
    after: StoreState<V>,
    key: Uuid,
)
    requires
        op.leads(before, after),
        op is Expire,
        forall|one: Uuid, two: Uuid| #[trigger]
            before.entries.contains_key(one) && #[trigger] before.entries.contains_key(two) && one
                != two ==> before.entries[one].lock.mutex() != before.entries[two].lock.mutex(),
        before.entries.contains_key(key),
        op matches Operation::Expire { min, .. } && before.entries[key].last_change.nanos
            < min.nanos,
    ensures
        !after.entries.contains_key(key) || is_held_by_another(
            op->made,
            before.entries[key].lock.mutex(),
        ),
{
    let locked = op->locked;
    let min = op->min;
    let made = op->made;
    let tried = choose|tried: Seq<Uuid>| #[trigger]
        tries_each_once(tried, made, before.entries, min, locked);
    if after.entries.contains_key(key) {
        law_search_removes_the_stale(
            before.at(after.clock),
            after,
            min,
            locked,
            key,
        );
        assert(tried.contains(key));
        let i = tried.index_of(key);
        assert(made[i] == (before.entries[key].lock.mutex(), None::<OwnedMutexGuard<()>>));
        assert forall|j: int| 0 <= j < made.len() && j != i implies (#[trigger] made[j]).0
            != before.entries[key].lock.mutex() by {
            assert(tried.contains(tried[j]));
            assert(tried[j] != key);
        }
    }
}

/// The limit of a search at some time is such that an entry is before it just when more than the
/// timeout has passed since its last change.
pub proof fn law_limit_is_the_timeout_ago(options: StoreOptions, now: Instant, last_change: Instant)
    ensures
        options.expire_mode matches ExpireMode::Timeout(span) && (last_change.nanos < expire_min(
            options,
            now,
        ).nanos <==> last_change.nanos + span.nanos < now.nanos),
{
}

/// An update that was received is handed on, the end of the channel and nothing else is answered
/// with nothing, and a loss is reported, however large, and waited over.
pub proof fn law_answers_are_what_was_received<V: LiveValue>(
    received: Received<V>,
    update: Update<V>,
    lost: u64,
)
    ensures
        next_of(received) == Next::Ready(Some(update)) <==> received == Received::Update(update),
        next_of(received) == Next::Ready(None::<Update<V>>) <==> received is Closed,
        next_of(received) == Next::<V>::Again(lost) <==> received == Received::<V>::Lagged(lost),
{
}

/// A subscriber gets exactly what is received, in order: each update as it is, whatever losses
/// were reported before it, and nothing for a loss.
pub proof fn law_subscriber_goes_on_after_a_loss<V: LiveValue>(
    earlier: Seq<Received<V>>,
    update: Update<V>,
    lost: u64,
)
    ensures
        answers(Seq::<Received<V>>::empty()).len() == 0,
        answers(earlier.push(Received::Update(update))) == answers(earlier).push(Some(update)),
        answers(earlier.push(Received::Closed)) == answers(earlier).push(None),
        answers(earlier.push(Received::Lagged(lost))) == answers(earlier),
        answers(earlier.push(Received::Lagged(lost)).push(Received::Update(update))) == answers(
            earlier,
        ).push(Some(update)),
{
    assert(earlier.push(Received::Update(update)).drop_last() =~= earlier);
    assert(earlier.push(Received::Closed).drop_last() =~= earlier);
    assert(earlier.push(Received::Lagged(lost)).drop_last() =~= earlier);
    assert(earlier.push(Received::Lagged(lost)).push(Received::Update(update)).drop_last()
        =~= earlier.push(Received::Lagged(lost)));
}

/// The task that searches for expired entries ends only for a reason: after its first tick, when a
/// period is over and the store is gone, or when the program is told to stop. It begins to search
/// with the first tick, and never begins again.
pub proof fn law_task_ends_for_a_reason(phase: ExpirePhase, event: ExpireEvent)
    ensures
        expire_step(phase, event).0 == ExpirePhase::Stopped <==> {
            ||| phase == ExpirePhase::Stopped
            ||| phase == ExpirePhase::Running && event != (ExpireEvent::Tick { alive: true })
        },
        expire_step(phase, event).1 == ExpireAction::Stop <==> expire_step(phase, event).0
            == ExpirePhase::Stopped,
        phase == ExpirePhase::Starting ==> (expire_step(phase, event).0 == ExpirePhase::Running
            <==> event is Tick),
        expire_step(phase, event).0 == ExpirePhase::Starting ==> phase == ExpirePhase::Starting,
{
}

/// How far the task has come after some events.
pub open spec fn phase_after(events: Seq<ExpireEvent>) -> ExpirePhase
    decreases events.len(),
{
    if events.len() == 0 {
        ExpirePhase::Starting
    } else {
        expire_step(phase_after(events.drop_last()), events.last()).0
    }
}

/// For as long as the store is there and the program is not told to stop, the task goes on: it
/// waits at the first tick, and searches the store at every tick after that.
pub proof fn law_task_searches_every_period(events: Seq<ExpireEvent>, tick: ExpireEvent)
    requires
        forall|i: int|
            0 <= i < events.len() ==> #[trigger] events[i] == (ExpireEvent::Tick { alive: true }),
        tick == (ExpireEvent::Tick { alive: true }),
    ensures
        phase_after(events) != ExpirePhase::Stopped,
        expire_step(phase_after(events), tick).1 == if events.len() == 0 {
            ExpireAction::Wait
        } else {
            ExpireAction::Check
        },
    decreases events.len(),
{
    if events.len() > 0 {
        let earlier = events.drop_last();
        assert forall|i: int| 0 <= i < earlier.len() implies #[trigger] earlier[i] == tick by {
            assert(earlier[i] == events[i]);
        }
        law_task_searches_every_period(earlier, tick);
        assert(events.last() == tick);
    }
}

/// A store that was just made holds nothing, has the settings it was made with, and is split into
/// as many shards as were asked for, or into two if one was asked for.
pub proof fn law_new_store_is_empty<V: LiveValue>(
    store: StoreState<V>,
    options: StoreOptions,
    on_expire: bool,
    key: Uuid,
)
    requires
        store.is_fresh(options, on_expire),
    ensures
        !store.entries.contains_key(key),
        store.retired.len() == 0,
        store.options == options,
        store.on_expire == on_expire,
        options.shard_amt is Some && options.shard_amt->0 > 1 ==> Some(store.shards)
            == options.shard_amt,
        options.shard_amt == Some(1usize) ==> store.shards == 2,
{
}

/// A hash function fits types just when it gives each of them a position of its own, below their
/// number, however many there are and in whatever order.
pub proof fn law_perfect_hash_fits<S>(hasher: Mphf<TypeId>, stores: Seq<(TypeId, S)>)
    ensures
        is_perfect_for(hasher, stores) <==> {
            &&& forall|i: int|
                0 <= i < stores.len() ==> type_positions(hasher).contains_key(
                    (#[trigger] stores[i]).0,
                ) && type_positions(hasher)[stores[i].0] < stores.len()
            &&& forall|i: int, j: int|
                0 <= i < j < stores.len() ==> type_positions(hasher)[(#[trigger] stores[i]).0]
                    != type_positions(hasher)[(#[trigger] stores[j]).0]
        },
{
}

} // verus!
