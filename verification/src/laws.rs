//! What holds of a store as a whole.

use std::any::TypeId;

use vstd::prelude::*;

use crate::channel::{answers, Channel, Received, Watch};
use crate::effects::law_search_is_stopped_by_others_only;
use crate::expiry::{expire_min, expires, keys_of, without_expired};
use crate::history::{
    is_change, is_fold, lemma_change_in_history, lemma_changed_tells, lemma_new_tells,
    lemma_replay_goes_on, lemma_replay_without_change, lemma_sending_tells, mutations_told, new_of,
    old_of, replay,
};
use crate::key::Uuid;
use crate::live::{Entry, LiveValue, Update};
use crate::lock::{
    lemma_guard_of_one_lock, lemma_lock_is_its_mutex, lemma_yielded_guard, LockGuard,
};
use crate::operation::Operation;
use crate::options::{ExpireMode, StoreOptions};
use crate::raw::RawEntry;
use crate::state::StoreState;
use crate::storages::is_found_by_type;
use crate::store::trials::is_held_by_another;
use crate::task::{expire_step, ExpireAction, ExpireEvent, ExpirePhase};
use crate::time::{lemma_later_reading, lemma_reads_nothing, Instant};

verus! {

/// What is done to a held entry is done by its holder: an operation that neither came with a
/// guard of the lock of an entry nor got one when it tried leaves the value, the times and the
/// lock of the entry as they are.
pub proof fn law_held_entry_stays<V: LiveValue>(
    op: Operation<V>,
    before: StoreState<V>,
    after: StoreState<V>,
    key: Uuid,
)
    requires
        op.leads(before, after),
        before.has(key),
        !op.had_lock_of(before, key),
        !op.puts_anew(key),
    ensures
        after.fetched(key) == before.fetched(key),
        after.entries[key].lock == before.entries[key].lock,
{
    let lock = before.entries[key].lock;
    match op {
        Operation::Assign { key: at, claimed: Some(guard), .. } if at == key => {
            assert(op.had(key, lock, guard));
        },
        Operation::Insert { key: at, claimed: Some(guard), .. } if at == key => {
            assert(op.had(key, lock, guard));
        },
        Operation::Mutate { key: at, claimed: Some(guard), .. } if at == key => {
            assert(op.had(key, lock, guard));
        },
        Operation::Remove { key: at, claimed: Some(guard), .. } if at == key => {
            assert(op.had(key, lock, guard));
        },
        Operation::SetHeld { key: at, guard, .. } if at == key => {
            assert(op.had(key, lock, guard));
        },
        Operation::MutateHeld { key: at, guard, .. } if at == key => {
            assert(op.had(key, lock, guard));
        },
        Operation::DeleteHeld { key: at, guard, .. } if at == key => {
            assert(op.had(key, lock, guard));
        },
        Operation::Expire { min, locked, .. } => {
            if expires(before.entries, min, locked, key) {
                let guard = choose|guard: LockGuard| lock.yields(Some(guard));
                lemma_yielded_guard(lock, guard);
                assert(op.had(key, lock, guard));
            }
        },
        _ => {},
    }
}

/// An operation that is refused the lock of an entry changes nothing at all.
pub proof fn law_refused_operation_changes_nothing<V: LiveValue>(
    op: Operation<V>,
    before: StoreState<V>,
    after: StoreState<V>,
    key: Uuid,
)
    requires
        op.leads(before, after),
        before.has(key),
        match op {
            Operation::Assign { key: at, claimed, .. } => at == key && claimed is None,
            Operation::Insert { key: at, claimed, .. } => at == key && claimed is None,
            Operation::Mutate { key: at, claimed, .. } => at == key && claimed is None,
            Operation::Remove { key: at, claimed, .. } => at == key && claimed is None,
            _ => false,
        },
    ensures
        after == before,
        before.entries[key].lock.yields(None),
{
}

/// An operation on one key leaves the entries at all other keys exactly as they are.
pub proof fn law_other_keys_untouched<V: LiveValue>(
    op: Operation<V>,
    before: StoreState<V>,
    after: StoreState<V>,
    other: Uuid,
)
    requires
        op.leads(before, after),
        !op.is_about(other),
    ensures
        after.has(other) == before.has(other),
        before.has(other) ==> after.entries[other] == before.entries[other],
{
}

/// No operation changes the settings of a store or the number of its shards, or gives it another
/// clock.
pub proof fn law_settings_stay<V: LiveValue>(
    op: Operation<V>,
    before: StoreState<V>,
    after: StoreState<V>,
)
    requires
        op.leads(before, after),
    ensures
        after.options == before.options,
        after.on_expire == before.on_expire,
        after.shards == before.shards,
        after.clock.started() == before.clock.started(),
{
}

/// An entry keeps its time of creation, its lock and its channel for as long as it is in the
/// store, and its channel never takes back an update.
pub proof fn law_entry_keeps_identity<V: LiveValue>(
    op: Operation<V>,
    before: StoreState<V>,
    after: StoreState<V>,
    key: Uuid,
)
    requires
        op.leads(before, after),
        before.has(key),
        after.has(key),
        !op.puts_anew(key),
    ensures
        after.entries[key].create_time == before.entries[key].create_time,
        after.entries[key].lock == before.entries[key].lock,
        after.entries[key].channel.sender() == before.entries[key].channel.sender(),
        after.entries[key].channel.capacity() == before.entries[key].channel.capacity(),
        after.entries[key].channel.places() == before.entries[key].channel.places(),
        before.entries[key].channel.sent().is_prefix_of(after.entries[key].channel.sent()),
        after.entries[key].channel.sent().len() <= before.entries[key].channel.sent().len() + 1,
{
}

/// A guard of the lock of an entry remains one for as long as the entry is in the store: the
/// lock that was got once need not be got again.
pub proof fn law_guard_keeps_serving<V: LiveValue>(
    op: Operation<V>,
    before: StoreState<V>,
    after: StoreState<V>,
    key: Uuid,
    held: Option<LockGuard>,
)
    requires
        op.leads(before, after),
        before.serves(key, held),
        after.has(key),
        !op.puts_anew(key),
    ensures
        after.serves(key, held),
{
}

/// No entry vanishes: one that is no longer at its key was removed by somebody who had its
/// lock, or has expired, and is among those that have left the store.
pub proof fn law_no_entry_vanishes<V: LiveValue>(
    op: Operation<V>,
    before: StoreState<V>,
    after: StoreState<V>,
    key: Uuid,
)
    requires
        op.leads(before, after),
        before.has(key),
        !after.has(key),
    ensures
        match op {
            Operation::Remove { key: at, .. } => at == key,
            Operation::DeleteHeld { key: at, .. } => at == key,
            Operation::Expire { min, locked, .. } => expires(before.entries, min, locked, key),
            _ => false,
        },
        op.had_lock_of(before, key),
        keys_of(after.retired_since(before)).contains(key),
{
    if !op.had_lock_of(before, key) {
        law_held_entry_stays(op, before, after, key);
    }
    if op is Remove || op is DeleteHeld {
        assert(keys_of(after.retired_since(before))[0] == key);
    }
}

/// No value changes in silence: if an operation leaves a value or a time at a key other than
/// it was, it has sent exactly one update, and the last update leads to what the entry is.
pub proof fn law_change_is_told<V: LiveValue>(
    op: Operation<V>,
    before: StoreState<V>,
    after: StoreState<V>,
    key: Uuid,
)
    requires
        op.leads(before, after),
        before.has(key),
        after.has(key),
        !op.puts_anew(key),
        after.fetched(key) != before.fetched(key),
    ensures
        after.entries[key].channel.sent().len() == before.entries[key].channel.sent().len() + 1,
        replay(before.entries[key].entry(), seq![after.entries[key].channel.sent().last()])
            == after.entries[key].entry(),
{
    let sent = after.entries[key].channel.sent();
    assert(seq![sent.last()].last() == sent.last());
}

/// A message to the subscribers of an entry changes no entry of the store.
pub proof fn law_message_changes_nothing<V: LiveValue>(
    before: StoreState<V>,
    after: StoreState<V>,
    key: Uuid,
    msg: V::Message,
    any: Uuid,
)
    requires
        after.is_broadcast(before, key, msg),
    ensures
        after.fetched(any) == before.fetched(any),
        after.retired == before.retired,
{
}

/// A mutation that fails changes nothing and sends nothing.
pub proof fn law_failed_mutation_changes_nothing<V: LiveValue>(
    op: Operation<V>,
    before: StoreState<V>,
    after: StoreState<V>,
)
    requires
        op.leads(before, after),
        match op {
            Operation::Mutate { outcome, .. } => outcome is Err,
            Operation::MutateHeld { outcome, .. } => outcome is Err,
            _ => false,
        },
    ensures
        after == before,
{
}

/// What is written to a key is what is then read there, however it was written.
pub proof fn law_read_gives_back_write<V: LiveValue>(
    op: Operation<V>,
    before: StoreState<V>,
    after: StoreState<V>,
    key: Uuid,
    val: V,
)
    requires
        op.leads(before, after),
        op.writes(before, key) == Some(val) || match op {
            Operation::Init { key: at, val: new } => at == key && new == val,
            Operation::Create { key: at, val: new } => at == key && new == val && !before.has(key),
            Operation::Insert { key: at, val: new, .. } => {
                at == key && new == val && !before.has(key)
            },
            _ => false,
        },
    ensures
        after.fetched(key) matches Some(entry) && *entry.value == val,
{
}

/// To create an entry where there is one overwrites nothing.
pub proof fn law_create_never_overwrites<V: LiveValue>(
    before: StoreState<V>,
    after: StoreState<V>,
    key: Uuid,
    val: V,
)
    requires
        (Operation::Create { key, val }).leads(before, after),
        before.has(key),
    ensures
        after == before,
{
}

/// To assign a value where there is no entry makes none.
pub proof fn law_assign_never_creates<V: LiveValue>(
    op: Operation<V>,
    before: StoreState<V>,
    after: StoreState<V>,
)
    requires
        op.leads(before, after),
        op is Assign,
    ensures
        after.entries.dom() == before.entries.dom(),
{
    assert(after.entries.dom() =~= before.entries.dom());
}

/// To insert a value is to create an entry where there is none, and to assign the value
/// where there is one.
pub proof fn law_insert_creates_or_assigns<V: LiveValue>(
    before: StoreState<V>,
    after: StoreState<V>,
    key: Uuid,
    val: V,
    held: Option<LockGuard>,
    claimed: Option<LockGuard>,
)
    ensures
        (Operation::Insert { key, val, held, claimed }).leads(before, after) <==> if before.has(
            key,
        ) {
            (Operation::Assign { key, val, held, claimed }).leads(before, after)
        } else {
            (Operation::Create { key, val }).leads(before, after)
        },
{
}

/// A removed entry is no longer read, its subscribers have been told, and it is kept among those
/// that have left the store as it was.
pub proof fn law_removed_is_gone<V: LiveValue>(
    before: StoreState<V>,
    after: StoreState<V>,
    key: Uuid,
    msg: Option<V::Message>,
)
    requires
        before.has(key),
        after.is_deleted(before, key, msg, true),
    ensures
        after.fetched(key) is None,
        after.retired.len() == before.retired.len() + 1,
        after.retired.last().0 == key,
        after.retired.last().1.entry() == before.entries[key].entry(),
        after.retired.last().1.channel.sent() == before.entries[key].channel.sent().push(
            Update::Remove { msg, val: before.entries[key].value, key },
        ),
{
}

/// The entries that expire are read no longer, and all others are exactly as they were.
pub proof fn law_expiry_removes_the_expired<V: LiveValue>(
    before: StoreState<V>,
    after: StoreState<V>,
    min: Instant,
    locked: Seq<Uuid>,
    key: Uuid,
)
    requires
        after.is_expired(before, min, locked),
        before.has(key),
    ensures
        after.has(key) <==> !expires(before.entries, min, locked, key),
        after.has(key) ==> after.entries[key] == before.entries[key],
        keys_of(after.retired_since(before)).contains(key) <==> expires(
            before.entries,
            min,
            locked,
            key,
        ),
{
}

/// To search for expired entries again with the same limit finds none.
pub proof fn law_expiry_is_idempotent<V: LiveValue>(
    entries: Map<Uuid, RawEntry<V>>,
    min: Instant,
    locked: Seq<Uuid>,
)
    ensures
        without_expired(without_expired(entries, min, locked), min, locked) == without_expired(
            entries,
            min,
            locked,
        ),
{
    let once = without_expired(entries, min, locked);
    assert(without_expired(once, min, locked) =~= once);
}

/// An entry outlives every search that is made before its timeout has passed since its last
/// change.
pub proof fn law_recent_entry_survives<V: LiveValue>(
    before: StoreState<V>,
    after: StoreState<V>,
    now: Instant,
    locked: Seq<Uuid>,
    key: Uuid,
)
    requires
        after.is_expired(before, expire_min(before.options, now), locked),
        before.has(key),
        before.options.expire_mode matches ExpireMode::Timeout(span) && now.nanos
            <= before.entries[key].last_change.nanos + span.nanos,
    ensures
        after.has(key),
        after.entries[key] == before.entries[key],
{
}

/// Whether no two entries in the store have the same lock.
pub open spec fn all_apart<V: LiveValue>(store: StoreState<V>) -> bool {
    forall|one: Uuid, two: Uuid| #[trigger]
        store.has(one) && #[trigger] store.has(two) && one != two ==> store.entries[one].lock
            != store.entries[two].lock
}

/// No two entries have the same lock: every operation keeps it so. To hold the lock of one entry
/// keeps nobody from another.
pub proof fn law_every_operation_keeps_locks_apart<V: LiveValue>(
    op: Operation<V>,
    before: StoreState<V>,
    after: StoreState<V>,
)
    requires
        op.leads(before, after),
        all_apart(before),
    ensures
        all_apart(after),
{
    assert forall|one: Uuid, two: Uuid| #[trigger]
        after.has(one) && #[trigger] after.has(two) && one
            != two implies after.entries[one].lock != after.entries[two].lock by {
        assert(before.has(one) || before.has(two));
        if before.has(one) && before.has(two) {
            assert(op.puts_anew(one) || after.entries[one].lock == before.entries[one].lock);
            assert(op.puts_anew(two) || after.entries[two].lock == before.entries[two].lock);
        }
    }
}

/// A guard serves for one entry only.
pub proof fn law_guard_serves_one_entry<V: LiveValue>(
    store: StoreState<V>,
    held: Option<LockGuard>,
    one: Uuid,
    two: Uuid,
)
    requires
        all_apart(store),
        store.serves(one, held),
        store.serves(two, held),
    ensures
        one == two,
{
    lemma_guard_of_one_lock(held->0, store.entries[one].lock, store.entries[two].lock);
}

/// A search that is made after the timeout has passed since the last change of an entry
/// removes the entry, unless somebody else holds its lock: the search has tried the lock once, in
/// vain, and has not got it before.
pub proof fn law_stale_entry_expires<V: LiveValue>(
    op: Operation<V>,
    before: StoreState<V>,
    after: StoreState<V>,
    now: Instant,
    key: Uuid,
)
    requires
        op.leads(before, after),
        op matches Operation::Expire { min, .. } && min == expire_min(before.options, now),
        all_apart(before),
        before.has(key),
        before.options.expire_mode matches ExpireMode::Timeout(span) && now.nanos
            > before.entries[key].last_change.nanos + span.nanos,
    ensures
        after.fetched(key) is None || {
            &&& is_held_by_another(op->made, before.entries[key].lock.mutex())
            &&& before.entries[key].lock.yields(None)
        },
{
    assert forall|one: Uuid, two: Uuid| #[trigger]
        before.entries.contains_key(one) && #[trigger] before.entries.contains_key(two) && one
            != two implies before.entries[one].lock.mutex() != before.entries[two].lock.mutex() by {
        if before.entries[one].lock.mutex() == before.entries[two].lock.mutex() {
            lemma_lock_is_its_mutex(before.entries[one].lock, before.entries[two].lock);
            assert(before.has(one) && before.has(two));
        }
    }
    law_search_is_stopped_by_others_only(op, before, after, key);
}

/// Whether the times of every entry in the store were read off its clock.
pub open spec fn all_timed<V: LiveValue>(store: StoreState<V>) -> bool {
    forall|key: Uuid| #[trigger]
        store.has(key) ==> {
            &&& store.clock.shows(store.entries[key].last_change)
            &&& store.clock.shows(store.entries[key].create_time)
        }
}

/// The times of every entry are readings of the clock of the store: every operation keeps it so.
pub proof fn law_every_operation_keeps_time<V: LiveValue>(
    op: Operation<V>,
    before: StoreState<V>,
    after: StoreState<V>,
)
    requires
        op.leads(before, after),
        all_timed(before),
    ensures
        all_timed(after),
{
    assert forall|key: Uuid| #[trigger] after.has(key) implies {
        &&& after.clock.shows(after.entries[key].last_change)
        &&& after.clock.shows(after.entries[key].create_time)
    } by {
        let raw = after.entries[key];
        let times = lemma_operation_times(op, before, after, key);
        lemma_later_reading(before.clock, after.clock, times);
        if before.has(key) && !op.puts_anew(key) {
            assert(times == seq![raw.last_change] ==> times[0] == raw.last_change);
        } else {
            assert(times[0] == raw.last_change && times[1] == raw.create_time);
        }
    }
}

/// What an operation has read off the clock. The times of an entry that is there afterwards are
/// among that, or the entry had them before.
proof fn lemma_operation_times<V: LiveValue>(
    op: Operation<V>,
    before: StoreState<V>,
    after: StoreState<V>,
    key: Uuid,
) -> (times: Seq<Instant>)
    requires
        op.leads(before, after),
        after.has(key),
    ensures
        after.clock.reads(before.clock, times),
        if before.has(key) && !op.puts_anew(key) {
            &&& after.entries[key].create_time == before.entries[key].create_time
            &&& {
                ||| after.entries[key].last_change == before.entries[key].last_change
                ||| times == seq![after.entries[key].last_change]
            }
            &&& op.writes(before, key) is Some ==> times == seq![after.entries[key].last_change]
        } else {
            times == seq![after.entries[key].last_change, after.entries[key].create_time]
        },
{
    let none = Seq::<Instant>::empty();
    lemma_reads_nothing(before.clock);
    match op {
        Operation::Init { key: at, .. } => {
            seq![after.entries[at].last_change, after.entries[at].create_time]
        },
        Operation::Create { key: at, .. } => if before.has(at) {
            none
        } else {
            seq![after.entries[at].last_change, after.entries[at].create_time]
        },
        Operation::Insert { key: at, .. } if !before.has(at) => {
            seq![after.entries[at].last_change, after.entries[at].create_time]
        },
        Operation::Assign { key: at, .. } => if op.writes(before, at) is Some {
            seq![after.entries[at].last_change]
        } else {
            none
        },
        Operation::Insert { key: at, .. } => if op.writes(before, at) is Some {
            seq![after.entries[at].last_change]
        } else {
            none
        },
        Operation::Mutate { key: at, .. } => if op.writes(before, at) is Some {
            seq![after.entries[at].last_change]
        } else {
            none
        },
        Operation::SetHeld { key: at, .. } => if op.writes(before, at) is Some {
            seq![after.entries[at].last_change]
        } else {
            none
        },
        Operation::MutateHeld { key: at, .. } => if op.writes(before, at) is Some {
            seq![after.entries[at].last_change]
        } else {
            none
        },
        Operation::Read { now } => seq![now],
        Operation::Expire { times, .. } => times,
        _ => none,
    }
}

/// The time of the last change of an entry never decreases.
pub proof fn law_last_change_never_decreases<V: LiveValue>(
    op: Operation<V>,
    before: StoreState<V>,
    after: StoreState<V>,
    key: Uuid,
)
    requires
        op.leads(before, after),
        all_timed(before),
        before.has(key),
        after.has(key),
        !op.puts_anew(key),
    ensures
        before.entries[key].last_change.nanos <= after.entries[key].last_change.nanos,
{
    let times = lemma_operation_times(op, before, after, key);
    lemma_later_reading(before.clock, after.clock, times);
    if after.entries[key].last_change != before.entries[key].last_change {
        assert(before.clock.shows(before.entries[key].last_change));
        assert(times[0] == after.entries[key].last_change);
    }
}

/// A change restarts the timeout of an entry: its time of the last change becomes what the clock
/// of the store showed during the change, later than which it has shown nothing before, and the
/// entry outlives every search that is made before the timeout has passed since then.
pub proof fn law_change_restarts_timeout<V: LiveValue>(
    op: Operation<V>,
    before: StoreState<V>,
    after: StoreState<V>,
    searched: StoreState<V>,
    now: Instant,
    locked: Seq<Uuid>,
    key: Uuid,
)
    requires
        op.leads(before, after),
        op.writes(before, key) is Some,
        searched.is_expired(after.at(searched.clock), expire_min(after.options, now), locked),
        after.options.expire_mode matches ExpireMode::Timeout(span) && now.nanos
            <= after.entries[key].last_change.nanos + span.nanos,
    ensures
        after.clock.reads(before.clock, seq![after.entries[key].last_change]),
        forall|reading: Instant| #[trigger]
            before.clock.shows(reading) ==> reading.nanos <= after.entries[key].last_change.nanos,
        searched.fetched(key) == after.fetched(key),
{
    let last_change = after.entries[key].last_change;
    lemma_later_reading(before.clock, after.clock, seq![last_change]);
    assert(seq![last_change][0] == last_change);
    law_recent_entry_survives(after.at(searched.clock), searched, now, locked, key);
}

/// Whether the updates of every entry, of those in the store and of those that have left it,
/// lead to what the entry is or was in the end.
pub open spec fn all_tell<V: LiveValue>(store: StoreState<V>) -> bool {
    &&& forall|key: Uuid| #[trigger] store.has(key) ==> store.entries[key].tells()
    &&& forall|j: int| 0 <= j < store.retired.len() ==> (#[trigger] store.retired[j]).1.tells()
}

/// The updates of every entry lead to what the entry is, and its times were read off the clock:
/// this holds of an empty store.
pub proof fn law_empty_store_tells<V: LiveValue>(
    store: StoreState<V>,
    options: StoreOptions,
    on_expire: bool,
)
    requires
        store.is_fresh(options, on_expire),
    ensures
        all_apart(store),
        all_timed(store),
        all_tell(store),
{
}

/// The updates of every entry lead to what the entry is: every operation keeps it so.
pub proof fn law_every_operation_tells<V: LiveValue>(
    op: Operation<V>,
    before: StoreState<V>,
    after: StoreState<V>,
)
    requires
        op.leads(before, after),
        all_timed(before),
        all_tell(before),
    ensures
        all_tell(after),
{
    assert forall|key: Uuid| #[trigger] after.has(key) implies after.entries[key].tells() by {
        lemma_key_tells(op, before, after, key);
    }
    assert forall|j: int| 0 <= j < after.retired.len() implies (
    #[trigger] after.retired[j]).1.tells() by {
        lemma_retired_tells(op, before, after, j);
    }
}

proof fn lemma_key_tells<V: LiveValue>(
    op: Operation<V>,
    before: StoreState<V>,
    after: StoreState<V>,
    key: Uuid,
)
    requires
        op.leads(before, after),
        all_timed(before),
        all_tell(before),
        after.has(key),
    ensures
        after.entries[key].tells(),
{
    let raw = after.entries[key];
    if raw.channel.sent() == Seq::<Update<V>>::empty() {
        lemma_new_tells(raw);
    } else if before.has(key) && raw != before.entries[key] {
        let old = before.entries[key];
        let first = choose|first: Entry<V>| old.tells_from(first);
        law_last_change_never_decreases(op, before, after, key);
        match op {
            Operation::Assign { val, .. } => lemma_changed_tells(old, raw, val, None, None, first),
            Operation::Insert { val, .. } => lemma_changed_tells(old, raw, val, None, None, first),
            Operation::Mutate { mutn, outcome, .. } => lemma_changed_tells(
                old,
                raw,
                outcome->Ok_0,
                None,
                Some(mutn),
                first,
            ),
            Operation::MutateHeld { mutn, outcome, .. } => lemma_changed_tells(
                old,
                raw,
                outcome->Ok_0,
                None,
                Some(mutn),
                first,
            ),
            Operation::SetHeld { val, msg, .. } => lemma_changed_tells(
                old,
                raw,
                val,
                msg,
                None,
                first,
            ),
            Operation::Broadcast { msg, .. } => lemma_sending_tells(
                old,
                raw,
                Update::Message { msg, val: old.entry() },
                first,
            ),
            _ => {},
        }
        assert(raw.tells_from(first));
    }
}

proof fn lemma_retired_tells<V: LiveValue>(
    op: Operation<V>,
    before: StoreState<V>,
    after: StoreState<V>,
    j: int,
)
    requires
        op.leads(before, after),
        all_tell(before),
        0 <= j < after.retired.len(),
    ensures
        after.retired[j].1.tells(),
{
    if j < before.retired.len() {
        assert(after.retired[j] == before.retired[j]);
    } else {
        match op {
            Operation::Remove { key, .. } => lemma_removed_tells(before, after, key, None),
            Operation::DeleteHeld { key, msg, .. } => lemma_removed_tells(before, after, key, msg),
            Operation::Expire { .. } => {
                let gone = after.retired_since(before);
                let i = j - before.retired.len();
                assert(gone[i] == after.retired[j]);
                assert(keys_of(gone)[i] == gone[i].0);
                assert(keys_of(gone).contains(gone[i].0));
                assert(before.has(gone[i].0));
            },
            Operation::Init { key, .. } => {
                assert(before.has(key));
            },
            _ => {},
        }
    }
}

proof fn lemma_removed_tells<V: LiveValue>(
    before: StoreState<V>,
    after: StoreState<V>,
    key: Uuid,
    msg: Option<V::Message>,
)
    requires
        all_tell(before),
        after.is_removed_from(before, key, msg),
    ensures
        after.retired.last().1.tells(),
{
    let old = before.entries[key];
    assert(before.has(key));
    let first = choose|first: Entry<V>| old.tells_from(first);
    let last = after.retired.last().1;
    lemma_sending_tells(old, last, Update::Remove { msg, val: old.value, key }, first);
    assert(last.tells_from(first));
}

/// Two changes of an entry with no change in between fit together: what the entry was before
/// the later is what it was after the earlier.
pub proof fn law_consecutive_changes_fit<V: LiveValue>(raw: RawEntry<V>, i: int, j: int)
    requires
        raw.tells(),
        0 <= i < j < raw.channel.sent().len(),
        is_change(raw.channel.sent()[i]),
        is_change(raw.channel.sent()[j]),
        forall|k: int| i < k < j ==> !is_change(#[trigger] raw.channel.sent()[k]),
    ensures
        old_of(raw.channel.sent()[j]) == new_of(raw.channel.sent()[i]),
{
    let sent = raw.channel.sent();
    let first = choose|first: Entry<V>| raw.tells_from(first);
    lemma_change_in_history(first, sent, i);
    lemma_change_in_history(first, sent, j);
    lemma_replay_without_change(first, sent, i + 1, j);
}

/// All changes of an entry carry its one time of creation, and the time of its last change never
/// decreases from one to the other.
pub proof fn law_changes_go_on_in_time<V: LiveValue>(raw: RawEntry<V>, i: int, j: int)
    requires
        raw.tells(),
        0 <= i <= j < raw.channel.sent().len(),
        is_change(raw.channel.sent()[i]),
        is_change(raw.channel.sent()[j]),
    ensures
        old_of(raw.channel.sent()[i]).create_time == raw.create_time,
        new_of(raw.channel.sent()[i]).create_time == raw.create_time,
        old_of(raw.channel.sent()[i]).last_change.nanos <= new_of(
            raw.channel.sent()[i],
        ).last_change.nanos,
        new_of(raw.channel.sent()[i]).last_change.nanos <= new_of(
            raw.channel.sent()[j],
        ).last_change.nanos,
        new_of(raw.channel.sent()[j]).last_change.nanos <= raw.last_change.nanos,
{
    let sent = raw.channel.sent();
    let n = sent.len() as int;
    let first = choose|first: Entry<V>| raw.tells_from(first);
    lemma_change_in_history(first, sent, i);
    lemma_change_in_history(first, sent, j);
    lemma_replay_goes_on(first, sent, i + 1, j + 1);
    lemma_replay_goes_on(first, sent, j + 1, n);
    assert(sent.take(n) =~= sent);
}

/// Whether a store goes through `states` by the operations `ops`.
pub open spec fn is_run<V: LiveValue>(
    states: Seq<StoreState<V>>,
    ops: Seq<Operation<V>>,
) -> bool {
    &&& states.len() == ops.len() + 1
    &&& forall|i: int|
        0 <= i < ops.len() ==> (#[trigger] ops[i]).leads(states[i], states[i + 1])
}

/// Whether an entry that is at the key in the beginning stays in the store all along.
pub open spec fn stays_at<V: LiveValue>(
    states: Seq<StoreState<V>>,
    ops: Seq<Operation<V>>,
    key: Uuid,
) -> bool {
    &&& forall|i: int| 0 <= i < states.len() ==> (#[trigger] states[i]).has(key)
    &&& forall|i: int| 0 <= i < ops.len() ==> !(#[trigger] ops[i]).puts_anew(key)
}

/// A run without its last operation is a run, and what stays all along stays until then.
proof fn lemma_shorter_run<V: LiveValue>(
    states: Seq<StoreState<V>>,
    ops: Seq<Operation<V>>,
    key: Uuid,
)
    requires
        is_run(states, ops),
        ops.len() > 0,
    ensures
        is_run(states.drop_last(), ops.drop_last()),
        stays_at(states, ops, key) ==> stays_at(states.drop_last(), ops.drop_last(), key),
        ops.last().leads(states.drop_last().last(), states.last()),
{
    let n = ops.len() - 1;
    assert(ops[n].leads(states[n], states[n + 1]));
    assert forall|i: int| 0 <= i < n implies (#[trigger] ops.drop_last()[i]).leads(
        states.drop_last()[i],
        states.drop_last()[i + 1],
    ) by {
        assert(ops[i].leads(states[i], states[i + 1]));
    }
    if stays_at(states, ops, key) {
        assert forall|i: int| 0 <= i < n implies !(#[trigger] ops.drop_last()[i]).puts_anew(
            key,
        ) by {
            assert(!ops[i].puts_anew(key));
        }
        assert forall|i: int| 0 <= i <= n implies (#[trigger] states.drop_last()[i]).has(key) by {
            assert(states[i].has(key));
        }
    }
}

/// In a store that was just made in the beginning, no two entries have the same lock, the times of
/// every entry are readings of the clock, and the updates of every entry lead to what it is,
/// whatever operations were done. To hand a function a time that was not read off the clock is
/// none of them.
pub proof fn law_every_run_tells<V: LiveValue>(
    states: Seq<StoreState<V>>,
    ops: Seq<Operation<V>>,
)
    requires
        is_run(states, ops),
        states[0].is_fresh(states[0].options, states[0].on_expire),
    ensures
        all_apart(states.last()),
        all_timed(states.last()),
        all_tell(states.last()),
    decreases ops.len(),
{
    if ops.len() > 0 {
        lemma_shorter_run(states, ops, arbitrary());
        law_every_run_tells(states.drop_last(), ops.drop_last());
        law_every_operation_keeps_locks_apart(
            ops.last(),
            states.drop_last().last(),
            states.last(),
        );
        law_every_operation_keeps_time(ops.last(), states.drop_last().last(), states.last());
        law_every_operation_tells(ops.last(), states.drop_last().last(), states.last());
    }
}

/// For as long as somebody holds the lock of an entry, the entry stays in the store as the
/// holder left it, whatever others do that neither come with a guard of the lock nor get one.
pub proof fn law_held_entry_stays_throughout<V: LiveValue>(
    states: Seq<StoreState<V>>,
    ops: Seq<Operation<V>>,
    key: Uuid,
)
    requires
        is_run(states, ops),
        states[0].has(key),
        forall|i: int|
            0 <= i < ops.len() ==> {
                &&& !(#[trigger] ops[i]).had_lock_of(states[i], key)
                &&& !ops[i].puts_anew(key)
            },
    ensures
        states.last().fetched(key) == states[0].fetched(key),
        states.last().entries[key].lock == states[0].entries[key].lock,
    decreases ops.len(),
{
    if ops.len() > 0 {
        let n = ops.len() - 1;
        lemma_shorter_run(states, ops, key);
        assert forall|i: int| 0 <= i < n implies !(#[trigger] ops.drop_last()[i]).had_lock_of(
            states.drop_last()[i],
            key,
        ) && !ops.drop_last()[i].puts_anew(key) by {
            assert(!ops[i].had_lock_of(states[i], key));
        }
        law_held_entry_stays_throughout(states.drop_last(), ops.drop_last(), key);
        assert(!ops[n].had_lock_of(states[n], key));
        law_held_entry_stays(ops[n], states[n], states[n + 1], key);
    }
}

/// A subscriber that knew the entry when it subscribed and then follows the updates that are
/// sent from that moment on knows the entry for as long as it is in the store.
pub proof fn law_watch_keeps_up<V: LiveValue>(
    states: Seq<StoreState<V>>,
    ops: Seq<Operation<V>>,
    key: Uuid,
    watch: Watch<V>,
)
    requires
        is_run(states, ops),
        stays_at(states, ops, key),
        watch.origin() == states[0].entries[key].channel,
    ensures
        states.last().entries[key].channel.sender() == watch.origin().sender(),
        watch.origin().sent().is_prefix_of(states.last().entries[key].channel.sent()),
        replay(
            states[0].entries[key].entry(),
            states.last().entries[key].channel.sent().skip(watch.origin().sent().len() as int),
        ) == states.last().entries[key].entry(),
    decreases ops.len(),
{
    let from = watch.origin().sent().len() as int;
    assert(states[0].has(key));
    if ops.len() == 0 {
        assert(states[0].entries[key].channel.sent().skip(from) =~= Seq::<Update<V>>::empty());
    } else {
        let n = ops.len() - 1;
        lemma_shorter_run(states, ops, key);
        law_watch_keeps_up(states.drop_last(), ops.drop_last(), key, watch);
        assert(states[n].has(key) && states[n + 1].has(key) && !ops[n].puts_anew(key));
        let before = states[n].entries[key];
        let after = states[n + 1].entries[key];
        law_entry_keeps_identity(ops[n], states[n], states[n + 1], key);
        let early = before.channel.sent().skip(from);
        let late = after.channel.sent().skip(from);
        if after.channel.sent().len() == before.channel.sent().len() {
            assert(after.channel.sent() =~= before.channel.sent());
        } else {
            assert(late.drop_last() =~= early);
            assert(late.last() == after.channel.sent().last());
        }
    }
}

/// The mutations that the operations carried out on the entry at the key, each with the value
/// that it came to, in order.
pub open spec fn mutations_made<V: LiveValue>(
    states: Seq<StoreState<V>>,
    ops: Seq<Operation<V>>,
    key: Uuid,
) -> Seq<(V::Mutation, V)>
    decreases ops.len(),
{
    if ops.len() == 0 {
        Seq::empty()
    } else {
        let before = mutations_made(states.drop_last(), ops.drop_last(), key);
        let state = states[ops.len() - 1];
        match ops.last().mutation(state, key) {
            Some(mutn) => before.push((mutn, ops.last().writes(state, key)->0)),
            None => before,
        }
    }
}

/// No mutation is lost: where an entry is changed by mutations alone, the updates tell of all of
/// them, in the order in which they were made and with the values that they came to; each takes
/// the entry that the one before has left, and the last leaves the entry as it is.
pub proof fn law_mutations_fold<V: LiveValue>(
    states: Seq<StoreState<V>>,
    ops: Seq<Operation<V>>,
    key: Uuid,
)
    requires
        is_run(states, ops),
        stays_at(states, ops, key),
        forall|i: int|
            0 <= i < ops.len() && (#[trigger] ops[i]).writes(states[i], key) is Some
                ==> ops[i].mutation(states[i], key) is Some,
    ensures
        states[0].entries[key].channel.sent().is_prefix_of(
            states.last().entries[key].channel.sent(),
        ),
        ({
            let told = states.last().entries[key].channel.sent().skip(
                states[0].entries[key].channel.sent().len() as int,
            );
            &&& is_fold(states[0].entries[key].entry(), told, states.last().entries[key].entry())
            &&& mutations_told(told) == mutations_made(states, ops, key)
        }),
    decreases ops.len(),
{
    let first = states[0].entries[key];
    let from = first.channel.sent().len() as int;
    assert(states[0].has(key));
    if ops.len() == 0 {
        assert(first.channel.sent().skip(from) =~= Seq::<Update<V>>::empty());
    } else {
        let n = ops.len() - 1;
        lemma_shorter_run(states, ops, key);
        assert forall|i: int|
            0 <= i < n && (#[trigger] ops.drop_last()[i]).writes(
                states.drop_last()[i],
                key,
            ) is Some implies ops.drop_last()[i].mutation(states.drop_last()[i], key) is Some by {
            assert(ops[i].writes(states[i], key) is Some);
        }
        law_mutations_fold(states.drop_last(), ops.drop_last(), key);
        assert(states[n].has(key) && states[n + 1].has(key) && !ops[n].puts_anew(key));
        assert(ops[n].writes(states[n], key) is Some ==> ops[n].mutation(
            states[n],
            key,
        ) is Some);
        let before = states[n].entries[key];
        let after = states[n + 1].entries[key];
        law_entry_keeps_identity(ops[n], states[n], states[n + 1], key);
        let early = before.channel.sent().skip(from);
        let late = after.channel.sent().skip(from);
        if after.channel.sent().len() == before.channel.sent().len() {
            assert(after.channel.sent() =~= before.channel.sent());
        } else {
            assert(late.drop_last() =~= early);
            assert(late.last() == after.channel.sent().last());
        }
    }
}

/// A subscriber that keeps pace gets what was sent since it subscribed, in order and nothing
/// else, and is told of the end, again and again, once the entry is gone. That the channel
/// delivers in order what is sent on it is the part that rests on the channel.
pub proof fn law_subscriber_gets_what_was_sent<V: LiveValue>(
    watch: Watch<V>,
    channel: Channel<V>,
    received: Seq<Received<V>>,
)
    requires
        watch.receives(channel, received),
    ensures
        answers(received).len() == received.len(),
        ({
            let since = channel.sent().skip(watch.origin().sent().len() as int);
            forall|i: int|
                0 <= i < received.len() ==> #[trigger] answers(received)[i] == if i < since.len() {
                    Some(since[i])
                } else {
                    None
                }
        }),
    decreases received.len(),
{
    if received.len() > 0 {
        let earlier = received.drop_last();
        assert forall|i: int| 0 <= i < earlier.len() implies #[trigger] earlier[i]
            == received[i] by {}
        law_subscriber_gets_what_was_sent(watch, channel, earlier);
    }
}

/// Each store that was added is found by the type it was added for, and by no other type is any
/// store found.
pub proof fn law_added_store_is_found<S>(
    found: Map<TypeId, S>,
    stores: Seq<(TypeId, S)>,
    id: TypeId,
)
    requires
        is_found_by_type(found, stores),
    ensures
        found.contains_key(id) <==> exists|i: int|
            0 <= i < stores.len() && (#[trigger] stores[i]).0 == id,
        forall|i: int|
            0 <= i < stores.len() && (#[trigger] stores[i]).0 == id ==> found[id] == stores[i].1,
{
}

/// Once the task that searches for expired entries has ended, it does nothing more.
pub proof fn law_stopped_task_stays_stopped(event: ExpireEvent)
    ensures
        expire_step(ExpirePhase::Stopped, event) == (ExpirePhase::Stopped, ExpireAction::Stop),
{
}

/// The task searches a store only if the store is still there, and never at the first tick.
pub proof fn law_task_checks_living_stores(phase: ExpirePhase, event: ExpireEvent)
    ensures
        expire_step(phase, event).1 == ExpireAction::Check <==> {
            &&& phase == ExpirePhase::Running
            &&& event == (ExpireEvent::Tick { alive: true })
        },
{
}

} // verus!
