//! What the updates of an entry tell a subscriber that keeps track of them.

use vstd::prelude::*;

use crate::live::{Entry, LiveValue, Update};
use crate::raw::RawEntry;

verus! {

/// What a subscriber that knows the entry as `first` takes it to be after some updates.
pub open spec fn replay<V: LiveValue>(first: Entry<V>, updates: Seq<Update<V>>) -> Entry<V>
    decreases updates.len(),
{
    if updates.len() == 0 {
        first
    } else {
        match updates.last() {
            Update::Overwrite { new, .. } => new,
            Update::Mutate { new, .. } => new,
            _ => replay(first, updates.drop_last()),
        }
    }
}

/// Whether an update tells that the value of the entry has changed.
pub open spec fn is_change<V: LiveValue>(update: Update<V>) -> bool {
    update is Overwrite || update is Mutate
}

/// What the entry was before the change that an update tells of.
pub open spec fn old_of<V: LiveValue>(update: Update<V>) -> Entry<V>
    recommends
        is_change(update),
{
    match update {
        Update::Overwrite { old, .. } => old,
        Update::Mutate { old, .. } => old,
        _ => arbitrary(),
    }
}

/// What the entry was after the change that an update tells of.
pub open spec fn new_of<V: LiveValue>(update: Update<V>) -> Entry<V>
    recommends
        is_change(update),
{
    match update {
        Update::Overwrite { new, .. } => new,
        Update::Mutate { new, .. } => new,
        _ => arbitrary(),
    }
}

/// Whether each of the updates agrees with the ones before about what the entry was when the
/// update was sent, and no change alters the time of creation or goes back in time.
pub open spec fn is_history<V: LiveValue>(first: Entry<V>, updates: Seq<Update<V>>) -> bool
    decreases updates.len(),
{
    updates.len() > 0 ==> {
        let before = replay(first, updates.drop_last());
        &&& is_history(first, updates.drop_last())
        &&& match updates.last() {
            Update::Overwrite { old, new, .. } => old == before && is_successor(new, before),
            Update::Mutate { old, new, .. } => old == before && is_successor(new, before),
            Update::Message { val, .. } => val == before,
            Update::Remove { val, .. } => val == before.value,
        }
    }
}

/// Whether an entry can be what `before` is after a change: made at the same time, and changed no
/// earlier.
pub open spec fn is_successor<V>(after: Entry<V>, before: Entry<V>) -> bool {
    &&& after.create_time == before.create_time
    &&& before.last_change.nanos <= after.last_change.nanos
}

impl<V: LiveValue> RawEntry<V> {
    /// Whether the updates that were sent lead from `first` to what the entry is.
    pub open spec fn tells_from(self, first: Entry<V>) -> bool {
        &&& is_history(first, self.channel.sent())
        &&& replay(first, self.channel.sent()) == self.entry()
    }

    /// Whether the updates that were sent lead to what the entry is.
    pub open spec fn tells(self) -> bool {
        exists|first: Entry<V>| self.tells_from(first)
    }
}

/// An entry that was just made has nothing to tell.
pub proof fn lemma_new_tells<V: LiveValue>(raw: RawEntry<V>)
    requires
        raw.channel.sent() == Seq::<Update<V>>::empty(),
    ensures
        raw.tells_from(raw.entry()),
{
}

/// A change of an entry that is no earlier than the last one is told.
pub proof fn lemma_changed_tells<V: LiveValue>(
    before: RawEntry<V>,
    after: RawEntry<V>,
    val: V,
    msg: Option<V::Message>,
    mutn: Option<V::Mutation>,
    first: Entry<V>,
)
    requires
        before.tells_from(first),
        after.is_changed(before, val, msg, mutn),
        before.last_change.nanos <= after.last_change.nanos,
    ensures
        after.tells_from(first),
{
    assert(after.channel.sent().drop_last() =~= before.channel.sent());
}

/// A message and the announcement of a removal leave what the updates tell as it was.
pub proof fn lemma_sending_tells<V: LiveValue>(
    before: RawEntry<V>,
    after: RawEntry<V>,
    update: Update<V>,
    first: Entry<V>,
)
    requires
        before.tells_from(first),
        after.is_after_sending(before, update),
        match update {
            Update::Message { val, .. } => val == before.entry(),
            Update::Remove { val, .. } => val == before.value,
            _ => false,
        },
    ensures
        after.tells_from(first),
{
    assert(after.channel.sent().drop_last() =~= before.channel.sent());
}

/// The updates up to some point are a history too.
pub proof fn lemma_history_so_far<V: LiveValue>(first: Entry<V>, updates: Seq<Update<V>>, n: int)
    requires
        is_history(first, updates),
        0 <= n <= updates.len(),
    ensures
        is_history(first, updates.take(n)),
    decreases updates.len() - n,
{
    if n < updates.len() {
        lemma_history_so_far(first, updates, n + 1);
        assert(updates.take(n + 1).drop_last() =~= updates.take(n));
    } else {
        assert(updates.take(n) =~= updates);
    }
}

/// As updates go on, what they lead to keeps its time of creation, and the time of its last
/// change does not decrease.
pub proof fn lemma_replay_goes_on<V: LiveValue>(
    first: Entry<V>,
    updates: Seq<Update<V>>,
    m: int,
    n: int,
)
    requires
        is_history(first, updates),
        0 <= m <= n <= updates.len(),
    ensures
        is_successor(replay(first, updates.take(n)), replay(first, updates.take(m))),
    decreases n - m,
{
    if m < n {
        lemma_replay_goes_on(first, updates, m, n - 1);
        lemma_history_so_far(first, updates, n);
        assert(updates.take(n).drop_last() =~= updates.take(n - 1));
    }
}

/// Updates that tell of no change lead nowhere else.
pub proof fn lemma_replay_without_change<V: LiveValue>(
    first: Entry<V>,
    updates: Seq<Update<V>>,
    m: int,
    n: int,
)
    requires
        0 <= m <= n <= updates.len(),
        forall|k: int| m <= k < n ==> !is_change(#[trigger] updates[k]),
    ensures
        replay(first, updates.take(n)) == replay(first, updates.take(m)),
    decreases n - m,
{
    if m < n {
        lemma_replay_without_change(first, updates, m, n - 1);
        assert(updates.take(n).drop_last() =~= updates.take(n - 1));
        assert(!is_change(updates[n - 1]));
    }
}

/// A change that a history tells of starts at what the updates before it lead to, and ends at
/// what the updates up to it lead to.
pub proof fn lemma_change_in_history<V: LiveValue>(
    first: Entry<V>,
    updates: Seq<Update<V>>,
    n: int,
)
    requires
        is_history(first, updates),
        0 <= n < updates.len(),
        is_change(updates[n]),
    ensures
        old_of(updates[n]) == replay(first, updates.take(n)),
        new_of(updates[n]) == replay(first, updates.take(n + 1)),
        is_successor(new_of(updates[n]), old_of(updates[n])),
{
    lemma_history_so_far(first, updates, n + 1);
    assert(updates.take(n + 1).drop_last() =~= updates.take(n));
}

/// The mutations that updates tell of, each with the value that it came to.
pub open spec fn mutations_told<V: LiveValue>(updates: Seq<Update<V>>) -> Seq<(V::Mutation, V)>
    decreases updates.len(),
{
    if updates.len() == 0 {
        Seq::empty()
    } else {
        let before = mutations_told(updates.drop_last());
        match updates.last() {
            Update::Mutate { mutn, new, .. } => before.push((mutn, *new.value)),
            _ => before,
        }
    }
}

/// Whether the updates lead from `first` to `last` by mutations alone: each takes the entry that
/// the one before has left, and leaves the value that mutating that entry comes to.
pub open spec fn is_fold<V: LiveValue>(
    first: Entry<V>,
    updates: Seq<Update<V>>,
    last: Entry<V>,
) -> bool
    decreases updates.len(),
{
    if updates.len() == 0 {
        first == last
    } else {
        match updates.last() {
            Update::Mutate { mutn, new, old } => {
                &&& new == last
                &&& call_ensures(V::mutate, (&old, &mutn), Ok::<V, V::MutError>(*new.value))
                &&& is_fold(first, updates.drop_last(), old)
            },
            Update::Message { .. } => is_fold(first, updates.drop_last(), last),
            _ => false,
        }
    }
}

} // verus!
