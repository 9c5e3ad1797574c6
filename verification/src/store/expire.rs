//! Messages to subscribers, and the search for expired entries.

use vstd::prelude::*;

use crate::expiry::{collects_expired, expire_min, keys_of, tries_each_once};
use crate::key::Uuid;
use crate::live::{Entry, LiveValue};
use crate::operation::{is_step, Operation};
use crate::options::ExpireMode;
use crate::store::LiveStore;
use crate::time::{lemma_reads_nothing, Instant};

verus! {

impl<V: LiveValue> LiveStore<V> {
    /// Sends a message to the subscribers of the entry at the key. If there is no entry, the
    /// message is returned.
    pub fn broadcast(&mut self, key: &Uuid, msg: V::Message) -> (unsent: Option<V::Message>)
        requires
            old(self).wf(),
        ensures
            final(self).wf(),
            final(self)@.is_broadcast(old(self)@, *key, msg),
            unsent == if old(self)@.has(*key) {
                None
            } else {
                Some(msg)
            },
            is_step(old(self)@, final(self)@),
    {
        let unsent = match self.entries.get_mut(key) {
            Some(raw) => {
                raw.broadcast(msg);
                None
            },
            None => Some(msg),
        };
        assert((Operation::Broadcast { key: *key, msg }).leads(old(self)@, self@));
        unsent
    }

    /// Removes the entries that were last changed before `min`, except those at the keys in
    /// `locked`, and returns them.
    pub fn expire_with(&mut self, min: &Instant, locked: &Vec<Uuid>) -> (expired: Vec<
        (Uuid, Entry<V>),
    >)
        requires
            old(self).wf(),
        ensures
            final(self).wf(),
            final(self)@.is_expired(old(self)@, *min, locked@),
            collects_expired(expired@, old(self)@.entries, *min, locked@),
            final(self).attempts() == old(self).attempts(),
    {
        let gone = self.entries.expire(min, locked);
        proof {
            self.retired@ = self.retired@ + gone@;
            assert(self@.retired_since(old(self)@) =~= gone@);
        }
        let mut expired: Vec<(Uuid, Entry<V>)> = Vec::new();
        let mut i: usize = 0;
        while i < gone.len()
            invariant
                i <= gone@.len(),
                expired@.len() == i,
                forall|j: int|
                    0 <= j < i ==> #[trigger] expired@[j] == (gone@[j].0, gone@[j].1.entry()),
            decreases gone@.len() - i,
        {
            expired.push((gone[i].0, Entry::from_raw(&gone[i].1)));
            i += 1;
        }
        assert(keys_of(expired@) =~= keys_of(gone@));
        expired
    }

    /// Removes the entries that were last changed before `min`, except those whose lock is
    /// held.
    pub fn expire_by_timeout(&mut self, min: &Instant)
        requires
            old(self).wf(),
        ensures
            final(self).wf(),
            exists|locked: Seq<Uuid>|
                {
                    &&& #[trigger] final(self)@.is_expired(old(self)@, *min, locked)
                    &&& old(self)@.finds_locked(*min, locked)
                    &&& old(self)@.is_searched(
                        final(self).attempts().since(old(self).attempts()),
                        *min,
                        locked,
                    )
                },
            old(self).attempts().made().is_prefix_of(final(self).attempts().made()),
            is_step(old(self)@, final(self)@),
    {
        let _ = self.collect_expired_by_timeout(min);
    }

    /// Removes the entries that were last changed before `min`, except those whose lock is
    /// held, and returns them.
    pub fn collect_expired_by_timeout(&mut self, min: &Instant) -> (expired: Vec<(Uuid, Entry<V>)>)
        requires
            old(self).wf(),
        ensures
            final(self).wf(),
            exists|locked: Seq<Uuid>|
                {
                    &&& #[trigger] final(self)@.is_expired(old(self)@, *min, locked)
                    &&& old(self)@.finds_locked(*min, locked)
                    &&& old(self)@.is_searched(
                        final(self).attempts().since(old(self).attempts()),
                        *min,
                        locked,
                    )
                    &&& collects_expired(expired@, old(self)@.entries, *min, locked)
                },
            old(self).attempts().made().is_prefix_of(final(self).attempts().made()),
            is_step(old(self)@, final(self)@),
    {
        let locked = self.entries.find_locked(min, &mut self.trials);
        assert(old(self)@.finds_locked(*min, locked@));
        proof {
            let made = self.trials.since(old(self).trials);
            let tried = choose|tried: Seq<Uuid>| #[trigger]
                tries_each_once(tried, made, old(self).entries@, *min, locked@);
            assert(tries_each_once(tried, made, old(self)@.entries, *min, locked@));
            assert(old(self)@.is_searched(made, *min, locked@));
        }
        let expired = self.expire_with(min, &locked);
        proof {
            lemma_reads_nothing(self@.clock);
            assert((Operation::Expire {
                min: *min,
                locked: locked@,
                made: self.trials.since(old(self).trials),
                times: Seq::<Instant>::empty(),
            }).leads(old(self)@, self@));
        }
        expired
    }

    /// Removes the entries that are expired at the time `now`, except those at the keys in
    /// `locked`. Returns them if somebody is to be told of them and there are any.
    pub fn check_expired_with(&mut self, now: &Instant, locked: &Vec<Uuid>) -> (expired: Option<
        Vec<(Uuid, Entry<V>)>,
    >)
        requires
            old(self).wf(),
        ensures
            final(self).wf(),
            final(self)@.is_expired(old(self)@, expire_min(old(self)@.options, *now), locked@),
            final(self).attempts() == old(self).attempts(),
            expired is Some <==> {
                &&& old(self)@.on_expire
                &&& final(self)@.retired_since(old(self)@).len() > 0
            },
            expired matches Some(expired) ==> collects_expired(
                expired@,
                old(self)@.entries,
                expire_min(old(self)@.options, *now),
                locked@,
            ),
    {
        let min = self.expire_min(now);
        let expired = self.expire_with(&min, locked);
        assert(expired@.len() == self@.retired_since(old(self)@).len()) by {
            lemma_same_keys_same_len(
                keys_of(expired@),
                keys_of(self@.retired_since(old(self)@)),
            );
        }
        if self.on_expire && expired.len() > 0 {
            Some(expired)
        } else {
            None
        }
    }

    /// Removes the entries that are expired, except those whose lock is held. Returns them if
    /// somebody is to be told of them and there are any.
    pub fn check_expired(&mut self) -> (expired: Option<Vec<(Uuid, Entry<V>)>>)
        requires
            old(self).wf(),
        ensures
            final(self).wf(),
            exists|now: Instant, locked: Seq<Uuid>|
                {
                    let min = expire_min(old(self)@.options, now);
                    &&& final(self)@.clock.reads(old(self)@.clock, seq![now])
                    &&& #[trigger] final(self)@.is_expired(
                        old(self)@.at(final(self)@.clock),
                        expire_min(old(self)@.options, now),
                        locked,
                    )
                    &&& old(self)@.finds_locked(min, locked)
                    &&& old(self)@.is_searched(
                        final(self).attempts().since(old(self).attempts()),
                        min,
                        locked,
                    )
                    &&& expired matches Some(expired) ==> collects_expired(
                        expired@,
                        old(self)@.entries,
                        min,
                        locked,
                    )
                },
            expired is Some <==> {
                &&& old(self)@.on_expire
                &&& final(self)@.retired_since(old(self)@).len() > 0
            },
            old(self).attempts().made().is_prefix_of(final(self).attempts().made()),
            is_step(old(self)@, final(self)@),
    {
        let now = self.clock.now();
        let min = self.expire_min(&now);
        let locked = self.entries.find_locked(&min, &mut self.trials);
        assert(old(self)@.finds_locked(min, locked@));
        proof {
            let made = self.trials.since(old(self).trials);
            let tried = choose|tried: Seq<Uuid>| #[trigger]
                tries_each_once(tried, made, old(self).entries@, min, locked@);
            assert(tries_each_once(tried, made, old(self)@.entries, min, locked@));
            assert(old(self)@.is_searched(made, min, locked@));
        }
        let expired = self.check_expired_with(&now, &locked);
        assert((Operation::Expire {
            min,
            locked: locked@,
            made: self.trials.since(old(self).trials),
            times: seq![now],
        }).leads(old(self)@, self@));
        expired
    }

    /// The time before which an entry must have been last changed to be expired at `now`.
    fn expire_min(&self, now: &Instant) -> (min: Instant)
        ensures
            min == expire_min(self@.options, *now),
    {
        match self.options.expire_mode {
            ExpireMode::Timeout(span) => now.minus(span),
        }
    }
}

/// Two lists of the same keys that hold each of them once are equally long.
proof fn lemma_same_keys_same_len(left: Seq<Uuid>, right: Seq<Uuid>)
    requires
        left.no_duplicates(),
        right.no_duplicates(),
        forall|key: Uuid| #[trigger] left.contains(key) <==> right.contains(key),
    ensures
        left.len() == right.len(),
{
    left.unique_seq_to_set();
    right.unique_seq_to_set();
    assert(left.to_set() =~= right.to_set());
}

} // verus!
