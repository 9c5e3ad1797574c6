//! The monotonic clock of a store, and the two quantities read off it.

use vstd::prelude::*;

pub use crate::clock::Clock;

verus! {

/// The number of nanoseconds in a second.
pub const NANOS_PER_SEC: u128 = 1_000_000_000;

/// The number of nanoseconds in a millisecond.
pub const NANOS_PER_MILLI: u128 = 1_000_000;

/// A span of time, in nanoseconds.
#[derive(Copy, Clone, Debug, PartialEq, Eq, Structural)]
pub struct Duration {
    pub nanos: u128,
}

impl Duration {
    /// A span of whole seconds.
    pub fn from_secs(secs: u64) -> (span: Self)
        ensures
            span.nanos == secs * NANOS_PER_SEC,
    {
        Duration { nanos: secs as u128 * NANOS_PER_SEC }
    }

    /// A span of whole milliseconds.
    pub fn from_millis(millis: u64) -> (span: Self)
        ensures
            span.nanos == millis * NANOS_PER_MILLI,
    {
        Duration { nanos: millis as u128 * NANOS_PER_MILLI }
    }
}

/// A reading of a [`Clock`], in nanoseconds since that clock was started.
#[derive(Copy, Clone, Debug, PartialEq, Eq, Structural)]
pub struct Instant {
    pub nanos: u128,
}

impl Instant {
    /// Whether this reading was taken before `other`.
    pub fn is_before(&self, other: &Instant) -> (before: bool)
        ensures
            before == (self.nanos < other.nanos),
    {
        self.nanos < other.nanos
    }

    /// The point in time that lies `span` before this one. Nothing lies before the start
    /// of the clock, so that is the earliest point this can give.
    pub fn minus(&self, span: Duration) -> (earlier: Instant)
        ensures
            earlier.nanos == if span.nanos <= self.nanos {
                self.nanos - span.nanos
            } else {
                0
            },
    {
        if span.nanos <= self.nanos {
            Instant { nanos: self.nanos - span.nanos }
        } else {
            Instant { nanos: 0 }
        }
    }
}

impl Clock {
    /// Reads the clock: the time that has passed since it was started, which is up to the
    /// machine.
    pub fn now(&mut self) -> (reading: Instant)
        ensures
            final(self).reads(*old(self), seq![reading]),
    {
        self.elapsed()
    }

    /// Reads the clock twice.
    pub(crate) fn now_twice(&mut self) -> (both: (Instant, Instant))
        ensures
            final(self).reads(*old(self), seq![both.0, both.1]),
    {
        let first = self.now();
        let second = self.now();
        assert(old(self).readings() + seq![first] + seq![second] =~= old(self).readings() + seq![
            first,
            second,
        ]);
        (first, second)
    }
}

/// A clock that was not read has not changed its readings.
pub proof fn lemma_reads_nothing(clock: Clock)
    ensures
        clock.reads(clock, Seq::<Instant>::empty()),
{
    assert(clock.readings() =~= clock.readings() + Seq::<Instant>::empty());
}

/// What is read off a clock is shown by it, and is no earlier than what it has shown before.
pub proof fn lemma_later_reading(before: Clock, after: Clock, times: Seq<Instant>)
    requires
        after.reads(before, times),
    ensures
        forall|reading: Instant| #[trigger] before.shows(reading) ==> after.shows(reading),
        forall|k: int| 0 <= k < times.len() ==> after.shows(#[trigger] times[k]),
        forall|reading: Instant, k: int|
            #![trigger before.shows(reading), times[k]]
            before.shows(reading) && 0 <= k < times.len() ==> reading.nanos <= times[k].nanos,
{
    assert forall|reading: Instant| #[trigger] before.shows(reading) implies after.shows(
        reading,
    ) by {
        let i = before.readings().index_of(reading);
        assert(after.readings()[i] == reading);
    }
    assert forall|k: int| 0 <= k < times.len() implies after.shows(#[trigger] times[k]) by {
        assert(after.readings()[before.readings().len() + k] == times[k]);
    }
    assert forall|reading: Instant, k: int|
        #![trigger before.shows(reading), times[k]]
        before.shows(reading) && 0 <= k < times.len() implies reading.nanos <= times[k].nanos by {
        let i = before.readings().index_of(reading);
        assert(after.readings()[i] == reading);
        assert(after.readings()[before.readings().len() + k] == times[k]);
    }
}

} // verus!
