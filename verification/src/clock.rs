//! A clock and the record of what was read off it.

use vstd::prelude::*;

use crate::time::Instant;

verus! {

/// `std::time::Instant`, carried as an opaque value.
#[verifier::external_type_specification]
#[verifier::external_body]
pub struct ExStdInstant(std::time::Instant);

/// A clock that counts from the moment it was started, and never goes back.
pub struct Clock {
    origin: std::time::Instant,
    readings: Ghost<Seq<Instant>>,
}

impl Clock {
    /// The moment at which the clock was started.
    pub closed spec fn started(self) -> std::time::Instant {
        self.origin
    }

    /// All that was read off the clock, in order.
    pub closed spec fn readings(self) -> Seq<Instant> {
        self.readings@
    }

    /// Whether `reading` was read off the clock.
    pub open spec fn shows(self, reading: Instant) -> bool {
        self.readings().contains(reading)
    }

    /// Whether this is the clock `before` after `times` were read off it, one after the other. None
    /// of them is earlier than what was read before it.
    pub open spec fn reads(self, before: Self, times: Seq<Instant>) -> bool {
        &&& self.started() == before.started()
        &&& self.readings() == before.readings() + times
        &&& forall|i: int, j: int|
            0 <= i < j < self.readings().len() && before.readings().len() <= j ==> (
            #[trigger] self.readings()[i]).nanos <= (#[trigger] self.readings()[j]).nanos
    }

    /// Whether the machine can have given `moment` as the current one.
    pub closed spec fn is_current(moment: std::time::Instant) -> bool {
        call_ensures(std_now, (), moment)
    }

    /// Starts a clock, at the moment that the machine gives as the current one.
    pub fn start() -> (clock: Self)
        ensures
            Clock::is_current(clock.started()),
            clock.readings() == Seq::<Instant>::empty(),
    {
        Clock { origin: std_now(), readings: Ghost(Seq::empty()) }
    }

    /// `std::time::Instant::elapsed` on the moment at which the clock was started: the
    /// nanoseconds that have passed since. The contract records that this was read off the clock
    /// after what was read before, and that it is no less than any of that, since no moment is
    /// earlier than one that was measured before. How much time has passed depends on when the
    /// call is made, and nothing is claimed of it.
    #[verifier::external_body]
    pub(crate) fn elapsed(&mut self) -> (reading: Instant)
        ensures
            final(self).reads(*old(self), seq![reading]),
    {
        Instant { nanos: self.origin.elapsed().as_nanos() }
    }

    /// The moment at which the clock was started.
    pub fn origin(&self) -> (origin: std::time::Instant)
        ensures
            origin == self.started(),
    {
        self.origin
    }
}

/// `std::time::Instant::now`: the current moment. Nothing is claimed of it.
#[verifier::external_body]
fn std_now() -> (now: std::time::Instant) {
    std::time::Instant::now()
}

} // verus!
