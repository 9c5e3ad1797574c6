//! The task that searches a store for expired entries from time to time.

use vstd::prelude::*;

use crate::options::StoreOptions;
use crate::time::Duration;

verus! {

/// Whether a loop goes on.
#[derive(Copy, Clone, Debug, PartialEq, Eq, Structural)]
pub enum Control {
    Break,
    Continue,
}

/// What the task waits for.
#[derive(Copy, Clone, Debug, PartialEq, Eq, Structural)]
pub enum ExpireEvent {
    /// A period is over. The store is `alive` as long as somebody else holds it.
    Tick { alive: bool },
    /// The program was told to stop.
    Interrupt,
}

/// What the task does next.
#[derive(Copy, Clone, Debug, PartialEq, Eq, Structural)]
pub enum ExpireAction {
    /// Wait for the next event.
    Wait,
    /// Search the store for expired entries, then wait for the next event.
    Check,
    /// End.
    Stop,
}

/// How far the task has come.
#[derive(Copy, Clone, Debug, PartialEq, Eq, Structural)]
pub enum ExpirePhase {
    /// The first period has not begun. It begins with a tick that comes at once.
    Starting,
    /// The task searches the store whenever a period is over.
    Running,
    /// The task has ended.
    Stopped,
}

/// The state of the task.
pub struct ExpireTask {
    pub period: Duration,
    pub phase: ExpirePhase,
}

/// The phase and the action that follow an event.
pub open spec fn expire_step(phase: ExpirePhase, event: ExpireEvent) -> (
    ExpirePhase,
    ExpireAction,
) {
    match (phase, event) {
        (ExpirePhase::Starting, ExpireEvent::Tick { .. }) => (
            ExpirePhase::Running,
            ExpireAction::Wait,
        ),
        (ExpirePhase::Starting, ExpireEvent::Interrupt) => (
            ExpirePhase::Starting,
            ExpireAction::Wait,
        ),
        (ExpirePhase::Running, ExpireEvent::Tick { alive: true }) => (
            ExpirePhase::Running,
            ExpireAction::Check,
        ),
        _ => (ExpirePhase::Stopped, ExpireAction::Stop),
    }
}

impl ExpireTask {
    /// The task for a store with the given settings, if they ask for one.
    pub fn start(options: &StoreOptions) -> (task: Option<ExpireTask>)
        ensures
            task is Some <==> options.expire_check_freq is Some,
            task matches Some(task) ==> {
                &&& Some(task.period) == options.expire_check_freq
                &&& task.phase == ExpirePhase::Starting
            },
    {
        match options.expire_check_freq {
            Some(period) => Some(ExpireTask { period, phase: ExpirePhase::Starting }),
            None => None,
        }
    }

    /// What the task does about an event. The first tick only starts the first period, and
    /// until then nothing else is heeded. After that the task ends when the store is gone or
    /// the program was told to stop, and otherwise searches the store.
    pub fn step(&mut self, event: ExpireEvent) -> (action: ExpireAction)
        ensures
            final(self).period == old(self).period,
            (final(self).phase, action) == expire_step(old(self).phase, event),
    {
        match self.phase {
            ExpirePhase::Starting => {
                match event {
                    ExpireEvent::Tick { .. } => {
                        self.phase = ExpirePhase::Running;
                    },
                    ExpireEvent::Interrupt => {},
                }
                ExpireAction::Wait
            },
            ExpirePhase::Running => {
                match event {
                    ExpireEvent::Tick { alive: true } => ExpireAction::Check,
                    _ => {
                        self.phase = ExpirePhase::Stopped;
                        ExpireAction::Stop
                    },
                }
            },
            ExpirePhase::Stopped => ExpireAction::Stop,
        }
    }

    /// Whether the task goes on.
    pub fn control(&self) -> (control: Control)
        ensures
            control == if self.phase == ExpirePhase::Stopped {
                Control::Break
            } else {
                Control::Continue
            },
    {
        if self.phase == ExpirePhase::Stopped {
            Control::Break
        } else {
            Control::Continue
        }
    }
}

} // verus!
