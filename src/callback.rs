//! The capabilities an alarm drives: actions that notify, and stoppers that a
//! repeating action polls to learn that it should end early.

use vstd::prelude::*;

verus! {

/// A unit of notification work.
pub trait Callback {
    /// Performs the action; `false` asks the alarm to stand down, `true` keeps it armed.
    fn call(&mut self) -> bool;
}

/// A cancellation predicate, polled between the steps of a repeating action.
pub trait Stopper {
    fn should_stop(&mut self) -> bool;
}

/// An action that does nothing and keeps the alarm armed.
pub struct CallbackDoNothing {}

impl CallbackDoNothing {
    pub fn new() -> Self {
        CallbackDoNothing {  }
    }
}

impl Callback for CallbackDoNothing {
    fn call(&mut self) -> (keep_active: bool)
        ensures
            keep_active,
    {
        true
    }
}

/// What a buzzing action does next.
#[derive(Clone, Copy, Debug, PartialEq, Eq, Structural)]
pub enum BuzzStep {
    /// Sound the buzzer once, then poll the stopper.
    Ring,
    /// End the action with this continuation signal.
    Finish(bool),
}

/// The decisions of an action that sounds a buzzer a bounded number of times
/// and stops early when its stopper asks: the caller performs each ring and
/// reports what the stopper answered after it.
pub struct BuzzSession {
    repetitions: u32,
    rung: u32,
}

impl BuzzSession {
    pub closed spec fn spec_repetitions(self) -> u32 {
        self.repetitions
    }

    /// How many rings have been asked for so far.
    pub closed spec fn spec_rung(self) -> u32 {
        self.rung
    }

    pub fn new(repetitions: u32) -> (r: Self)
        ensures
            r.spec_repetitions() == repetitions,
            r.spec_rung() == 0,
    {
        BuzzSession { repetitions, rung: 0 }
    }

    /// The next step, given whether the stopper asked to stop after the last
    /// ring (`false` before the first one).
    pub fn next_step(&mut self, stop_requested: bool) -> (step: BuzzStep)
        ensures
            final(self).spec_repetitions() == old(self).spec_repetitions(),
            stop_requested ==> step == BuzzStep::Finish(false) && *final(self) == *old(self),
            !stop_requested && old(self).spec_rung() < old(self).spec_repetitions() ==> step
                == BuzzStep::Ring && final(self).spec_rung() == old(self).spec_rung() + 1,
            !stop_requested && old(self).spec_rung() >= old(self).spec_repetitions() ==> step
                == BuzzStep::Finish(true) && *final(self) == *old(self),
    {
        if stop_requested {
            BuzzStep::Finish(false)
        } else if self.rung < self.repetitions {
            self.rung = self.rung + 1;
            BuzzStep::Ring
        } else {
            BuzzStep::Finish(true)
        }
    }
}

} // verus!
