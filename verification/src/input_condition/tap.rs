//! Condition that fires on a short press.

use vstd::prelude::*;
use crate::action_value::ActionValue;
use crate::input_action::saturating_sum;
use crate::input_action::ActionState;
use crate::input_condition::primitives::Actuation;
use crate::input_condition::primitives::HeldTimer;

verus! {

/// Returns [`ActionState::Fired`] on the tick on which the input is released,
/// if it had been actuated for no longer than [`Self::release_time`]
/// nanoseconds, and [`ActionState::Ongoing`] while it is actuated within that
/// time.
///
/// Returns [`ActionState::Idle`] once the press has lasted as long as the
/// release time, and while the input is not actuated.
#[derive(Clone, Copy, Debug)]
pub struct Tap {
    /// Time within which the input has to be released, in nanoseconds.
    pub release_time: u64,
    /// Trigger threshold.
    pub actuation: Actuation,
    /// Measures for how long the input has been held.
    pub held_timer: HeldTimer,
    /// Whether the input was actuated at the last evaluation.
    pub actuated: bool,
}

impl Tap {
    /// The condition before its first evaluation.
    pub open spec fn spec_new(release_time: u64) -> Tap {
        Tap {
            release_time,
            actuation: Actuation::spec_default(),
            held_timer: HeldTimer { duration: 0 },
            actuated: false,
        }
    }

    /// The condition and its answer after a tick of `delta` nanoseconds on
    /// which the input was actuated or not.
    pub open spec fn step(self, delta: u64, actuated: bool) -> (Tap, ActionState) {
        let held = if actuated {
            saturating_sum(self.held_timer.duration, delta)
        } else {
            0
        };
        let state = if self.actuated && !actuated && self.held_timer.duration
            <= self.release_time {
            ActionState::Fired
        } else if held >= self.release_time {
            ActionState::Idle
        } else if actuated {
            ActionState::Ongoing
        } else {
            ActionState::Idle
        };
        (Tap { held_timer: HeldTimer { duration: held }, actuated, ..self }, state)
    }

    /// The condition and its answer after a tick with the given value.
    pub open spec fn spec_evaluate(self, delta: u64, value: ActionValue) -> (Tap, ActionState) {
        self.step(delta, self.actuation.spec_is_actuated(value))
    }

    /// Creates the condition with the default threshold.
    #[must_use]
    pub fn new(release_time: u64) -> (r: Tap)
        ensures
            r == Self::spec_new(release_time),
    {
        Tap {
            release_time,
            actuation: Actuation::default(),
            held_timer: HeldTimer::default(),
            actuated: false,
        }
    }

    /// Sets the trigger threshold.
    #[must_use]
    pub fn with_actuation(self, actuation: Actuation) -> (r: Tap)
        ensures
            r == (Tap { actuation, ..self }),
    {
        let mut condition = self;
        condition.actuation = actuation;
        condition
    }

    /// Evaluates the condition for a tick of `delta` nanoseconds.
    pub fn evaluate(&mut self, delta: u64, value: ActionValue) -> (r: ActionState)
        ensures
            (*final(self), r) == old(self).spec_evaluate(delta, value),
    {
        let last_actuated = self.actuated;
        let last_held = self.held_timer.duration();
        self.actuated = self.actuation.is_actuated(value);
        if self.actuated {
            self.held_timer.update(delta);
        } else {
            self.held_timer.reset();
        }
        if last_actuated && !self.actuated && last_held <= self.release_time {
            ActionState::Fired
        } else if self.held_timer.duration() >= self.release_time {
            ActionState::Idle
        } else if self.actuated {
            ActionState::Ongoing
        } else {
            ActionState::Idle
        }
    }
}

/// A tap fires on a release only, and only where the press had lasted no
/// longer than the release time.
pub proof fn tap_fires_on_short_press_only(tap: Tap, delta: u64, actuated: bool)
    ensures
        tap.step(delta, actuated).1 == ActionState::Fired <==> tap.actuated && !actuated
            && tap.held_timer.duration <= tap.release_time,
{
}

} // verus!
