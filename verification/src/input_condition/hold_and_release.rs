//! Condition that fires when the input is released after a long enough hold.

use vstd::prelude::*;
use crate::action_value::ActionValue;
use crate::input_action::saturating_sum;
use crate::input_action::ActionState;
use crate::input_condition::primitives::Actuation;
use crate::input_condition::primitives::HeldTimer;

verus! {

/// Returns [`ActionState::Ongoing`] while the input is actuated and
/// [`ActionState::Fired`] on the tick on which it is released, if it had been
/// held for [`Self::hold_time`] nanoseconds by then.
///
/// Returns [`ActionState::Idle`] on a release that comes earlier, and while
/// the input is not actuated.
#[derive(Clone, Copy, Debug)]
pub struct HoldAndRelease {
    /// How long the input has to be held before its release causes a trigger,
    /// in nanoseconds.
    pub hold_time: u64,
    /// Trigger threshold.
    pub actuation: Actuation,
    /// Measures for how long the input has been held.
    pub held_timer: HeldTimer,
    /// Whether the input was actuated at the last evaluation.
    pub actuated: bool,
}

impl HoldAndRelease {
    /// The condition before its first evaluation.
    pub open spec fn spec_new(hold_time: u64) -> HoldAndRelease {
        HoldAndRelease {
            hold_time,
            actuation: Actuation::spec_default(),
            held_timer: HeldTimer { duration: 0 },
            actuated: false,
        }
    }

    /// The condition and its answer after a tick of `delta` nanoseconds on
    /// which the input was actuated or not.
    pub open spec fn step(self, delta: u64, actuated: bool) -> (HoldAndRelease, ActionState) {
        if actuated {
            (
                HoldAndRelease {
                    held_timer: HeldTimer {
                        duration: saturating_sum(self.held_timer.duration, delta),
                    },
                    actuated: true,
                    ..self
                },
                ActionState::Ongoing,
            )
        } else {
            (
                HoldAndRelease { held_timer: HeldTimer { duration: 0 }, actuated: false, ..self },
                if self.actuated && self.held_timer.duration >= self.hold_time {
                    ActionState::Fired
                } else {
                    ActionState::Idle
                },
            )
        }
    }

    /// The condition and its answer after a tick with the given value.
    pub open spec fn spec_evaluate(self, delta: u64, value: ActionValue) -> (
        HoldAndRelease,
        ActionState,
    ) {
        self.step(delta, self.actuation.spec_is_actuated(value))
    }

    /// Creates the condition with the default threshold.
    #[must_use]
    pub fn new(hold_time: u64) -> (r: HoldAndRelease)
        ensures
            r == Self::spec_new(hold_time),
    {
        HoldAndRelease {
            hold_time,
            actuation: Actuation::default(),
            held_timer: HeldTimer::default(),
            actuated: false,
        }
    }

    /// Sets the trigger threshold.
    #[must_use]
    pub fn with_actuation(self, actuation: Actuation) -> (r: HoldAndRelease)
        ensures
            r == (HoldAndRelease { actuation, ..self }),
    {
        let mut condition = self;
        condition.actuation = actuation;
        condition
    }

    /// Evaluates the condition for a tick of `delta` nanoseconds.
    pub fn evaluate(&mut self, delta: u64, value: ActionValue) -> (r: ActionState)
        ensures
            (*final(self), r) == old(self).spec_evaluate(delta, value),
    {
        let was_actuated = self.actuated;
        let held = self.held_timer.duration();
        self.actuated = self.actuation.is_actuated(value);
        if self.actuated {
            self.held_timer.update(delta);
            ActionState::Ongoing
        } else {
            self.held_timer.reset();
            if was_actuated && held >= self.hold_time {
                ActionState::Fired
            } else {
                ActionState::Idle
            }
        }
    }
}

/// The condition fires on no tick but that of a release.
pub proof fn fires_on_release_only(condition: HoldAndRelease, delta: u64, actuated: bool)
    ensures
        condition.step(delta, actuated).1 == ActionState::Fired ==> condition.actuated && !actuated
            && condition.held_timer.duration >= condition.hold_time,
        condition.step(delta, actuated).1 == ActionState::Fired || !actuated ==> condition.step(
            delta,
            actuated,
        ).0.held_timer.duration == 0,
{
}

} // verus!
