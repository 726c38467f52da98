//! Condition that fires at a fixed pace while the input is actuated.

use vstd::prelude::*;
use crate::action_value::ActionValue;
use crate::input_action::saturating_sum;
use crate::input_action::ActionState;
use crate::input_condition::primitives::Actuation;
use crate::input_condition::primitives::HeldTimer;

verus! {

/// Returns [`ActionState::Fired`] each time the input has been actuated for
/// another [`Self::interval`] nanoseconds, [`ActionState::Ongoing`] on the
/// ticks between, and [`ActionState::Idle`] while the input is not actuated.
#[derive(Clone, Copy, Debug)]
pub struct Pulse {
    /// Time between two pulses, in nanoseconds.
    pub interval: u64,
    /// Trigger threshold.
    pub actuation: Actuation,
    /// Measures the time since the last pulse, or since the input became
    /// actuated.
    pub held_timer: HeldTimer,
}

impl Pulse {
    /// The condition before its first evaluation.
    pub open spec fn spec_new(interval: u64) -> Pulse {
        Pulse {
            interval,
            actuation: Actuation::spec_default(),
            held_timer: HeldTimer { duration: 0 },
        }
    }

    /// The condition and its answer after a tick of `delta` nanoseconds on
    /// which the input was actuated or not.
    pub open spec fn step(self, delta: u64, actuated: bool) -> (Pulse, ActionState) {
        if !actuated {
            (Pulse { held_timer: HeldTimer { duration: 0 }, ..self }, ActionState::Idle)
        } else {
            let waited = saturating_sum(self.held_timer.duration, delta);
            if waited >= self.interval {
                (
                    Pulse {
                        held_timer: HeldTimer { duration: (waited - self.interval) as u64 },
                        ..self
                    },
                    ActionState::Fired,
                )
            } else {
                (Pulse { held_timer: HeldTimer { duration: waited }, ..self }, ActionState::Ongoing)
            }
        }
    }

    /// The condition and its answer after a tick with the given value.
    pub open spec fn spec_evaluate(self, delta: u64, value: ActionValue) -> (Pulse, ActionState) {
        self.step(delta, self.actuation.spec_is_actuated(value))
    }

    /// Creates the condition with the default threshold.
    #[must_use]
    pub fn new(interval: u64) -> (r: Pulse)
        ensures
            r == Self::spec_new(interval),
    {
        Pulse { interval, actuation: Actuation::default(), held_timer: HeldTimer::default() }
    }

    /// Sets the trigger threshold.
    #[must_use]
    pub fn with_actuation(self, actuation: Actuation) -> (r: Pulse)
        ensures
            r == (Pulse { actuation, ..self }),
    {
        let mut condition = self;
        condition.actuation = actuation;
        condition
    }

    /// Evaluates the condition for a tick of `delta` nanoseconds.
    pub fn evaluate(&mut self, delta: u64, value: ActionValue) -> (r: ActionState)
        ensures
            (*final(self), r) == old(self).spec_evaluate(delta, value),
    {
        if !self.actuation.is_actuated(value) {
            self.held_timer.reset();
            return ActionState::Idle;
        }
        self.held_timer.update(delta);
        let waited = self.held_timer.duration();
        if waited >= self.interval {
            self.held_timer = HeldTimer { duration: waited - self.interval };
            ActionState::Fired
        } else {
            ActionState::Ongoing
        }
    }
}

/// Between two pulses the time waited stays under the interval: once it is
/// under it, it is so after every tick.
pub proof fn pulse_keeps_pace(pulse: Pulse, delta: u64, actuated: bool)
    requires
        delta <= pulse.interval,
        pulse.held_timer.duration < pulse.interval,
    ensures
        pulse.step(delta, actuated).0.held_timer.duration < pulse.interval,
        pulse.step(delta, actuated).1 == ActionState::Fired <==> actuated
            && pulse.held_timer.duration + delta >= pulse.interval,
{
}

} // verus!
