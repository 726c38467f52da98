//! Condition that fires on the tick on which the input stops being actuated.

use vstd::prelude::*;
use crate::action_value::ActionValue;
use crate::input_action::ActionState;
use crate::input_condition::primitives::Actuation;

verus! {

/// Returns [`ActionState::Fired`] on the tick on which the input goes from
/// actuated to not actuated, and [`ActionState::Idle`] otherwise.
#[derive(Clone, Copy, Debug)]
pub struct Release {
    /// Trigger threshold.
    pub actuation: Actuation,
    /// Whether the input was actuated at the last evaluation.
    pub actuated: bool,
}

impl Release {
    /// The condition and its answer after a tick on which the input was
    /// actuated or not.
    pub open spec fn step(self, actuated: bool) -> (Release, ActionState) {
        (
            Release { actuated, ..self },
            if self.actuated && !actuated {
                ActionState::Fired
            } else {
                ActionState::Idle
            },
        )
    }

    /// The condition and its answer after a tick with the given value.
    pub open spec fn spec_evaluate(self, value: ActionValue) -> (Release, ActionState) {
        self.step(self.actuation.spec_is_actuated(value))
    }

    /// Creates the condition with the given threshold.
    #[must_use]
    pub fn new(actuation: Actuation) -> (r: Release)
        ensures
            r == (Release { actuation, actuated: false }),
    {
        Release { actuation, actuated: false }
    }

    /// Evaluates the condition.
    pub fn evaluate(&mut self, value: ActionValue) -> (r: ActionState)
        ensures
            (*final(self), r) == old(self).spec_evaluate(value),
    {
        let previously_actuated = self.actuated;
        self.actuated = self.actuation.is_actuated(value);
        if previously_actuated && !self.actuated {
            ActionState::Fired
        } else {
            ActionState::Idle
        }
    }
}

impl Default for Release {
    fn default() -> (r: Release)
        ensures
            r == (Release { actuation: Actuation::spec_default(), actuated: false }),
    {
        Release { actuation: Actuation::default(), actuated: false }
    }
}

} // verus!
