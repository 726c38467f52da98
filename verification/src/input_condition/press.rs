//! Condition that fires while the input is actuated.

use vstd::prelude::*;
use crate::action_value::ActionValue;
use crate::input_action::ActionState;
use crate::input_condition::primitives::Actuation;

verus! {

/// Returns [`ActionState::Fired`] while the input is actuated, and
/// [`ActionState::Idle`] otherwise.
#[derive(Clone, Copy, Debug)]
pub struct Press {
    /// Trigger threshold.
    pub actuation: Actuation,
}

impl Press {
    /// The answer on a tick on which the input was actuated or not.
    pub open spec fn step(actuated: bool) -> ActionState {
        if actuated {
            ActionState::Fired
        } else {
            ActionState::Idle
        }
    }

    /// The answer for the given value.
    pub open spec fn spec_evaluate(self, value: ActionValue) -> ActionState {
        Self::step(self.actuation.spec_is_actuated(value))
    }

    /// Creates the condition with the given threshold.
    #[must_use]
    pub fn new(actuation: Actuation) -> (r: Press)
        ensures
            r.actuation == actuation,
    {
        Press { actuation }
    }

    /// Evaluates the condition.
    pub fn evaluate(&self, value: ActionValue) -> (r: ActionState)
        ensures
            r == self.spec_evaluate(value),
    {
        if self.actuation.is_actuated(value) {
            ActionState::Fired
        } else {
            ActionState::Idle
        }
    }
}

impl Default for Press {
    fn default() -> (r: Press)
        ensures
            r.actuation == Actuation::spec_default(),
    {
        Press { actuation: Actuation::default() }
    }
}

} // verus!
