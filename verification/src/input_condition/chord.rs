//! Condition that requires another action to be active.

use vstd::prelude::*;
use crate::input_action::state_in;
use crate::input_action::ActionData;
use crate::input_action::ActionState;
use crate::input_action::ActionsData;

verus! {

/// Returns [`ActionState::Fired`] while the other action is
/// [`ActionState::Ongoing`] or [`ActionState::Fired`], and
/// [`ActionState::Idle`] otherwise.
///
/// An action with several chords fires only while all of them do.
#[derive(Clone, Copy, Debug, PartialEq, Eq, Structural)]
pub struct Chord {
    /// Identity of the action that has to be active.
    pub action: u32,
}

impl Chord {
    /// The answer while the actions are in the given states.
    pub open spec fn spec_evaluate(self, actions: Seq<(u32, ActionData)>) -> ActionState {
        if state_in(actions, self.action).spec_is_active() {
            ActionState::Fired
        } else {
            ActionState::Idle
        }
    }

    /// Creates a chord with the given action.
    #[must_use]
    pub fn new(action: u32) -> (r: Chord)
        ensures
            r.action == action,
    {
        Chord { action }
    }

    /// Evaluates the condition.
    pub fn evaluate(&self, actions: &ActionsData) -> (r: ActionState)
        ensures
            r == self.spec_evaluate(actions@),
    {
        if actions.state_of(self.action).is_active() {
            ActionState::Fired
        } else {
            ActionState::Idle
        }
    }
}

} // verus!
