//! Condition that keeps an action back while another action is active.

use vstd::prelude::*;
use crate::input_action::state_in;
use crate::input_action::ActionData;
use crate::input_action::ActionState;
use crate::input_action::ActionsData;

verus! {

/// Returns [`ActionState::Idle`] while the other action is
/// [`ActionState::Ongoing`] or [`ActionState::Fired`], and
/// [`ActionState::Fired`] otherwise.
///
/// While it answers `Idle` the action is blocked: it is forced to `Idle`, or,
/// where only events are blocked, it keeps its state and value and gives rise
/// to no event.
#[derive(Clone, Copy, Debug, PartialEq, Eq, Structural)]
pub struct BlockBy {
    /// Identity of the action that blocks.
    pub action: u32,
    /// Whether the action keeps its state while it is blocked, and only its
    /// events are held back.
    pub events_only: bool,
}

impl BlockBy {
    /// The answer while the actions are in the given states.
    pub open spec fn spec_evaluate(self, actions: Seq<(u32, ActionData)>) -> ActionState {
        if state_in(actions, self.action).spec_is_active() {
            ActionState::Idle
        } else {
            ActionState::Fired
        }
    }

    /// Creates a condition that forces the action to `Idle` while the given
    /// action is active.
    #[must_use]
    pub fn new(action: u32) -> (r: BlockBy)
        ensures
            r == (BlockBy { action, events_only: false }),
    {
        BlockBy { action, events_only: false }
    }

    /// Creates a condition that holds back the events of the action while the
    /// given action is active.
    #[must_use]
    pub fn events_only(action: u32) -> (r: BlockBy)
        ensures
            r == (BlockBy { action, events_only: true }),
    {
        BlockBy { action, events_only: true }
    }

    /// Evaluates the condition.
    pub fn evaluate(&self, actions: &ActionsData) -> (r: ActionState)
        ensures
            r == self.spec_evaluate(actions@),
    {
        if actions.state_of(self.action).is_active() {
            ActionState::Idle
        } else {
            ActionState::Fired
        }
    }
}

} // verus!
