//! Conditions that decide from a value, and from the states of other actions,
//! the state of an action.

pub mod block_by;
pub mod chord;
pub mod hold;
pub mod hold_and_release;
pub mod just_press;
pub mod press;
pub mod primitives;
pub mod pulse;
pub mod release;
pub mod tap;

use vstd::prelude::*;
use crate::action_value::ActionValue;
use crate::input_action::ActionData;
use crate::input_action::ActionState;
use crate::input_action::ActionsData;
use crate::input_condition::block_by::BlockBy;
use crate::input_condition::chord::Chord;
use crate::input_condition::hold::Hold;
use crate::input_condition::hold_and_release::HoldAndRelease;
use crate::input_condition::just_press::JustPress;
use crate::input_condition::press::Press;
use crate::input_condition::pulse::Pulse;
use crate::input_condition::release::Release;
use crate::input_condition::tap::Tap;

verus! {

/// How the answer of a condition enters the state of its action.
#[derive(Clone, Copy, Debug, PartialEq, Eq, Structural)]
pub enum ConditionKind {
    /// The action fires when one condition of this kind does.
    Explicit,
    /// The action fires only while every condition of this kind does.
    Implicit,
    /// The action is blocked while a condition of this kind answers `Idle`:
    /// forced to `Idle`, or only kept from giving rise to events.
    Blocker { events_only: bool },
}

/// One condition of the catalogue, with the state it keeps between ticks.
#[derive(Clone, Copy, Debug)]
pub enum Condition {
    Press(Press),
    JustPress(JustPress),
    Hold(Hold),
    HoldAndRelease(HoldAndRelease),
    Pulse(Pulse),
    Release(Release),
    Tap(Tap),
    Chord(Chord),
    BlockBy(BlockBy),
}

impl Condition {
    /// The kind of the condition.
    pub open spec fn spec_kind(self) -> ConditionKind {
        match self {
            Condition::Chord(_) => ConditionKind::Implicit,
            Condition::BlockBy(block) => ConditionKind::Blocker { events_only: block.events_only },
            _ => ConditionKind::Explicit,
        }
    }

    /// The condition and its answer after a tick of `delta` nanoseconds with
    /// the given value, while the actions are in the given states.
    pub open spec fn spec_evaluate(
        self,
        actions: Seq<(u32, ActionData)>,
        delta: u64,
        value: ActionValue,
    ) -> (Condition, ActionState) {
        match self {
            Condition::Press(c) => (self, c.spec_evaluate(value)),
            Condition::JustPress(c) => (
                Condition::JustPress(c.spec_evaluate(value).0),
                c.spec_evaluate(value).1,
            ),
            Condition::Hold(c) => (
                Condition::Hold(c.spec_evaluate(delta, value).0),
                c.spec_evaluate(delta, value).1,
            ),
            Condition::HoldAndRelease(c) => (
                Condition::HoldAndRelease(c.spec_evaluate(delta, value).0),
                c.spec_evaluate(delta, value).1,
            ),
            Condition::Pulse(c) => (
                Condition::Pulse(c.spec_evaluate(delta, value).0),
                c.spec_evaluate(delta, value).1,
            ),
            Condition::Release(c) => (
                Condition::Release(c.spec_evaluate(value).0),
                c.spec_evaluate(value).1,
            ),
            Condition::Tap(c) => (
                Condition::Tap(c.spec_evaluate(delta, value).0),
                c.spec_evaluate(delta, value).1,
            ),
            Condition::Chord(c) => (self, c.spec_evaluate(actions)),
            Condition::BlockBy(c) => (self, c.spec_evaluate(actions)),
        }
    }

    /// Returns the kind of the condition.
    pub fn kind(&self) -> (r: ConditionKind)
        ensures
            r == self.spec_kind(),
    {
        match self {
            Condition::Chord(_) => ConditionKind::Implicit,
            Condition::BlockBy(block) => ConditionKind::Blocker { events_only: block.events_only },
            _ => ConditionKind::Explicit,
        }
    }

    /// Evaluates the condition for a tick of `delta` nanoseconds.
    pub fn evaluate(&mut self, actions: &ActionsData, delta: u64, value: ActionValue) -> (r:
        ActionState)
        ensures
            (*final(self), r) == old(self).spec_evaluate(actions@, delta, value),
    {
        match self {
            Condition::Press(c) => c.evaluate(value),
            Condition::JustPress(c) => c.evaluate(value),
            Condition::Hold(c) => c.evaluate(delta, value),
            Condition::HoldAndRelease(c) => c.evaluate(delta, value),
            Condition::Pulse(c) => c.evaluate(delta, value),
            Condition::Release(c) => c.evaluate(value),
            Condition::Tap(c) => c.evaluate(delta, value),
            Condition::Chord(c) => c.evaluate(actions),
            Condition::BlockBy(c) => c.evaluate(actions),
        }
    }
}

} // verus!
