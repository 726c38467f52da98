//! States of actions and the events that their changes give rise to.

use vstd::prelude::*;
use crate::action_value::ActionValue;
use crate::action_value::ActionValueDim;

verus! {

/// State of an action after the evaluation of one tick.
///
/// The states are ordered: `Idle`, then `Ongoing`, then `Fired`.
#[derive(Clone, Copy, Debug, PartialEq, Eq, PartialOrd, Ord, Hash, Structural)]
pub enum ActionState {
    /// The conditions are not met.
    Idle,
    /// The conditions are partly met, such as a hold that has not lasted yet.
    Ongoing,
    /// The conditions are met.
    Fired,
}

impl ActionState {
    /// Position of the state in the order.
    pub open spec fn rank(self) -> nat {
        match self {
            ActionState::Idle => 0,
            ActionState::Ongoing => 1,
            ActionState::Fired => 2,
        }
    }

    /// Whether the state is `Ongoing` or `Fired`.
    pub open spec fn spec_is_active(self) -> bool {
        self != ActionState::Idle
    }

    /// The greater of two states.
    pub open spec fn spec_max(self, other: ActionState) -> ActionState {
        if self.rank() >= other.rank() {
            self
        } else {
            other
        }
    }

    /// Returns whether the state is `Ongoing` or `Fired`.
    pub fn is_active(self) -> (r: bool)
        ensures
            r == self.spec_is_active(),
            r == (self.rank() >= 1),
    {
        match self {
            ActionState::Idle => false,
            _ => true,
        }
    }

    /// Returns the greater of two states.
    pub fn max(self, other: ActionState) -> (r: ActionState)
        ensures
            r == self.spec_max(other),
    {
        match (self, other) {
            (ActionState::Fired, _) => ActionState::Fired,
            (ActionState::Ongoing, ActionState::Fired) => ActionState::Fired,
            (ActionState::Ongoing, _) => ActionState::Ongoing,
            (ActionState::Idle, _) => other,
        }
    }
}

/// What happened to an action in one tick.
#[derive(Clone, Copy, Debug, PartialEq, Eq, Hash, Structural)]
pub enum ActionEventKind {
    /// The action left `Idle`.
    Started,
    /// The action is `Fired`, and was active before.
    Fired,
    /// The action returned to `Idle` without having fired.
    Canceled,
    /// The action returned to `Idle` after it had fired.
    Completed,
}

/// The event that a change of state gives rise to, if any. `had_fired` tells
/// whether the action has fired since it last left `Idle`.
pub open spec fn transition_event(
    previous: ActionState,
    current: ActionState,
    had_fired: bool,
) -> Option<ActionEventKind> {
    match (previous, current) {
        (ActionState::Idle, ActionState::Idle) => None,
        (ActionState::Idle, _) => Some(ActionEventKind::Started),
        (_, ActionState::Fired) => Some(ActionEventKind::Fired),
        (ActionState::Ongoing, ActionState::Idle) => Some(
            if had_fired {
                ActionEventKind::Completed
            } else {
                ActionEventKind::Canceled
            },
        ),
        (ActionState::Fired, ActionState::Idle) => Some(ActionEventKind::Completed),
        (_, ActionState::Ongoing) => None,
    }
}

/// Returns the event that a change of state gives rise to, if any.
pub fn event_of_transition(previous: ActionState, current: ActionState, had_fired: bool) -> (r:
    Option<ActionEventKind>)
    ensures
        r == transition_event(previous, current, had_fired),
{
    match (previous, current) {
        (ActionState::Idle, ActionState::Idle) => None,
        (ActionState::Idle, _) => Some(ActionEventKind::Started),
        (_, ActionState::Fired) => Some(ActionEventKind::Fired),
        (ActionState::Ongoing, ActionState::Idle) => {
            if had_fired {
                Some(ActionEventKind::Completed)
            } else {
                Some(ActionEventKind::Canceled)
            }
        },
        (ActionState::Fired, ActionState::Idle) => Some(ActionEventKind::Completed),
        (_, ActionState::Ongoing) => None,
    }
}

/// Adds two spans of nanoseconds, stopping at the largest span.
pub open spec fn saturating_sum(a: u64, b: u64) -> u64 {
    if a + b > u64::MAX {
        u64::MAX
    } else {
        (a + b) as u64
    }
}

/// Returns the sum of two spans of nanoseconds, or the largest span where the
/// sum does not fit.
pub fn add_nanos(a: u64, b: u64) -> (r: u64)
    ensures
        r == saturating_sum(a, b),
{
    if a > u64::MAX - b {
        u64::MAX
    } else {
        a + b
    }
}

/// Live state of one action.
#[derive(Clone, Copy, Debug, PartialEq)]
pub struct ActionData {
    /// State after the last evaluation.
    pub state: ActionState,
    /// Value after the last evaluation.
    pub value: ActionValue,
    /// Nanoseconds for which the action has been active without a break.
    pub elapsed_nanos: u64,
    /// Nanoseconds for which the action has been fired without a break.
    pub fired_nanos: u64,
    /// Whether the action has fired since it last left `Idle`.
    pub has_fired: bool,
}

/// One change of an action, as reported to the host.
#[derive(Clone, Copy, Debug, PartialEq)]
pub struct ActionEvent {
    /// Identity of the action.
    pub action: u32,
    /// What happened.
    pub kind: ActionEventKind,
    /// State of the action after the tick.
    pub state: ActionState,
    /// Value of the action after the tick.
    pub value: ActionValue,
    /// Nanoseconds for which the action has been fired without a break.
    pub fired_nanos: u64,
    /// Nanoseconds for which the action has been active without a break.
    pub elapsed_nanos: u64,
}

impl ActionData {
    /// The data of an action that has never been evaluated.
    pub open spec fn spec_new(dim: ActionValueDim) -> ActionData {
        ActionData {
            state: ActionState::Idle,
            value: ActionValue::spec_zero(dim),
            elapsed_nanos: 0,
            fired_nanos: 0,
            has_fired: false,
        }
    }

    /// The data after a tick of `delta` nanoseconds that ended in the given
    /// state and value.
    pub open spec fn spec_update(self, state: ActionState, value: ActionValue, delta: u64) -> ActionData {
        ActionData {
            state,
            value,
            elapsed_nanos: match state {
                ActionState::Idle => 0,
                _ => saturating_sum(self.elapsed_nanos, delta),
            },
            fired_nanos: match state {
                ActionState::Fired => saturating_sum(self.fired_nanos, delta),
                _ => 0,
            },
            has_fired: match state {
                ActionState::Idle => false,
                ActionState::Ongoing => self.has_fired,
                ActionState::Fired => true,
            },
        }
    }

    /// Creates the data of an action that has never been evaluated.
    pub fn new(dim: ActionValueDim) -> (r: ActionData)
        ensures
            r == Self::spec_new(dim),
    {
        ActionData {
            state: ActionState::Idle,
            value: ActionValue::zero(dim),
            elapsed_nanos: 0,
            fired_nanos: 0,
            has_fired: false,
        }
    }

    /// Records the outcome of a tick and returns what happened to the action,
    /// if anything.
    pub fn update(&mut self, state: ActionState, value: ActionValue, delta: u64) -> (r: Option<
        ActionEventKind,
    >)
        ensures
            *final(self) == old(self).spec_update(state, value, delta),
            r == transition_event(old(self).state, state, old(self).has_fired),
    {
        let event = event_of_transition(self.state, state, self.has_fired);
        match state {
            ActionState::Idle => {
                self.elapsed_nanos = 0;
                self.fired_nanos = 0;
                self.has_fired = false;
            },
            ActionState::Ongoing => {
                self.elapsed_nanos = add_nanos(self.elapsed_nanos, delta);
                self.fired_nanos = 0;
            },
            ActionState::Fired => {
                self.elapsed_nanos = add_nanos(self.elapsed_nanos, delta);
                self.fired_nanos = add_nanos(self.fired_nanos, delta);
                self.has_fired = true;
            },
        }
        self.state = state;
        self.value = value;
        event
    }
}

/// An action that stays `Idle`, or stays `Ongoing`, gives rise to no event; one
/// that is `Fired` always does; and a return to `Idle` is a completion exactly
/// when the action had fired.
pub proof fn events_follow_transitions(previous: ActionState, current: ActionState, had_fired: bool)
    ensures
        previous == current && current != ActionState::Fired ==> transition_event(
            previous,
            current,
            had_fired,
        ) is None,
        current == ActionState::Fired ==> transition_event(previous, current, had_fired) is Some,
        previous == ActionState::Idle && current != ActionState::Idle ==> transition_event(
            previous,
            current,
            had_fired,
        ) == Some(ActionEventKind::Started),
        previous != ActionState::Idle && current == ActionState::Idle ==> transition_event(
            previous,
            current,
            had_fired,
        ) == Some(
            if had_fired || previous == ActionState::Fired {
                ActionEventKind::Completed
            } else {
                ActionEventKind::Canceled
            },
        ),
{
}

/// The live state of every action of a context, in the order of the bindings.
pub struct ActionsData {
    entries: Vec<(u32, ActionData)>,
}

/// The data of the first entry for the action, if there is one.
pub open spec fn lookup(entries: Seq<(u32, ActionData)>, action: u32) -> Option<ActionData>
    decreases entries.len(),
{
    if entries.len() == 0 {
        None
    } else if entries[0].0 == action {
        Some(entries[0].1)
    } else {
        lookup(entries.skip(1), action)
    }
}

/// The state of the action, `Idle` where the action is unknown.
pub open spec fn state_in(entries: Seq<(u32, ActionData)>, action: u32) -> ActionState {
    match lookup(entries, action) {
        Some(data) => data.state,
        None => ActionState::Idle,
    }
}

impl View for ActionsData {
    type V = Seq<(u32, ActionData)>;

    closed spec fn view(&self) -> Seq<(u32, ActionData)> {
        self.entries@
    }
}

impl ActionsData {
    /// Creates an empty table.
    pub fn new() -> (r: ActionsData)
        ensures
            r@ == Seq::<(u32, ActionData)>::empty(),
    {
        ActionsData { entries: Vec::new() }
    }

    /// Returns the number of entries.
    pub fn len(&self) -> (r: usize)
        ensures
            r == self@.len(),
    {
        self.entries.len()
    }

    /// Returns the entry at the given position.
    pub fn entry(&self, index: usize) -> (r: (u32, ActionData))
        requires
            index < self@.len(),
        ensures
            r == self@[index as int],
    {
        self.entries[index]
    }

    /// Appends an entry for an action.
    pub fn push(&mut self, action: u32, data: ActionData)
        ensures
            final(self)@ == old(self)@.push((action, data)),
    {
        self.entries.push((action, data));
    }

    /// Replaces the data of the entry at the given position.
    pub fn set(&mut self, index: usize, data: ActionData)
        requires
            index < old(self)@.len(),
        ensures
            final(self)@ == old(self)@.update(index as int, (old(self)@[index as int].0, data)),
    {
        let action = self.entries[index].0;
        self.entries.set(index, (action, data));
    }

    /// Returns the data of the action, if the table knows it.
    pub fn get(&self, action: u32) -> (r: Option<ActionData>)
        ensures
            r == lookup(self@, action),
    {
        let mut i: usize = 0;
        proof {
            assert(self@.skip(0) =~= self@);
        }
        while i < self.entries.len()
            invariant
                i <= self.entries.len(),
                lookup(self@, action) == lookup(self@.skip(i as int), action),
            decreases self.entries.len() - i,
        {
            proof {
                assert(self@.skip(i as int)[0] == self@[i as int]);
                assert(self@.skip(i as int).skip(1) =~= self@.skip(i + 1));
            }
            let entry = self.entries[i];
            if entry.0 == action {
                return Some(entry.1);
            }
            i = i + 1;
        }
        proof {
            assert(self@.skip(i as int).len() == 0);
        }
        None
    }

    /// Returns the state of the action, `Idle` where the table does not know
    /// the action.
    pub fn state_of(&self, action: u32) -> (r: ActionState)
        ensures
            r == state_in(self@, action),
    {
        match self.get(action) {
            Some(data) => data.state,
            None => ActionState::Idle,
        }
    }
}

} // verus!
