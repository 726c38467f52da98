//! Combination of the answers of a chain of conditions into one state.

use vstd::prelude::*;
use crate::action_value::ActionValue;
use crate::input_action::state_in;
use crate::input_action::transition_event;
use crate::input_action::ActionData;
use crate::input_action::ActionEventKind;
use crate::input_action::ActionState;
use crate::input_action::ActionsData;
use crate::input_condition::Condition;
use crate::input_condition::ConditionKind;

verus! {

/// The answer of one condition on one tick.
#[derive(Clone, Copy, Debug, PartialEq, Eq, Structural)]
pub struct Answer {
    pub kind: ConditionKind,
    pub state: ActionState,
}

impl Answer {
    /// Whether the answer is that of a condition that blocks the state.
    pub open spec fn blocks_state(self) -> bool {
        self.kind == (ConditionKind::Blocker { events_only: false }) && self.state
            == ActionState::Idle
    }

    /// Whether the answer is that of a condition that blocks the events.
    pub open spec fn blocks_events(self) -> bool {
        self.kind == (ConditionKind::Blocker { events_only: true }) && self.state
            == ActionState::Idle
    }

    /// Whether the answer is that of an explicit or implicit condition that
    /// is not `Idle`.
    pub open spec fn is_active(self) -> bool {
        !(self.kind is Blocker) && self.state != ActionState::Idle
    }
}

/// What the answers of a chain amount to.
#[derive(Clone, Copy, Debug, PartialEq, Eq, Structural)]
pub struct TriggerTracker {
    /// Whether the chain holds an explicit condition.
    pub found_explicit: bool,
    /// Whether an explicit condition fired.
    pub any_explicit_fired: bool,
    /// Whether the chain holds an implicit condition.
    pub found_implicit: bool,
    /// Whether every implicit condition fired.
    pub all_implicits_fired: bool,
    /// Whether an explicit or implicit condition was not `Idle`.
    pub found_active: bool,
    /// Whether a condition blocks the state.
    pub blocked: bool,
    /// Whether a condition blocks the events.
    pub events_blocked: bool,
}

impl TriggerTracker {
    /// What the given answers amount to.
    pub open spec fn of(answers: Seq<Answer>) -> TriggerTracker {
        TriggerTracker {
            found_explicit: exists|i: int|
                0 <= i < answers.len() && (#[trigger] answers[i]).kind is Explicit,
            any_explicit_fired: exists|i: int|
                0 <= i < answers.len() && (#[trigger] answers[i]).kind is Explicit && answers[i].state
                    == ActionState::Fired,
            found_implicit: exists|i: int|
                0 <= i < answers.len() && (#[trigger] answers[i]).kind is Implicit,
            all_implicits_fired: forall|i: int|
                0 <= i < answers.len() && (#[trigger] answers[i]).kind is Implicit ==> answers[i].state
                    == ActionState::Fired,
            found_active: exists|i: int| 0 <= i < answers.len() && (#[trigger] answers[i]).is_active(),
            blocked: exists|i: int| 0 <= i < answers.len() && (#[trigger] answers[i]).blocks_state(),
            events_blocked: exists|i: int|
                0 <= i < answers.len() && (#[trigger] answers[i]).blocks_events(),
        }
    }

    /// The tracker after one more answer.
    pub open spec fn spec_record(self, answer: Answer) -> TriggerTracker {
        TriggerTracker {
            found_explicit: self.found_explicit || answer.kind is Explicit,
            any_explicit_fired: self.any_explicit_fired || (answer.kind is Explicit && answer.state
                == ActionState::Fired),
            found_implicit: self.found_implicit || answer.kind is Implicit,
            all_implicits_fired: self.all_implicits_fired && (answer.kind is Implicit
                ==> answer.state == ActionState::Fired),
            found_active: self.found_active || answer.is_active(),
            blocked: self.blocked || answer.blocks_state(),
            events_blocked: self.events_blocked || answer.blocks_events(),
        }
    }

    /// The state of the action. `value_set` tells whether the value of the
    /// action is set, which decides where the chain holds no explicit and no
    /// implicit condition.
    pub open spec fn spec_state(self, value_set: bool) -> ActionState {
        if self.blocked {
            ActionState::Idle
        } else if !self.found_explicit && !self.found_implicit {
            if value_set {
                ActionState::Fired
            } else {
                ActionState::Idle
            }
        } else if (!self.found_explicit || self.any_explicit_fired) && self.all_implicits_fired {
            ActionState::Fired
        } else if self.found_active {
            ActionState::Ongoing
        } else {
            ActionState::Idle
        }
    }

    /// Creates the tracker of an empty chain.
    pub fn new() -> (r: TriggerTracker)
        ensures
            r == Self::of(Seq::empty()),
    {
        TriggerTracker {
            found_explicit: false,
            any_explicit_fired: false,
            found_implicit: false,
            all_implicits_fired: true,
            found_active: false,
            blocked: false,
            events_blocked: false,
        }
    }

    /// Takes one more answer into account.
    pub fn record(&mut self, answer: Answer)
        ensures
            *final(self) == old(self).spec_record(answer),
    {
        let fired = match answer.state {
            ActionState::Fired => true,
            _ => false,
        };
        let idle = match answer.state {
            ActionState::Idle => true,
            _ => false,
        };
        match answer.kind {
            ConditionKind::Explicit => {
                self.found_explicit = true;
                self.any_explicit_fired = self.any_explicit_fired || fired;
                self.found_active = self.found_active || !idle;
            },
            ConditionKind::Implicit => {
                self.found_implicit = true;
                self.all_implicits_fired = self.all_implicits_fired && fired;
                self.found_active = self.found_active || !idle;
            },
            ConditionKind::Blocker { events_only } => {
                if events_only {
                    self.events_blocked = self.events_blocked || idle;
                } else {
                    self.blocked = self.blocked || idle;
                }
            },
        }
    }

    /// Returns the state of the action.
    pub fn state(&self, value_set: bool) -> (r: ActionState)
        ensures
            r == self.spec_state(value_set),
    {
        if self.blocked {
            ActionState::Idle
        } else if !self.found_explicit && !self.found_implicit {
            if value_set {
                ActionState::Fired
            } else {
                ActionState::Idle
            }
        } else if (!self.found_explicit || self.any_explicit_fired) && self.all_implicits_fired {
            ActionState::Fired
        } else if self.found_active {
            ActionState::Ongoing
        } else {
            ActionState::Idle
        }
    }
}

/// Recording one more answer gives what the longer chain amounts to.
pub proof fn record_extends(answers: Seq<Answer>, answer: Answer)
    ensures
        TriggerTracker::of(answers.push(answer)) == TriggerTracker::of(answers).spec_record(answer),
{
    let longer = answers.push(answer);
    let n = answers.len() as int;
    assert(longer[n] == answer);
    assert(forall|i: int| 0 <= i < n ==> longer[i] == answers[i]);
    let short = TriggerTracker::of(answers);
    let long = TriggerTracker::of(longer);
    assert(long.found_explicit == (short.found_explicit || answer.kind is Explicit)) by {
        if short.found_explicit {
            let i = choose|i: int| 0 <= i < answers.len() && (#[trigger] answers[i]).kind is Explicit;
            assert(longer[i].kind is Explicit);
        }
    }
    assert(long.any_explicit_fired == (short.any_explicit_fired || (answer.kind is Explicit
        && answer.state == ActionState::Fired))) by {
        if short.any_explicit_fired {
            let i = choose|i: int|
                0 <= i < answers.len() && (#[trigger] answers[i]).kind is Explicit && answers[i].state
                    == ActionState::Fired;
            assert(longer[i].kind is Explicit);
        }
    }
    assert(long.found_implicit == (short.found_implicit || answer.kind is Implicit)) by {
        if short.found_implicit {
            let i = choose|i: int| 0 <= i < answers.len() && (#[trigger] answers[i]).kind is Implicit;
            assert(longer[i].kind is Implicit);
        }
    }
    assert(long.all_implicits_fired == (short.all_implicits_fired && (answer.kind is Implicit
        ==> answer.state == ActionState::Fired))) by {
        if !short.all_implicits_fired {
            let i = choose|i: int|
                0 <= i < answers.len() && (#[trigger] answers[i]).kind is Implicit && answers[i].state
                    != ActionState::Fired;
            assert(longer[i].kind is Implicit);
        }
    }
    assert(long.found_active == (short.found_active || answer.is_active())) by {
        if short.found_active {
            let i = choose|i: int| 0 <= i < answers.len() && (#[trigger] answers[i]).is_active();
            assert(longer[i].is_active());
        }
    }
    assert(long.blocked == (short.blocked || answer.blocks_state())) by {
        if short.blocked {
            let i = choose|i: int| 0 <= i < answers.len() && (#[trigger] answers[i]).blocks_state();
            assert(longer[i].blocks_state());
        }
    }
    assert(long.events_blocked == (short.events_blocked || answer.blocks_events())) by {
        if short.events_blocked {
            let i = choose|i: int| 0 <= i < answers.len() && (#[trigger] answers[i]).blocks_events();
            assert(longer[i].blocks_events());
        }
    }
}

/// The answers of a chain of conditions on one tick.
pub open spec fn answers_of(
    conditions: Seq<Condition>,
    actions: Seq<(u32, ActionData)>,
    delta: u64,
    value: ActionValue,
) -> Seq<Answer> {
    Seq::new(
        conditions.len(),
        |i: int|
            Answer {
                kind: conditions[i].spec_kind(),
                state: conditions[i].spec_evaluate(actions, delta, value).1,
            },
    )
}

/// The conditions of a chain after one tick.
pub open spec fn advanced(
    conditions: Seq<Condition>,
    actions: Seq<(u32, ActionData)>,
    delta: u64,
    value: ActionValue,
) -> Seq<Condition> {
    Seq::new(conditions.len(), |i: int| conditions[i].spec_evaluate(actions, delta, value).0)
}

/// Evaluates every condition of the chain, first to last, and returns what
/// their answers amount to.
pub fn evaluate_conditions(
    conditions: &mut Vec<Condition>,
    actions: &ActionsData,
    delta: u64,
    value: ActionValue,
) -> (r: TriggerTracker)
    ensures
        final(conditions)@ == advanced(old(conditions)@, actions@, delta, value),
        r == TriggerTracker::of(answers_of(old(conditions)@, actions@, delta, value)),
{
    let ghost before = conditions@;
    let ghost answers = answers_of(before, actions@, delta, value);
    let mut tracker = TriggerTracker::new();
    let mut i: usize = 0;
    proof {
        assert(answers.take(0) =~= Seq::empty());
    }
    while i < conditions.len()
        invariant
            i <= conditions.len(),
            conditions@.len() == before.len(),
            answers == answers_of(before, actions@, delta, value),
            forall|j: int|
                0 <= j < i ==> conditions@[j] == (#[trigger] before[j]).spec_evaluate(
                    actions@,
                    delta,
                    value,
                ).0,
            forall|j: int| i <= j < before.len() ==> conditions@[j] == before[j],
            tracker == TriggerTracker::of(answers.take(i as int)),
        decreases conditions.len() - i,
    {
        let mut condition = conditions[i];
        let kind = condition.kind();
        let state = condition.evaluate(actions, delta, value);
        conditions.set(i, condition);
        proof {
            record_extends(answers.take(i as int), Answer { kind, state });
            assert(answers.take(i as int).push(Answer { kind, state }) =~= answers.take(i + 1));
        }
        tracker.record(Answer { kind, state });
        i = i + 1;
    }
    proof {
        assert(answers.take(i as int) =~= answers);
        assert(conditions@ =~= advanced(before, actions@, delta, value));
    }
    tracker
}

/// The greatest of the answers, `Idle` for none.
pub open spec fn greatest(answers: Seq<Answer>) -> ActionState
    decreases answers.len(),
{
    if answers.len() == 0 {
        ActionState::Idle
    } else {
        greatest(answers.drop_last()).spec_max(answers.last().state)
    }
}

/// What a chain of explicit conditions alone amounts to.
proof fn explicit_chain_tracker(answers: Seq<Answer>)
    requires
        forall|i: int| 0 <= i < answers.len() ==> (#[trigger] answers[i]).kind is Explicit,
    ensures
        TriggerTracker::of(answers) == (TriggerTracker {
            found_explicit: answers.len() > 0,
            any_explicit_fired: greatest(answers) == ActionState::Fired,
            found_implicit: false,
            all_implicits_fired: true,
            found_active: greatest(answers) != ActionState::Idle,
            blocked: false,
            events_blocked: false,
        }),
    decreases answers.len(),
{
    if answers.len() > 0 {
        let shorter = answers.drop_last();
        assert(forall|i: int| 0 <= i < shorter.len() ==> shorter[i] == answers[i]);
        explicit_chain_tracker(shorter);
        record_extends(shorter, answers.last());
        assert(shorter.push(answers.last()) =~= answers);
        assert(answers[answers.len() - 1].kind is Explicit);
    }
}

/// The state of an action whose conditions are all explicit is the greatest of
/// their answers.
pub proof fn explicit_chain_takes_greatest_answer(answers: Seq<Answer>, value_set: bool)
    requires
        answers.len() > 0,
        forall|i: int| 0 <= i < answers.len() ==> (#[trigger] answers[i]).kind is Explicit,
    ensures
        TriggerTracker::of(answers).spec_state(value_set) == greatest(answers),
{
    explicit_chain_tracker(answers);
}

/// No state but `Idle` is ever greater than what the conditions answered:
/// an action is `Fired` or `Ongoing` only where its value is set or one of
/// its conditions was not `Idle`.
pub proof fn active_state_has_a_cause(answers: Seq<Answer>, value_set: bool)
    requires
        TriggerTracker::of(answers).spec_state(value_set) != ActionState::Idle,
    ensures
        value_set || exists|i: int|
            0 <= i < answers.len() && (#[trigger] answers[i]).state != ActionState::Idle,
{
    let tracker = TriggerTracker::of(answers);
    if !value_set {
        if tracker.found_active {
            let i = choose|i: int| 0 <= i < answers.len() && (#[trigger] answers[i]).is_active();
            assert(answers[i].state != ActionState::Idle);
        } else if tracker.found_explicit {
            assert(tracker.any_explicit_fired);
            let i = choose|i: int|
                0 <= i < answers.len() && (#[trigger] answers[i]).kind is Explicit && answers[i].state
                    == ActionState::Fired;
            assert(answers[i].state != ActionState::Idle);
        } else {
            assert(tracker.found_implicit);
            let i = choose|i: int| 0 <= i < answers.len() && (#[trigger] answers[i]).kind is Implicit;
            assert(answers[i].state == ActionState::Fired);
        }
    }
}

/// Blocking. While the other action is `Ongoing` or `Fired`, an action with a
/// condition that is blocked by it is `Idle`, whatever its value and its
/// other conditions say; so the tick gives rise to no start and no firing of
/// the action.
pub proof fn blocked_action_stays_idle(
    conditions: Seq<Condition>,
    actions: Seq<(u32, ActionData)>,
    delta: u64,
    value: ActionValue,
    blocker: int,
    value_set: bool,
    previous: ActionState,
    had_fired: bool,
)
    requires
        0 <= blocker < conditions.len(),
        conditions[blocker] is BlockBy,
        !conditions[blocker]->BlockBy_0.events_only,
        state_in(actions, conditions[blocker]->BlockBy_0.action).spec_is_active(),
    ensures
        ({
            let state = TriggerTracker::of(
                answers_of(conditions, actions, delta, value),
            ).spec_state(value_set);
            &&& state == ActionState::Idle
            &&& transition_event(previous, state, had_fired) != Some(ActionEventKind::Started)
            &&& transition_event(previous, state, had_fired) != Some(ActionEventKind::Fired)
        }),
{
    let answers = answers_of(conditions, actions, delta, value);
    assert(answers[blocker].blocks_state());
}

/// Blocking of events only. While the other action is `Ongoing` or `Fired`,
/// the events of the action are blocked, and its state is what it would be
/// without the condition.
pub proof fn events_only_block_keeps_state(
    conditions: Seq<Condition>,
    actions: Seq<(u32, ActionData)>,
    delta: u64,
    value: ActionValue,
    blocker: int,
    value_set: bool,
)
    requires
        0 <= blocker < conditions.len(),
        conditions[blocker] is BlockBy,
        conditions[blocker]->BlockBy_0.events_only,
        state_in(actions, conditions[blocker]->BlockBy_0.action).spec_is_active(),
    ensures
        TriggerTracker::of(answers_of(conditions, actions, delta, value)).events_blocked,
        TriggerTracker::of(answers_of(conditions, actions, delta, value)).spec_state(value_set)
            == TriggerTracker::of(
            answers_of(conditions.remove(blocker), actions, delta, value),
        ).spec_state(value_set),
{
    let answers = answers_of(conditions, actions, delta, value);
    let fewer = answers_of(conditions.remove(blocker), actions, delta, value);
    assert(answers[blocker].blocks_events());
    assert(fewer =~= answers.remove(blocker));
    events_blocker_is_without_effect(answers, blocker);
}

/// Leaving out the answer of a condition that blocks events changes nothing
/// but whether events are blocked.
proof fn events_blocker_is_without_effect(answers: Seq<Answer>, blocker: int)
    requires
        0 <= blocker < answers.len(),
        answers[blocker].kind == (ConditionKind::Blocker { events_only: true }),
    ensures
        TriggerTracker::of(answers.remove(blocker)) == (TriggerTracker {
            events_blocked: TriggerTracker::of(answers.remove(blocker)).events_blocked,
            ..TriggerTracker::of(answers)
        }),
{
    let fewer = answers.remove(blocker);
    let full = TriggerTracker::of(answers);
    let part = TriggerTracker::of(fewer);
    assert(forall|i: int| 0 <= i < blocker ==> fewer[i] == answers[i]);
    assert(forall|i: int| blocker <= i < fewer.len() ==> fewer[i] == answers[i + 1]);
    assert(part.found_explicit == full.found_explicit) by {
        if full.found_explicit {
            let i = choose|i: int| 0 <= i < answers.len() && (#[trigger] answers[i]).kind is Explicit;
            let j = if i < blocker {
                i
            } else {
                i - 1
            };
            assert(fewer[j] == answers[i]);
            assert(fewer[j].kind is Explicit);
        }
        if part.found_explicit {
            let j = choose|j: int| 0 <= j < fewer.len() && (#[trigger] fewer[j]).kind is Explicit;
            let i = if j < blocker {
                j
            } else {
                j + 1
            };
            assert(answers[i] == fewer[j]);
            assert(answers[i].kind is Explicit);
        }
    }
    assert(part.any_explicit_fired == full.any_explicit_fired) by {
        if full.any_explicit_fired {
            let i = choose|i: int|
                0 <= i < answers.len() && (#[trigger] answers[i]).kind is Explicit && answers[i].state
                    == ActionState::Fired;
            let j = if i < blocker {
                i
            } else {
                i - 1
            };
            assert(fewer[j] == answers[i]);
            assert(fewer[j].kind is Explicit);
        }
        if part.any_explicit_fired {
            let j = choose|j: int|
                0 <= j < fewer.len() && (#[trigger] fewer[j]).kind is Explicit && fewer[j].state
                    == ActionState::Fired;
            let i = if j < blocker {
                j
            } else {
                j + 1
            };
            assert(answers[i] == fewer[j]);
            assert(answers[i].kind is Explicit);
        }
    }
    assert(part.found_implicit == full.found_implicit) by {
        if full.found_implicit {
            let i = choose|i: int| 0 <= i < answers.len() && (#[trigger] answers[i]).kind is Implicit;
            let j = if i < blocker {
                i
            } else {
                i - 1
            };
            assert(fewer[j] == answers[i]);
            assert(fewer[j].kind is Implicit);
        }
        if part.found_implicit {
            let j = choose|j: int| 0 <= j < fewer.len() && (#[trigger] fewer[j]).kind is Implicit;
            let i = if j < blocker {
                j
            } else {
                j + 1
            };
            assert(answers[i] == fewer[j]);
            assert(answers[i].kind is Implicit);
        }
    }
    assert(part.all_implicits_fired == full.all_implicits_fired) by {
        if !full.all_implicits_fired {
            let i = choose|i: int|
                0 <= i < answers.len() && (#[trigger] answers[i]).kind is Implicit && answers[i].state
                    != ActionState::Fired;
            let j = if i < blocker {
                i
            } else {
                i - 1
            };
            assert(fewer[j] == answers[i]);
            assert(fewer[j].kind is Implicit);
        }
        if !part.all_implicits_fired {
            let j = choose|j: int|
                0 <= j < fewer.len() && (#[trigger] fewer[j]).kind is Implicit && fewer[j].state
                    != ActionState::Fired;
            let i = if j < blocker {
                j
            } else {
                j + 1
            };
            assert(answers[i] == fewer[j]);
            assert(answers[i].kind is Implicit);
        }
    }
    assert(part.found_active == full.found_active) by {
        if full.found_active {
            let i = choose|i: int| 0 <= i < answers.len() && (#[trigger] answers[i]).is_active();
            let j = if i < blocker {
                i
            } else {
                i - 1
            };
            assert(fewer[j] == answers[i]);
            assert(fewer[j].is_active());
        }
        if part.found_active {
            let j = choose|j: int| 0 <= j < fewer.len() && (#[trigger] fewer[j]).is_active();
            let i = if j < blocker {
                j
            } else {
                j + 1
            };
            assert(answers[i] == fewer[j]);
            assert(answers[i].is_active());
        }
    }
    assert(part.blocked == full.blocked) by {
        if full.blocked {
            let i = choose|i: int| 0 <= i < answers.len() && (#[trigger] answers[i]).blocks_state();
            let j = if i < blocker {
                i
            } else {
                i - 1
            };
            assert(fewer[j] == answers[i]);
            assert(fewer[j].blocks_state());
        }
        if part.blocked {
            let j = choose|j: int| 0 <= j < fewer.len() && (#[trigger] fewer[j]).blocks_state();
            let i = if j < blocker {
                j
            } else {
                j + 1
            };
            assert(answers[i] == fewer[j]);
            assert(answers[i].blocks_state());
        }
    }
}

/// Chords. An action with chords fires only on ticks on which every action
/// that one of its chords names is `Ongoing` or `Fired`.
pub proof fn chord_fires_only_with_every_member(
    conditions: Seq<Condition>,
    actions: Seq<(u32, ActionData)>,
    delta: u64,
    value: ActionValue,
    value_set: bool,
)
    requires
        TriggerTracker::of(answers_of(conditions, actions, delta, value)).spec_state(value_set)
            == ActionState::Fired,
    ensures
        forall|i: int|
            0 <= i < conditions.len() && (#[trigger] conditions[i]) is Chord ==> state_in(
                actions,
                conditions[i]->Chord_0.action,
            ).spec_is_active(),
{
    let answers = answers_of(conditions, actions, delta, value);
    assert forall|i: int| 0 <= i < conditions.len() && (#[trigger] conditions[i]) is Chord implies state_in(
        actions,
        conditions[i]->Chord_0.action,
    ).spec_is_active() by {
        assert(answers[i].kind is Implicit);
        assert(answers[i].state == ActionState::Fired);
    }
}

/// An action whose conditions are chords alone fires exactly while every
/// action that they name is `Ongoing` or `Fired`; while only some of them are,
/// it is `Ongoing`, and while none is, `Idle`.
pub proof fn chords_alone_decide(
    conditions: Seq<Condition>,
    actions: Seq<(u32, ActionData)>,
    delta: u64,
    value: ActionValue,
    value_set: bool,
)
    requires
        conditions.len() > 0,
        forall|i: int| 0 <= i < conditions.len() ==> (#[trigger] conditions[i]) is Chord,
    ensures
        TriggerTracker::of(answers_of(conditions, actions, delta, value)).spec_state(value_set) == (
        if forall|i: int|
            0 <= i < conditions.len() ==> state_in(
                actions,
                (#[trigger] conditions[i])->Chord_0.action,
            ).spec_is_active() {
            ActionState::Fired
        } else if exists|i: int|
            0 <= i < conditions.len() && state_in(
                actions,
                (#[trigger] conditions[i])->Chord_0.action,
            ).spec_is_active() {
            ActionState::Ongoing
        } else {
            ActionState::Idle
        }),
{
    let answers = answers_of(conditions, actions, delta, value);
    let tracker = TriggerTracker::of(answers);
    assert(answers[0].kind is Implicit);
    assert(conditions[0] is Chord);
    assert(!tracker.found_explicit) by {
        if tracker.found_explicit {
            let i = choose|i: int| 0 <= i < answers.len() && (#[trigger] answers[i]).kind is Explicit;
            assert(conditions[i] is Chord);
        }
    }
    assert(!tracker.blocked) by {
        if tracker.blocked {
            let i = choose|i: int| 0 <= i < answers.len() && (#[trigger] answers[i]).blocks_state();
            assert(conditions[i] is Chord);
        }
    }
    if forall|i: int|
        0 <= i < conditions.len() ==> state_in(
            actions,
            (#[trigger] conditions[i])->Chord_0.action,
        ).spec_is_active() {
        assert forall|i: int|
            0 <= i < answers.len() && (#[trigger] answers[i]).kind is Implicit implies answers[i].state
            == ActionState::Fired by {
            assert(conditions[i] is Chord);
        }
    } else {
        let i = choose|i: int|
            0 <= i < conditions.len() && !state_in(
                actions,
                (#[trigger] conditions[i])->Chord_0.action,
            ).spec_is_active();
        assert(answers[i].kind is Implicit && answers[i].state == ActionState::Idle);
        assert(!tracker.all_implicits_fired);
        if exists|i: int|
            0 <= i < conditions.len() && state_in(
                actions,
                (#[trigger] conditions[i])->Chord_0.action,
            ).spec_is_active() {
            let j = choose|j: int|
                0 <= j < conditions.len() && state_in(
                    actions,
                    (#[trigger] conditions[j])->Chord_0.action,
                ).spec_is_active();
            assert(answers[j].is_active());
        } else {
            assert(!tracker.found_active) by {
                if tracker.found_active {
                    let j = choose|j: int|
                        0 <= j < answers.len() && (#[trigger] answers[j]).is_active();
                    assert(conditions[j] is Chord);
                }
            }
        }
    }
}

} // verus!
