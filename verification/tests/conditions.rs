use bevy::math::FloatOrd;
use enhanced_input::action_value::ActionValue;
use enhanced_input::action_value::ActionValueDim;
use enhanced_input::input_action::add_nanos;
use enhanced_input::input_action::event_of_transition;
use enhanced_input::input_action::ActionData;
use enhanced_input::input_action::ActionEventKind;
use enhanced_input::input_action::ActionState;
use enhanced_input::input_action::ActionsData;
use enhanced_input::input_condition::block_by::BlockBy;
use enhanced_input::input_condition::chord::Chord;
use enhanced_input::input_condition::hold::Hold;
use enhanced_input::input_condition::hold_and_release::HoldAndRelease;
use enhanced_input::input_condition::just_press::JustPress;
use enhanced_input::input_condition::press::Press;
use enhanced_input::input_condition::primitives::Actuation;
use enhanced_input::input_condition::primitives::HeldTimer;
use enhanced_input::input_condition::pulse::Pulse;
use enhanced_input::input_condition::release::Release;
use enhanced_input::input_condition::tap::Tap;
use enhanced_input::input_condition::Condition;
use enhanced_input::input_condition::ConditionKind;
use enhanced_input::trigger_tracker::evaluate_conditions;
use enhanced_input::trigger_tracker::Answer;
use enhanced_input::trigger_tracker::TriggerTracker;

const SECOND: u64 = 1_000_000_000;
const QUARTER: u64 = 250_000_000;

fn down() -> ActionValue {
    ActionValue::Bool(true)
}

fn up() -> ActionValue {
    ActionValue::Bool(false)
}

fn table(entries: &[(u32, ActionState)]) -> ActionsData {
    let mut actions = ActionsData::new();
    for (action, state) in entries {
        let mut data = ActionData::new(ActionValueDim::Bool);
        data.update(*state, ActionValue::Bool(*state != ActionState::Idle), 0);
        actions.push(*action, data);
    }
    actions
}

#[test]
fn actuation_compares_the_magnitude_with_the_threshold() {
    let actuation = Actuation::default();
    assert_eq!(actuation.threshold, FloatOrd(0.5));
    assert!(actuation.is_actuated(ActionValue::Bool(true)));
    assert!(!actuation.is_actuated(ActionValue::Bool(false)));
    assert!(actuation.is_actuated(ActionValue::Axis1D(FloatOrd(0.5))));
    assert!(actuation.is_actuated(ActionValue::Axis1D(FloatOrd(-0.5))));
    assert!(!actuation.is_actuated(ActionValue::Axis1D(FloatOrd(0.49))));
    // 0.3^2 + 0.4^2 = 0.5^2, 0.3^2 + 0.3^2 < 0.5^2
    assert!(actuation.is_actuated(ActionValue::Axis2D(FloatOrd(0.75), FloatOrd(1.0))));
    assert!(!actuation.is_actuated(ActionValue::Axis2D(FloatOrd(0.25), FloatOrd(0.25))));
    assert!(actuation.is_actuated(ActionValue::Axis3D(
        FloatOrd(0.0),
        FloatOrd(0.0),
        FloatOrd(-2.0)
    )));
    let strict = Actuation::new(FloatOrd(2.0));
    assert!(!strict.is_actuated(ActionValue::Bool(true)));
    assert!(strict.is_actuated(ActionValue::Axis1D(FloatOrd(2.0))));
}

#[test]
fn held_timer_counts_and_saturates() {
    let mut timer = HeldTimer::new();
    timer.update(5);
    timer.update(7);
    assert_eq!(timer.duration(), 12);
    timer.update(u64::MAX);
    assert_eq!(timer.duration(), u64::MAX);
    timer.reset();
    assert_eq!(timer.duration(), 0);
    assert_eq!(add_nanos(u64::MAX - 1, 1), u64::MAX);
    assert_eq!(add_nanos(u64::MAX - 1, 2), u64::MAX);
    assert_eq!(add_nanos(3, 4), 7);
}

#[test]
fn hold_fires_on_the_tick_that_meets_the_hold_time() {
    let mut hold = Hold::new(SECOND);
    assert_eq!(hold.evaluate(QUARTER, down()), ActionState::Ongoing);
    assert_eq!(hold.evaluate(QUARTER, down()), ActionState::Ongoing);
    assert_eq!(hold.evaluate(QUARTER, down()), ActionState::Ongoing);
    assert_eq!(hold.held_timer.duration, 3 * QUARTER);
    assert_eq!(hold.evaluate(QUARTER, down()), ActionState::Fired);
    assert_eq!(hold.held_timer.duration, SECOND);
    assert_eq!(hold.evaluate(QUARTER, down()), ActionState::Fired);
    assert_eq!(hold.evaluate(QUARTER, down()), ActionState::Fired);
}

#[test]
fn hold_released_early_resets_its_timer() {
    let mut hold = Hold::new(SECOND);
    assert_eq!(hold.evaluate(3 * QUARTER, down()), ActionState::Ongoing);
    assert_eq!(hold.evaluate(QUARTER, up()), ActionState::Idle);
    assert_eq!(hold.held_timer.duration, 0);
    assert_eq!(hold.evaluate(3 * QUARTER, down()), ActionState::Ongoing);
    assert_eq!(hold.evaluate(QUARTER, down()), ActionState::Fired);
}

#[test]
fn hold_one_shot_fires_once_per_hold() {
    let mut hold = Hold::new(SECOND).one_shot(true);
    assert_eq!(hold.evaluate(2 * QUARTER, down()), ActionState::Ongoing);
    assert_eq!(hold.evaluate(2 * QUARTER, down()), ActionState::Fired);
    assert_eq!(hold.evaluate(QUARTER, down()), ActionState::Idle);
    assert_eq!(hold.evaluate(QUARTER, down()), ActionState::Idle);
    assert_eq!(hold.evaluate(QUARTER, up()), ActionState::Idle);
    assert_eq!(hold.evaluate(2 * QUARTER, down()), ActionState::Ongoing);
    assert_eq!(hold.evaluate(2 * QUARTER, down()), ActionState::Fired);
    assert_eq!(hold.evaluate(2 * QUARTER, down()), ActionState::Idle);
}

#[test]
fn hold_builders_set_their_fields() {
    let hold = Hold::new(7)
        .one_shot(true)
        .with_actuation(Actuation::new(FloatOrd(0.25)))
        .with_held_timer(HeldTimer { duration: 3 });
    assert_eq!(hold.hold_time, 7);
    assert!(hold.one_shot);
    assert_eq!(hold.actuation.threshold, FloatOrd(0.25));
    assert_eq!(hold.held_timer.duration, 3);
    assert!(!hold.fired);

    let mut hold = hold;
    assert_eq!(
        hold.evaluate(4, ActionValue::Axis1D(FloatOrd(0.25))),
        ActionState::Fired
    );
    let plain = Hold::new(7);
    assert!(!plain.one_shot);
    assert_eq!(plain.actuation.threshold, FloatOrd(0.5));
    assert_eq!(plain.held_timer.duration, 0);
}

#[test]
fn hold_without_hold_time_fires_on_every_tick() {
    let mut hold = Hold::new(0);
    assert_eq!(hold.evaluate(0, up()), ActionState::Fired);
    assert!(hold.fired);
    assert_eq!(hold.evaluate(0, down()), ActionState::Fired);
    assert_eq!(hold.evaluate(5, up()), ActionState::Fired);
    assert_eq!(hold.held_timer.duration, 0);

    let mut once = Hold::new(0).one_shot(true);
    assert_eq!(once.evaluate(0, up()), ActionState::Fired);
    assert_eq!(once.evaluate(0, up()), ActionState::Idle);
    assert_eq!(once.evaluate(0, down()), ActionState::Idle);
}

#[test]
fn press_fires_while_actuated() {
    let press = Press::default();
    assert_eq!(press.evaluate(down()), ActionState::Fired);
    assert_eq!(press.evaluate(down()), ActionState::Fired);
    assert_eq!(press.evaluate(up()), ActionState::Idle);
    let strict = Press::new(Actuation::new(FloatOrd(0.75)));
    assert_eq!(
        strict.evaluate(ActionValue::Axis1D(FloatOrd(0.5))),
        ActionState::Idle
    );
}

#[test]
fn just_press_fires_on_the_first_actuated_tick() {
    let mut condition = JustPress::default();
    assert_eq!(condition.evaluate(up()), ActionState::Idle);
    assert_eq!(condition.evaluate(down()), ActionState::Fired);
    assert_eq!(condition.evaluate(down()), ActionState::Idle);
    assert_eq!(condition.evaluate(up()), ActionState::Idle);
    assert_eq!(condition.evaluate(down()), ActionState::Fired);
}

#[test]
fn release_fires_on_the_first_tick_after_actuation() {
    let mut condition = Release::default();
    assert_eq!(condition.evaluate(up()), ActionState::Idle);
    assert_eq!(condition.evaluate(down()), ActionState::Idle);
    assert_eq!(condition.evaluate(down()), ActionState::Idle);
    assert_eq!(condition.evaluate(up()), ActionState::Fired);
    assert_eq!(condition.evaluate(up()), ActionState::Idle);
}

#[test]
fn hold_and_release_fires_on_release_after_the_hold_time() {
    let mut condition = HoldAndRelease::new(SECOND);
    assert_eq!(condition.evaluate(QUARTER, up()), ActionState::Idle);
    assert_eq!(condition.evaluate(2 * QUARTER, down()), ActionState::Ongoing);
    assert_eq!(condition.evaluate(2 * QUARTER, down()), ActionState::Ongoing);
    assert_eq!(condition.evaluate(QUARTER, up()), ActionState::Fired);
    assert_eq!(condition.evaluate(QUARTER, up()), ActionState::Idle);

    assert_eq!(condition.evaluate(3 * QUARTER, down()), ActionState::Ongoing);
    assert_eq!(condition.evaluate(QUARTER, up()), ActionState::Idle);
    assert_eq!(condition.held_timer.duration, 0);
}

#[test]
fn pulse_fires_at_its_interval() {
    let mut pulse = Pulse::new(SECOND);
    assert_eq!(pulse.evaluate(2 * QUARTER, down()), ActionState::Ongoing);
    assert_eq!(pulse.evaluate(2 * QUARTER, down()), ActionState::Fired);
    assert_eq!(pulse.evaluate(2 * QUARTER, down()), ActionState::Ongoing);
    assert_eq!(pulse.evaluate(3 * QUARTER, down()), ActionState::Fired);
    assert_eq!(pulse.held_timer.duration, QUARTER);
    assert_eq!(pulse.evaluate(2 * QUARTER, down()), ActionState::Ongoing);
    assert_eq!(pulse.evaluate(QUARTER, down()), ActionState::Fired);
    assert_eq!(pulse.evaluate(QUARTER, up()), ActionState::Idle);
    assert_eq!(pulse.held_timer.duration, 0);
    assert_eq!(pulse.evaluate(3 * QUARTER, down()), ActionState::Ongoing);
}

#[test]
fn tap_fires_on_a_short_press() {
    let mut tap = Tap::new(2 * QUARTER);
    assert_eq!(tap.evaluate(QUARTER, up()), ActionState::Idle);
    assert_eq!(tap.evaluate(QUARTER, down()), ActionState::Ongoing);
    assert_eq!(tap.evaluate(QUARTER, up()), ActionState::Fired);
    assert_eq!(tap.evaluate(QUARTER, up()), ActionState::Idle);

    assert_eq!(tap.evaluate(QUARTER, down()), ActionState::Ongoing);
    assert_eq!(tap.evaluate(QUARTER, down()), ActionState::Idle);
    assert_eq!(tap.evaluate(QUARTER, down()), ActionState::Idle);
    assert_eq!(tap.evaluate(QUARTER, up()), ActionState::Idle);
}

#[test]
fn chord_fires_while_the_other_action_is_active() {
    let chord = Chord::new(7);
    assert_eq!(
        chord.evaluate(&table(&[(7, ActionState::Idle)])),
        ActionState::Idle
    );
    assert_eq!(
        chord.evaluate(&table(&[(7, ActionState::Ongoing)])),
        ActionState::Fired
    );
    assert_eq!(
        chord.evaluate(&table(&[(3, ActionState::Idle), (7, ActionState::Fired)])),
        ActionState::Fired
    );
    assert_eq!(
        chord.evaluate(&table(&[(3, ActionState::Fired)])),
        ActionState::Idle
    );
}

#[test]
fn block_by_answers_idle_while_the_other_action_is_active() {
    let block = BlockBy::new(7);
    assert!(!block.events_only);
    assert!(BlockBy::events_only(7).events_only);
    assert_eq!(
        block.evaluate(&table(&[(7, ActionState::Idle)])),
        ActionState::Fired
    );
    assert_eq!(
        block.evaluate(&table(&[(7, ActionState::Ongoing)])),
        ActionState::Idle
    );
    assert_eq!(
        block.evaluate(&table(&[(7, ActionState::Fired)])),
        ActionState::Idle
    );
    assert_eq!(block.evaluate(&table(&[])), ActionState::Fired);
}

#[test]
fn actions_table_finds_the_first_entry() {
    let mut actions = table(&[(1, ActionState::Ongoing), (2, ActionState::Fired)]);
    assert_eq!(actions.len(), 2);
    assert_eq!(actions.state_of(1), ActionState::Ongoing);
    assert_eq!(actions.state_of(2), ActionState::Fired);
    assert_eq!(actions.state_of(3), ActionState::Idle);
    assert!(actions.get(3).is_none());
    assert_eq!(actions.entry(1).0, 2);
    let mut data = actions.entry(0).1;
    data.update(ActionState::Idle, ActionValue::Bool(false), 1);
    actions.set(0, data);
    assert_eq!(actions.state_of(1), ActionState::Idle);
    assert_eq!(actions.state_of(2), ActionState::Fired);
}

#[test]
fn action_states_are_ordered() {
    assert_eq!(
        ActionState::Idle.max(ActionState::Ongoing),
        ActionState::Ongoing
    );
    assert_eq!(
        ActionState::Fired.max(ActionState::Ongoing),
        ActionState::Fired
    );
    assert_eq!(
        ActionState::Ongoing.max(ActionState::Fired),
        ActionState::Fired
    );
    assert_eq!(ActionState::Idle.max(ActionState::Idle), ActionState::Idle);
    assert!(ActionState::Idle < ActionState::Ongoing);
    assert!(ActionState::Ongoing < ActionState::Fired);
    assert!(!ActionState::Idle.is_active());
    assert!(ActionState::Ongoing.is_active());
    assert!(ActionState::Fired.is_active());
}

#[test]
fn transitions_give_rise_to_events() {
    let idle = ActionState::Idle;
    let ongoing = ActionState::Ongoing;
    let fired = ActionState::Fired;
    assert_eq!(event_of_transition(idle, idle, false), None);
    assert_eq!(
        event_of_transition(idle, ongoing, false),
        Some(ActionEventKind::Started)
    );
    assert_eq!(
        event_of_transition(idle, fired, false),
        Some(ActionEventKind::Started)
    );
    assert_eq!(event_of_transition(ongoing, ongoing, false), None);
    assert_eq!(
        event_of_transition(ongoing, fired, false),
        Some(ActionEventKind::Fired)
    );
    assert_eq!(
        event_of_transition(fired, fired, true),
        Some(ActionEventKind::Fired)
    );
    assert_eq!(event_of_transition(fired, ongoing, true), None);
    assert_eq!(
        event_of_transition(ongoing, idle, false),
        Some(ActionEventKind::Canceled)
    );
    assert_eq!(
        event_of_transition(ongoing, idle, true),
        Some(ActionEventKind::Completed)
    );
    assert_eq!(
        event_of_transition(fired, idle, true),
        Some(ActionEventKind::Completed)
    );
}

#[test]
fn action_data_tracks_durations() {
    let mut data = ActionData::new(ActionValueDim::Axis1D);
    assert_eq!(data.state, ActionState::Idle);
    assert_eq!(data.value, ActionValue::Axis1D(FloatOrd(0.0)));
    let value = ActionValue::Axis1D(FloatOrd(1.0));
    assert_eq!(
        data.update(ActionState::Ongoing, value, 10),
        Some(ActionEventKind::Started)
    );
    assert_eq!((data.elapsed_nanos, data.fired_nanos), (10, 0));
    assert_eq!(
        data.update(ActionState::Fired, value, 5),
        Some(ActionEventKind::Fired)
    );
    assert_eq!((data.elapsed_nanos, data.fired_nanos), (15, 5));
    assert_eq!(
        data.update(ActionState::Fired, value, 5),
        Some(ActionEventKind::Fired)
    );
    assert_eq!((data.elapsed_nanos, data.fired_nanos), (20, 10));
    assert_eq!(data.update(ActionState::Ongoing, value, 1), None);
    assert_eq!((data.elapsed_nanos, data.fired_nanos), (21, 0));
    assert!(data.has_fired);
    assert_eq!(
        data.update(ActionState::Idle, value, 1),
        Some(ActionEventKind::Completed)
    );
    assert_eq!((data.elapsed_nanos, data.fired_nanos), (0, 0));
    assert!(!data.has_fired);
    assert_eq!(data.value, value);
}

#[test]
fn explicit_conditions_take_the_greatest_answer() {
    let answer = |state| Answer {
        kind: ConditionKind::Explicit,
        state,
    };
    let mut tracker = TriggerTracker::new();
    tracker.record(answer(ActionState::Idle));
    assert_eq!(tracker.state(true), ActionState::Idle);
    tracker.record(answer(ActionState::Ongoing));
    assert_eq!(tracker.state(false), ActionState::Ongoing);
    tracker.record(answer(ActionState::Fired));
    assert_eq!(tracker.state(false), ActionState::Fired);
    tracker.record(answer(ActionState::Idle));
    assert_eq!(tracker.state(false), ActionState::Fired);
}

#[test]
fn tracker_without_conditions_goes_by_the_value() {
    let tracker = TriggerTracker::new();
    assert_eq!(tracker.state(true), ActionState::Fired);
    assert_eq!(tracker.state(false), ActionState::Idle);
}

#[test]
fn tracker_lets_blockers_veto() {
    let mut tracker = TriggerTracker::new();
    tracker.record(Answer {
        kind: ConditionKind::Explicit,
        state: ActionState::Fired,
    });
    tracker.record(Answer {
        kind: ConditionKind::Blocker { events_only: true },
        state: ActionState::Idle,
    });
    assert_eq!(tracker.state(true), ActionState::Fired);
    assert!(tracker.events_blocked);
    assert!(!tracker.blocked);
    tracker.record(Answer {
        kind: ConditionKind::Blocker { events_only: false },
        state: ActionState::Fired,
    });
    assert_eq!(tracker.state(true), ActionState::Fired);
    tracker.record(Answer {
        kind: ConditionKind::Blocker { events_only: false },
        state: ActionState::Idle,
    });
    assert_eq!(tracker.state(true), ActionState::Idle);
}

#[test]
fn tracker_needs_every_implicit_condition() {
    let implicit = |state| Answer {
        kind: ConditionKind::Implicit,
        state,
    };
    let mut tracker = TriggerTracker::new();
    tracker.record(implicit(ActionState::Fired));
    assert_eq!(tracker.state(false), ActionState::Fired);
    tracker.record(implicit(ActionState::Idle));
    assert_eq!(tracker.state(false), ActionState::Ongoing);
    let mut tracker = TriggerTracker::new();
    tracker.record(implicit(ActionState::Idle));
    tracker.record(implicit(ActionState::Idle));
    assert_eq!(tracker.state(true), ActionState::Idle);
    tracker.record(Answer {
        kind: ConditionKind::Explicit,
        state: ActionState::Fired,
    });
    assert_eq!(tracker.state(true), ActionState::Ongoing);
}

#[test]
fn condition_chain_advances_every_condition() {
    let mut conditions = vec![
        Condition::Hold(Hold::new(SECOND)),
        Condition::JustPress(JustPress::default()),
        Condition::Chord(Chord::new(4)),
    ];
    assert_eq!(conditions[0].kind(), ConditionKind::Explicit);
    assert_eq!(conditions[2].kind(), ConditionKind::Implicit);
    assert_eq!(
        Condition::BlockBy(BlockBy::events_only(1)).kind(),
        ConditionKind::Blocker { events_only: true }
    );
    let actions = table(&[(4, ActionState::Fired)]);
    let tracker = evaluate_conditions(&mut conditions, &actions, 2 * QUARTER, down());
    assert_eq!(tracker.state(true), ActionState::Fired);
    let tracker = evaluate_conditions(&mut conditions, &actions, QUARTER, down());
    assert_eq!(tracker.state(true), ActionState::Ongoing);
    match conditions[0] {
        Condition::Hold(hold) => assert_eq!(hold.held_timer.duration, 3 * QUARTER),
        _ => panic!("the first condition is a hold"),
    }
    let tracker = evaluate_conditions(&mut conditions, &actions, QUARTER, down());
    assert_eq!(tracker.state(true), ActionState::Fired);
    let idle = table(&[(4, ActionState::Idle)]);
    let tracker = evaluate_conditions(&mut conditions, &idle, QUARTER, down());
    assert_eq!(tracker.state(true), ActionState::Ongoing);
}
