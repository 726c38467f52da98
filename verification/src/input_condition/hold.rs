//! Condition that fires after the input was held for some time.

use vstd::prelude::*;
use crate::action_value::ActionValue;
use crate::input_action::saturating_sum;
use crate::input_action::ActionState;
use crate::input_condition::primitives::Actuation;
use crate::input_condition::primitives::HeldTimer;

verus! {

/// Returns [`ActionState::Ongoing`] when the input becomes actuated and
/// [`ActionState::Fired`] when the input remained actuated for
/// [`Self::hold_time`] nanoseconds.
///
/// Returns [`ActionState::Idle`] when the input stops being actuated earlier.
/// May optionally fire once, or repeatedly fire.
///
/// The time held is zero while the input is not actuated, so a hold time of
/// zero is met on every tick, actuated or not.
#[derive(Clone, Copy, Debug)]
pub struct Hold {
    /// How long the input has to be held to cause a trigger, in nanoseconds.
    pub hold_time: u64,
    /// Whether the trigger fires only once, or on every tick once the hold
    /// time is met.
    pub one_shot: bool,
    /// Trigger threshold.
    pub actuation: Actuation,
    /// Measures for how long the input has been held.
    pub held_timer: HeldTimer,
    /// Whether the hold time was met at the last evaluation.
    pub fired: bool,
}

impl Hold {
    /// The condition before its first evaluation.
    pub open spec fn spec_new(hold_time: u64) -> Hold {
        Hold {
            hold_time,
            one_shot: false,
            actuation: Actuation::spec_default(),
            held_timer: HeldTimer { duration: 0 },
            fired: false,
        }
    }

    /// The condition and its answer after a tick of `delta` nanoseconds on
    /// which the input was actuated or not.
    pub open spec fn step(self, delta: u64, actuated: bool) -> (Hold, ActionState) {
        let held = if actuated {
            saturating_sum(self.held_timer.duration, delta)
        } else {
            0
        };
        let fired = held >= self.hold_time;
        let state = if fired {
            if !self.fired || !self.one_shot {
                ActionState::Fired
            } else {
                ActionState::Idle
            }
        } else if actuated {
            ActionState::Ongoing
        } else {
            ActionState::Idle
        };
        (Hold { held_timer: HeldTimer { duration: held }, fired, ..self }, state)
    }

    /// The condition and its answer after a tick with the given value.
    pub open spec fn spec_evaluate(self, delta: u64, value: ActionValue) -> (Hold, ActionState) {
        self.step(delta, self.actuation.spec_is_actuated(value))
    }

    /// Creates a condition that fires on every tick once the input was held
    /// for `hold_time` nanoseconds, with the default threshold.
    #[must_use]
    pub fn new(hold_time: u64) -> (r: Hold)
        ensures
            r == Self::spec_new(hold_time),
    {
        Hold {
            hold_time,
            one_shot: false,
            actuation: Actuation::default(),
            held_timer: HeldTimer::default(),
            fired: false,
        }
    }

    /// Sets whether the condition fires only once per hold.
    #[must_use]
    pub fn one_shot(self, one_shot: bool) -> (r: Hold)
        ensures
            r == (Hold { one_shot, ..self }),
    {
        let mut hold = self;
        hold.one_shot = one_shot;
        hold
    }

    /// Sets the trigger threshold.
    #[must_use]
    pub fn with_actuation(self, actuation: Actuation) -> (r: Hold)
        ensures
            r == (Hold { actuation, ..self }),
    {
        let mut hold = self;
        hold.actuation = actuation;
        hold
    }

    /// Replaces the timer that measures the hold.
    #[must_use]
    pub fn with_held_timer(self, held_timer: HeldTimer) -> (r: Hold)
        ensures
            r == (Hold { held_timer, ..self }),
    {
        let mut hold = self;
        hold.held_timer = held_timer;
        hold
    }

    /// Evaluates the condition for a tick of `delta` nanoseconds.
    pub fn evaluate(&mut self, delta: u64, value: ActionValue) -> (r: ActionState)
        ensures
            (*final(self), r) == old(self).spec_evaluate(delta, value),
    {
        let actuated = self.actuation.is_actuated(value);
        if actuated {
            self.held_timer.update(delta);
        } else {
            self.held_timer.reset();
        }
        let is_first_trigger = !self.fired;
        self.fired = self.held_timer.duration() >= self.hold_time;
        if self.fired {
            if is_first_trigger || !self.one_shot {
                ActionState::Fired
            } else {
                ActionState::Idle
            }
        } else if actuated {
            ActionState::Ongoing
        } else {
            ActionState::Idle
        }
    }
}

/// The nanoseconds held after the given ticks, all of them actuated.
pub open spec fn held_after(deltas: Seq<u64>) -> u64
    decreases deltas.len(),
{
    if deltas.len() == 0 {
        0
    } else {
        saturating_sum(held_after(deltas.drop_last()), deltas.last())
    }
}

/// The condition after the given ticks, all of them actuated.
pub open spec fn after_held_ticks(hold: Hold, deltas: Seq<u64>) -> Hold
    decreases deltas.len(),
{
    if deltas.len() == 0 {
        hold
    } else {
        after_held_ticks(hold, deltas.drop_last()).step(deltas.last(), true).0
    }
}

/// What a fresh condition remembers after a run of actuated ticks: the time
/// held, and whether that time had met the hold time at the last tick.
pub proof fn held_ticks_accumulate(hold: Hold, deltas: Seq<u64>)
    requires
        hold.held_timer.duration == 0,
        !hold.fired,
    ensures
        after_held_ticks(hold, deltas) == (Hold {
            held_timer: HeldTimer { duration: held_after(deltas) },
            fired: deltas.len() > 0 && held_after(deltas) >= hold.hold_time,
            ..hold
        }),
    decreases deltas.len(),
{
    if deltas.len() > 0 {
        held_ticks_accumulate(hold, deltas.drop_last());
    }
}

/// The time held never shrinks while the input stays actuated.
pub proof fn held_time_grows(deltas: Seq<u64>, shorter: int)
    requires
        0 <= shorter <= deltas.len(),
    ensures
        held_after(deltas.take(shorter)) <= held_after(deltas),
    decreases deltas.len(),
{
    if shorter < deltas.len() {
        held_time_grows(deltas.drop_last(), shorter);
        assert(deltas.drop_last().take(shorter) =~= deltas.take(shorter));
    } else {
        assert(deltas.take(shorter) =~= deltas);
    }
}

/// Hold timing. On a fresh condition, while the input stays actuated: a tick
/// answers `Ongoing` as long as the time held is under the hold time; the
/// first tick on which the time held meets the hold time answers `Fired`;
/// every later tick answers `Fired` again, or `Idle` where the condition
/// fires only once.
pub proof fn hold_fires_when_time_is_met(hold: Hold, earlier: Seq<u64>, delta: u64)
    requires
        hold.held_timer.duration == 0,
        !hold.fired,
    ensures
        ({
            let answer = after_held_ticks(hold, earlier).step(delta, true).1;
            let held_before = held_after(earlier);
            let held_now = held_after(earlier.push(delta));
            &&& held_now < hold.hold_time ==> answer == ActionState::Ongoing
            &&& held_now >= hold.hold_time && (earlier.len() == 0 || held_before < hold.hold_time)
                ==> answer == ActionState::Fired
            &&& earlier.len() > 0 && held_before >= hold.hold_time ==> answer == (if hold.one_shot {
                ActionState::Idle
            } else {
                ActionState::Fired
            })
        }),
{
    held_ticks_accumulate(hold, earlier);
    assert(earlier.push(delta).drop_last() =~= earlier);
    held_time_grows(earlier.push(delta), earlier.len() as int);
    assert(earlier.push(delta).take(earlier.len() as int) =~= earlier);
}

/// Releasing the input puts the time held back to zero and, for a hold time
/// above zero, answers `Idle`, whatever the condition had reached; the next
/// hold starts afresh.
pub proof fn release_resets_hold(hold: Hold, delta: u64)
    requires
        hold.hold_time > 0,
    ensures
        hold.step(delta, false).1 == ActionState::Idle,
        hold.step(delta, false).0.held_timer.duration == 0,
        !hold.step(delta, false).0.fired,
{
}

/// A hold time of zero is met on every tick, whether the input is actuated or
/// not: the condition answers `Fired`, or `Idle` where it fires only once and
/// the time was met at the last evaluation already.
pub proof fn hold_time_zero_is_always_met(hold: Hold, delta: u64, actuated: bool)
    requires
        hold.hold_time == 0,
    ensures
        hold.step(delta, actuated).0.fired,
        hold.step(delta, actuated).1 == (if hold.fired && hold.one_shot {
            ActionState::Idle
        } else {
            ActionState::Fired
        }),
{
}

} // verus!
