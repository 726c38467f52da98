//! Building blocks that several conditions share.

use bevy::math::FloatOrd;
use vstd::prelude::*;
use crate::action_value::ActionValue;
use crate::input_action::add_nanos;
use crate::input_action::saturating_sum;
use crate::number::at_least;
use crate::number::one;
use crate::number::over;
use crate::number::plus;
use crate::number::product_of;
use crate::number::quotient_of;
use crate::number::reaches;
use crate::number::sum_of;
use crate::number::times;
use crate::number::whole;
use crate::number::whole_number;

verus! {

/// The square of the length of a vector: the squares of the three axes,
/// added first to last.
pub open spec fn length_squared(v: (FloatOrd, FloatOrd, FloatOrd)) -> FloatOrd {
    sum_of(sum_of(product_of(v.0, v.0), product_of(v.1, v.1)), product_of(v.2, v.2))
}

/// Threshold of the magnitude from which an input counts as actuated.
#[derive(Clone, Copy, Debug)]
pub struct Actuation {
    pub threshold: FloatOrd,
}

impl Actuation {
    /// The threshold of one half.
    pub open spec fn spec_default() -> Actuation {
        Actuation { threshold: quotient_of(one(), whole_number(2)) }
    }

    /// Whether the magnitude of the value reaches the threshold. Both are
    /// compared by their squares.
    pub open spec fn spec_is_actuated(self, value: ActionValue) -> bool {
        reaches(length_squared(value.spec_as_axis3d()), product_of(self.threshold, self.threshold))
    }

    /// Creates a threshold.
    pub fn new(threshold: FloatOrd) -> (r: Actuation)
        ensures
            r.threshold == threshold,
    {
        Actuation { threshold }
    }

    /// Returns whether the magnitude of the value reaches the threshold.
    pub fn is_actuated(self, value: ActionValue) -> (r: bool)
        ensures
            r == self.spec_is_actuated(value),
    {
        let (x, y, z) = value.as_axis3d();
        let length = plus(plus(times(x, x), times(y, y)), times(z, z));
        at_least(length, times(self.threshold, self.threshold))
    }
}

impl Default for Actuation {
    /// Returns the threshold of one half.
    fn default() -> (r: Actuation)
        ensures
            r == Actuation::spec_default(),
    {
        Actuation { threshold: over(whole(1), whole(2)) }
    }
}

/// Measures for how long an input has been held, in nanoseconds.
#[derive(Clone, Copy, Debug, PartialEq, Eq, Structural)]
pub struct HeldTimer {
    pub duration: u64,
}

impl HeldTimer {
    /// The timer after `delta` more nanoseconds.
    pub open spec fn spec_update(self, delta: u64) -> HeldTimer {
        HeldTimer { duration: saturating_sum(self.duration, delta) }
    }

    /// Creates a timer at zero.
    pub fn new() -> (r: HeldTimer)
        ensures
            r.duration == 0,
    {
        HeldTimer { duration: 0 }
    }

    /// Advances the timer by `delta` nanoseconds; it stops at the largest span.
    pub fn update(&mut self, delta: u64)
        ensures
            *final(self) == old(self).spec_update(delta),
    {
        self.duration = add_nanos(self.duration, delta);
    }

    /// Puts the timer back to zero.
    pub fn reset(&mut self)
        ensures
            final(self).duration == 0,
    {
        self.duration = 0;
    }

    /// Returns the nanoseconds measured.
    pub fn duration(&self) -> (r: u64)
        ensures
            r == self.duration,
    {
        self.duration
    }
}

impl Default for HeldTimer {
    fn default() -> (r: HeldTimer)
        ensures
            r.duration == 0,
    {
        HeldTimer { duration: 0 }
    }
}

} // verus!
