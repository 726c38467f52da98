//! Scaling by the time since the last tick.

use vstd::prelude::*;
use crate::action_value::ActionValue;
use crate::action_value::ActionValueDim;
use crate::number::product_of;
use crate::number::seconds;
use crate::number::seconds_of;
use crate::number::times;

verus! {

/// Multiplies the input value by delta time for this frame.
///
/// Does nothing for boolean values.
#[derive(Clone, Copy, Debug)]
pub struct ScaleByDelta;

impl ScaleByDelta {
    /// The value with each axis multiplied by the seconds that `delta`
    /// nanoseconds are; a boolean as it is.
    pub open spec fn spec_apply(delta: u64, value: ActionValue) -> ActionValue {
        match value {
            ActionValue::Bool(_) => value,
            _ => {
                let (x, y, z) = value.spec_as_axis3d();
                ActionValue::Axis3D(
                    product_of(x, seconds_of(delta)),
                    product_of(y, seconds_of(delta)),
                    product_of(z, seconds_of(delta)),
                ).spec_convert(value.spec_dim())
            },
        }
    }

    /// Multiplies each axis of the value by the time since the last tick,
    /// given in nanoseconds and taken in seconds.
    pub fn apply(&self, delta: u64, value: ActionValue) -> (r: ActionValue)
        ensures
            r == Self::spec_apply(delta, value),
            r.spec_dim() == value.spec_dim(),
            value is Bool ==> r == value,
    {
        let dim = value.dim();
        match dim {
            ActionValueDim::Bool => value,
            _ => {
                let (x, y, z) = value.as_axis3d();
                let secs = seconds(delta);
                ActionValue::Axis3D(times(x, secs), times(y, secs), times(z, secs)).convert(dim)
            },
        }
    }
}

} // verus!
