//! Scaling by a factor per axis.

use bevy::math::FloatOrd;
use vstd::prelude::*;
use crate::action_value::ActionValue;
use crate::action_value::ActionValueDim;
use crate::number::product_of;
use crate::number::times;

verus! {

/// Scales input by a set factor per axis.
///
/// Does nothing for boolean values.
#[derive(Clone, Copy, Debug)]
pub struct Scalar {
    /// The factor for each of the three axes.
    pub scalar: (FloatOrd, FloatOrd, FloatOrd),
}

impl Scalar {
    /// The value with each axis multiplied by its factor; a boolean as it is.
    pub open spec fn spec_apply(self, value: ActionValue) -> ActionValue {
        match value {
            ActionValue::Bool(_) => value,
            _ => {
                let (x, y, z) = value.spec_as_axis3d();
                ActionValue::Axis3D(
                    product_of(x, self.scalar.0),
                    product_of(y, self.scalar.1),
                    product_of(z, self.scalar.2),
                ).spec_convert(value.spec_dim())
            },
        }
    }

    /// Creates a new scalar with all axes set to `value`.
    #[must_use]
    pub fn splat(value: FloatOrd) -> (r: Scalar)
        ensures
            r.scalar == (value, value, value),
    {
        Self::new((value, value, value))
    }

    /// Creates a new scalar with the given factor for each axis.
    #[must_use]
    pub fn new(scalar: (FloatOrd, FloatOrd, FloatOrd)) -> (r: Scalar)
        ensures
            r.scalar == scalar,
    {
        Scalar { scalar }
    }

    /// Multiplies each axis of the value by its factor.
    pub fn apply(&self, value: ActionValue) -> (r: ActionValue)
        ensures
            r == self.spec_apply(value),
            r.spec_dim() == value.spec_dim(),
            value is Bool ==> r == value,
    {
        let dim = value.dim();
        match dim {
            ActionValueDim::Bool => value,
            _ => {
                let (x, y, z) = value.as_axis3d();
                ActionValue::Axis3D(
                    times(x, self.scalar.0),
                    times(y, self.scalar.1),
                    times(z, self.scalar.2),
                ).convert(dim)
            },
        }
    }
}

/// Scaling multiplies every axis that the value has by the factor of that
/// axis, and leaves a boolean as it is.
pub proof fn scalar_is_linear(scalar: Scalar, value: ActionValue)
    ensures
        scalar.spec_apply(value) == (match value {
            ActionValue::Bool(v) => ActionValue::Bool(v),
            ActionValue::Axis1D(x) => ActionValue::Axis1D(product_of(x, scalar.scalar.0)),
            ActionValue::Axis2D(x, y) => ActionValue::Axis2D(
                product_of(x, scalar.scalar.0),
                product_of(y, scalar.scalar.1),
            ),
            ActionValue::Axis3D(x, y, z) => ActionValue::Axis3D(
                product_of(x, scalar.scalar.0),
                product_of(y, scalar.scalar.1),
                product_of(z, scalar.scalar.2),
            ),
        }),
{
}

} // verus!
