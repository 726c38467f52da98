//! Exponential response curve.

use bevy::math::FloatOrd;
use vstd::prelude::*;
use crate::action_value::ActionValue;
use crate::action_value::ActionValueDim;
use crate::number::absolute;
use crate::number::is_nonzero;
use crate::number::magnitude_of;
use crate::number::nonzero;
use crate::number::product_of;
use crate::number::raise;
use crate::number::sign_of;
use crate::number::signum;
use crate::number::times;
use crate::number::whole;
use crate::number::zero;

verus! {

/// Response curve exponential.
///
/// Applies a simple exponential response curve to input values, per axis: the
/// magnitude is raised to the exponent and the sign is kept. An axis at zero
/// stays at zero, whatever the exponent.
///
/// Does nothing for boolean values.
#[derive(Clone, Copy, Debug)]
pub struct ExponentialCurve {
    /// Curve exponent for each of the three axes.
    pub exponent: (FloatOrd, FloatOrd, FloatOrd),
}

/// One axis of the curve: the power with the sign of the axis, and zero for an
/// axis at zero.
pub open spec fn curve_axis(axis: FloatOrd, power: FloatOrd) -> FloatOrd {
    if is_nonzero(axis) {
        product_of(sign_of(axis), power)
    } else {
        zero()
    }
}

/// Gives the power the sign of the axis; an axis at zero gives zero.
pub fn shape_axis(axis: FloatOrd, power: FloatOrd) -> (r: FloatOrd)
    ensures
        r == curve_axis(axis, power),
{
    if nonzero(axis) {
        times(signum(axis), power)
    } else {
        whole(0)
    }
}

impl ExponentialCurve {
    /// The value whose axes are the given powers, each with the sign of the
    /// axis it stands for, and zero where that axis is at zero; a boolean as
    /// it is.
    pub open spec fn spec_shape(
        value: ActionValue,
        powers: (FloatOrd, FloatOrd, FloatOrd),
    ) -> ActionValue {
        match value {
            ActionValue::Bool(_) => value,
            _ => {
                let (x, y, z) = value.spec_as_axis3d();
                ActionValue::Axis3D(
                    curve_axis(x, powers.0),
                    curve_axis(y, powers.1),
                    curve_axis(z, powers.2),
                ).spec_convert(value.spec_dim())
            },
        }
    }

    /// Creates a new exponential curve with all axes set to `value`.
    #[must_use]
    pub fn splat(value: FloatOrd) -> (r: ExponentialCurve)
        ensures
            r.exponent == (value, value, value),
    {
        Self::new((value, value, value))
    }

    /// Creates a new exponential curve with the given exponent for each axis.
    #[must_use]
    pub fn new(exponent: (FloatOrd, FloatOrd, FloatOrd)) -> (r: ExponentialCurve)
        ensures
            r.exponent == exponent,
    {
        ExponentialCurve { exponent }
    }

    /// Returns the magnitude of each of the three axes of `value`: what the
    /// curve raises to its exponents.
    pub fn bases(value: ActionValue) -> (r: (FloatOrd, FloatOrd, FloatOrd))
        ensures
            r == (
                magnitude_of(value.spec_as_axis3d().0),
                magnitude_of(value.spec_as_axis3d().1),
                magnitude_of(value.spec_as_axis3d().2),
            ),
    {
        let (x, y, z) = value.as_axis3d();
        (absolute(x), absolute(y), absolute(z))
    }

    /// Gives each of the powers the sign of the axis of `value` that it stands
    /// for, puts zero where that axis is at zero, and returns the axes in the
    /// dimension of `value`.
    pub fn shape(value: ActionValue, powers: (FloatOrd, FloatOrd, FloatOrd)) -> (r: ActionValue)
        ensures
            r == Self::spec_shape(value, powers),
            r.spec_dim() == value.spec_dim(),
            value is Bool ==> r == value,
    {
        let dim = value.dim();
        match dim {
            ActionValueDim::Bool => value,
            _ => {
                let (x, y, z) = value.as_axis3d();
                ActionValue::Axis3D(
                    shape_axis(x, powers.0),
                    shape_axis(y, powers.1),
                    shape_axis(z, powers.2),
                ).convert(dim)
            },
        }
    }

    /// Raises the magnitude of each axis to the exponent of that axis and
    /// keeps its sign; an axis at zero stays at zero.
    ///
    /// The powers are computed with unspecified precision, so the result is
    /// stated as the shape of some powers.
    pub fn apply(&self, value: ActionValue) -> (r: ActionValue)
        ensures
            r.spec_dim() == value.spec_dim(),
            value is Bool ==> r == value,
            exists|powers: (FloatOrd, FloatOrd, FloatOrd)| r == Self::spec_shape(value, powers),
    {
        if let ActionValue::Bool(_) = value {
            assert(value == Self::spec_shape(value, self.exponent));
            return value;
        }
        let bases = Self::bases(value);
        let powers = (
            raise(bases.0, self.exponent.0),
            raise(bases.1, self.exponent.1),
            raise(bases.2, self.exponent.2),
        );
        Self::shape(value, powers)
    }
}

/// The curve leaves an axis at zero at zero, whatever the powers are: a value
/// whose axes are all at zero gives the zero value of its dimension.
pub proof fn curve_keeps_zero(value: ActionValue, powers: (FloatOrd, FloatOrd, FloatOrd))
    requires
        !(value is Bool),
        !is_nonzero(value.spec_as_axis3d().0),
        !is_nonzero(value.spec_as_axis3d().1),
        !is_nonzero(value.spec_as_axis3d().2),
    ensures
        ExponentialCurve::spec_shape(value, powers) == ActionValue::spec_zero(value.spec_dim()),
{
}

/// The curve gives each axis away from zero the sign of that axis times its
/// power.
pub proof fn curve_keeps_sign(x: FloatOrd, powers: (FloatOrd, FloatOrd, FloatOrd))
    requires
        is_nonzero(x),
    ensures
        ExponentialCurve::spec_shape(ActionValue::Axis1D(x), powers) == ActionValue::Axis1D(
            product_of(sign_of(x), powers.0),
        ),
{
}

} // verus!
