//! Values of actions: a boolean or up to three axes.

use bevy::math::FloatOrd;
use vstd::prelude::*;
use vstd::std_specs::convert::FromSpecImpl;
use crate::number::whole;
use crate::number::nonzero;
use crate::number::zero;
use crate::number::one;
use crate::number::is_nonzero;

verus! {

/// Number of axes of an [`ActionValue`].
#[derive(Clone, Copy, Debug, PartialEq, Eq, Structural)]
pub enum ActionValueDim {
    Bool,
    Axis1D,
    Axis2D,
    Axis3D,
}

/// Value of an input or an action.
#[derive(Clone, Copy, Debug, PartialEq)]
pub enum ActionValue {
    Bool(bool),
    Axis1D(FloatOrd),
    Axis2D(FloatOrd, FloatOrd),
    Axis3D(FloatOrd, FloatOrd, FloatOrd),
}

impl ActionValue {
    /// Dimension of the value.
    pub open spec fn spec_dim(self) -> ActionValueDim {
        match self {
            ActionValue::Bool(_) => ActionValueDim::Bool,
            ActionValue::Axis1D(_) => ActionValueDim::Axis1D,
            ActionValue::Axis2D(_, _) => ActionValueDim::Axis2D,
            ActionValue::Axis3D(_, _, _) => ActionValueDim::Axis3D,
        }
    }

    /// The value on three axes: missing axes are zero, and a boolean is one
    /// or zero on the first axis.
    pub open spec fn spec_as_axis3d(self) -> (FloatOrd, FloatOrd, FloatOrd) {
        match self {
            ActionValue::Bool(v) => (if v { one() } else { zero() }, zero(), zero()),
            ActionValue::Axis1D(x) => (x, zero(), zero()),
            ActionValue::Axis2D(x, y) => (x, y, zero()),
            ActionValue::Axis3D(x, y, z) => (x, y, z),
        }
    }

    /// Whether the value is set: a true boolean, or an axis other than zero.
    pub open spec fn spec_as_bool(self) -> bool {
        match self {
            ActionValue::Bool(v) => v,
            ActionValue::Axis1D(x) => is_nonzero(x),
            ActionValue::Axis2D(x, y) => is_nonzero(x) || is_nonzero(y),
            ActionValue::Axis3D(x, y, z) => is_nonzero(x) || is_nonzero(y) || is_nonzero(z),
        }
    }

    /// The value in another dimension: axes beyond the dimension are dropped,
    /// missing ones are zero.
    pub open spec fn spec_convert(self, dim: ActionValueDim) -> ActionValue {
        let (x, y, z) = self.spec_as_axis3d();
        match dim {
            ActionValueDim::Bool => ActionValue::Bool(self.spec_as_bool()),
            ActionValueDim::Axis1D => ActionValue::Axis1D(x),
            ActionValueDim::Axis2D => ActionValue::Axis2D(x, y),
            ActionValueDim::Axis3D => ActionValue::Axis3D(x, y, z),
        }
    }

    /// The zero value of a dimension.
    pub open spec fn spec_zero(dim: ActionValueDim) -> ActionValue {
        match dim {
            ActionValueDim::Bool => ActionValue::Bool(false),
            ActionValueDim::Axis1D => ActionValue::Axis1D(zero()),
            ActionValueDim::Axis2D => ActionValue::Axis2D(zero(), zero()),
            ActionValueDim::Axis3D => ActionValue::Axis3D(zero(), zero(), zero()),
        }
    }

    /// Creates the zero value of the given dimension.
    pub fn zero(dim: ActionValueDim) -> (r: ActionValue)
        ensures
            r == Self::spec_zero(dim),
    {
        match dim {
            ActionValueDim::Bool => ActionValue::Bool(false),
            ActionValueDim::Axis1D => ActionValue::Axis1D(whole(0)),
            ActionValueDim::Axis2D => ActionValue::Axis2D(whole(0), whole(0)),
            ActionValueDim::Axis3D => ActionValue::Axis3D(whole(0), whole(0), whole(0)),
        }
    }

    /// Returns the dimension of the value.
    pub fn dim(self) -> (r: ActionValueDim)
        ensures
            r == self.spec_dim(),
    {
        match self {
            ActionValue::Bool(_) => ActionValueDim::Bool,
            ActionValue::Axis1D(_) => ActionValueDim::Axis1D,
            ActionValue::Axis2D(_, _) => ActionValueDim::Axis2D,
            ActionValue::Axis3D(_, _, _) => ActionValueDim::Axis3D,
        }
    }

    /// Returns whether the value is set.
    pub fn as_bool(self) -> (r: bool)
        ensures
            r == self.spec_as_bool(),
    {
        match self {
            ActionValue::Bool(v) => v,
            ActionValue::Axis1D(x) => nonzero(x),
            ActionValue::Axis2D(x, y) => nonzero(x) || nonzero(y),
            ActionValue::Axis3D(x, y, z) => nonzero(x) || nonzero(y) || nonzero(z),
        }
    }

    /// Returns the first axis.
    pub fn as_axis1d(self) -> (r: FloatOrd)
        ensures
            r == self.spec_as_axis3d().0,
    {
        self.as_axis3d().0
    }

    /// Returns the first two axes.
    pub fn as_axis2d(self) -> (r: (FloatOrd, FloatOrd))
        ensures
            r == (self.spec_as_axis3d().0, self.spec_as_axis3d().1),
    {
        let (x, y, _) = self.as_axis3d();
        (x, y)
    }

    /// Returns the value on three axes.
    pub fn as_axis3d(self) -> (r: (FloatOrd, FloatOrd, FloatOrd))
        ensures
            r == self.spec_as_axis3d(),
    {
        match self {
            ActionValue::Bool(v) => (if v { whole(1) } else { whole(0) }, whole(0), whole(0)),
            ActionValue::Axis1D(x) => (x, whole(0), whole(0)),
            ActionValue::Axis2D(x, y) => (x, y, whole(0)),
            ActionValue::Axis3D(x, y, z) => (x, y, z),
        }
    }

    /// Converts the value into the given dimension.
    pub fn convert(self, dim: ActionValueDim) -> (r: ActionValue)
        ensures
            r == self.spec_convert(dim),
            r.spec_dim() == dim,
    {
        let (x, y, z) = self.as_axis3d();
        match dim {
            ActionValueDim::Bool => ActionValue::Bool(self.as_bool()),
            ActionValueDim::Axis1D => ActionValue::Axis1D(x),
            ActionValueDim::Axis2D => ActionValue::Axis2D(x, y),
            ActionValueDim::Axis3D => ActionValue::Axis3D(x, y, z),
        }
    }
}

/// Converting a value into its own dimension changes nothing.
pub proof fn convert_to_own_dim(value: ActionValue)
    ensures
        value.spec_convert(value.spec_dim()) == value,
{
}

/// Widening a value and narrowing it back gives the value again, as long as
/// it was no boolean.
pub proof fn widen_then_narrow(value: ActionValue)
    requires
        value.spec_dim() != ActionValueDim::Bool,
    ensures
        value.spec_convert(ActionValueDim::Axis3D).spec_convert(value.spec_dim()) == value,
{
}

impl From<bool> for ActionValue {
    fn from(value: bool) -> (r: ActionValue) {
        ActionValue::Bool(value)
    }
}

impl FromSpecImpl<bool> for ActionValue {
    open spec fn obeys_from_spec() -> bool {
        true
    }

    open spec fn from_spec(value: bool) -> ActionValue {
        ActionValue::Bool(value)
    }
}

impl From<FloatOrd> for ActionValue {
    fn from(value: FloatOrd) -> (r: ActionValue) {
        ActionValue::Axis1D(value)
    }
}

impl FromSpecImpl<FloatOrd> for ActionValue {
    open spec fn obeys_from_spec() -> bool {
        true
    }

    open spec fn from_spec(value: FloatOrd) -> ActionValue {
        ActionValue::Axis1D(value)
    }
}

impl From<(FloatOrd, FloatOrd)> for ActionValue {
    fn from(value: (FloatOrd, FloatOrd)) -> (r: ActionValue) {
        ActionValue::Axis2D(value.0, value.1)
    }
}

impl FromSpecImpl<(FloatOrd, FloatOrd)> for ActionValue {
    open spec fn obeys_from_spec() -> bool {
        true
    }

    open spec fn from_spec(value: (FloatOrd, FloatOrd)) -> ActionValue {
        ActionValue::Axis2D(value.0, value.1)
    }
}

impl From<(FloatOrd, FloatOrd, FloatOrd)> for ActionValue {
    fn from(value: (FloatOrd, FloatOrd, FloatOrd)) -> (r: ActionValue) {
        ActionValue::Axis3D(value.0, value.1, value.2)
    }
}

impl FromSpecImpl<(FloatOrd, FloatOrd, FloatOrd)> for ActionValue {
    open spec fn obeys_from_spec() -> bool {
        true
    }

    open spec fn from_spec(value: (FloatOrd, FloatOrd, FloatOrd)) -> ActionValue {
        ActionValue::Axis3D(value.0, value.1, value.2)
    }
}

} // verus!
