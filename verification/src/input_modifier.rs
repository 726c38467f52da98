//! Transformations of action values, applied one after another before the
//! conditions see the value.

pub mod exponential_curve;
pub mod scalar;
pub mod scale_by_delta;

use bevy::math::FloatOrd;
use vstd::prelude::*;
use crate::action_value::ActionValue;
use crate::input_modifier::exponential_curve::ExponentialCurve;
use crate::input_modifier::scalar::Scalar;
use crate::input_modifier::scale_by_delta::ScaleByDelta;

verus! {

/// The powers that an exponential curve computes on one value, one for each
/// of the three axes.
pub type Powers = (FloatOrd, FloatOrd, FloatOrd);

/// One step of a modifier chain.
#[derive(Clone, Copy, Debug)]
pub enum Modifier {
    Scalar(Scalar),
    ExponentialCurve(ExponentialCurve),
    ScaleByDelta(ScaleByDelta),
}

impl Modifier {
    /// Whether the result of the step is a function of its input: true for
    /// all but the exponential curve, whose powers are computed with
    /// unspecified precision.
    pub open spec fn is_exact(self) -> bool {
        !(self is ExponentialCurve)
    }

    /// The value after the step. `delta` is the time since the last tick in
    /// nanoseconds. `powers` are the powers that the step computed if it is
    /// an exponential curve; no other step looks at them.
    pub open spec fn spec_apply(self, delta: u64, value: ActionValue, powers: Powers) -> ActionValue {
        match self {
            Modifier::Scalar(scalar) => scalar.spec_apply(value),
            Modifier::ExponentialCurve(_) => ExponentialCurve::spec_shape(value, powers),
            Modifier::ScaleByDelta(_) => ScaleByDelta::spec_apply(delta, value),
        }
    }

    /// Applies the step to the value.
    ///
    /// The result is that of the step for some powers; for a step that is
    /// exact, it is the one result of the step.
    pub fn apply(&self, delta: u64, value: ActionValue) -> (r: ActionValue)
        ensures
            exists|powers: Powers| r == self.spec_apply(delta, value, powers),
            self.is_exact() ==> forall|powers: Powers|
                r == #[trigger] self.spec_apply(delta, value, powers),
            r.spec_dim() == value.spec_dim(),
            value is Bool ==> r == value,
    {
        match self {
            Modifier::Scalar(scalar) => {
                let r = scalar.apply(value);
                assert(r == self.spec_apply(delta, value, value.spec_as_axis3d()));
                r
            },
            Modifier::ExponentialCurve(curve) => {
                let r = curve.apply(value);
                proof {
                    let powers = choose|powers: Powers|
                        r == ExponentialCurve::spec_shape(value, powers);
                    assert(r == self.spec_apply(delta, value, powers));
                }
                r
            },
            Modifier::ScaleByDelta(scale) => {
                let r = scale.apply(delta, value);
                assert(r == self.spec_apply(delta, value, value.spec_as_axis3d()));
                r
            },
        }
    }
}

/// Whether every step of the chain is exact.
pub open spec fn chain_is_exact(modifiers: Seq<Modifier>) -> bool {
    forall|i: int| 0 <= i < modifiers.len() ==> (#[trigger] modifiers[i]).is_exact()
}

/// The value after the steps of the chain, applied first to last, where
/// `powers` holds for each step the powers that it computed.
pub open spec fn spec_apply_chain(
    modifiers: Seq<Modifier>,
    delta: u64,
    value: ActionValue,
    powers: Seq<Powers>,
) -> ActionValue
    decreases modifiers.len(),
{
    if modifiers.len() == 0 {
        value
    } else {
        modifiers.last().spec_apply(
            delta,
            spec_apply_chain(modifiers.drop_last(), delta, value, powers.drop_last()),
            powers.last(),
        )
    }
}

/// Whether `result` is a result of the chain on `value`: the value after the
/// steps of the chain for some powers, one triple for each step.
pub open spec fn is_chain_result(
    modifiers: Seq<Modifier>,
    delta: u64,
    value: ActionValue,
    result: ActionValue,
) -> bool {
    exists|powers: Seq<Powers>|
        powers.len() == modifiers.len() && result == #[trigger] spec_apply_chain(
            modifiers,
            delta,
            value,
            powers,
        )
}

/// Applies the steps of the chain to the value, first to last.
///
/// The result comes about step by step: each exact step gives its one result
/// on the value before it, each exponential curve the shape of some powers of
/// the value before it.
pub fn apply_chain(modifiers: &Vec<Modifier>, delta: u64, value: ActionValue) -> (r: ActionValue)
    ensures
        is_chain_result(modifiers@, delta, value, r),
        chain_is_exact(modifiers@) ==> forall|powers: Seq<Powers>|
            powers.len() == modifiers.len() ==> r == #[trigger] spec_apply_chain(
                modifiers@,
                delta,
                value,
                powers,
            ),
        r.spec_dim() == value.spec_dim(),
        value is Bool ==> r == value,
{
    let mut current = value;
    let ghost mut computed: Seq<Powers> = Seq::empty();
    let mut i: usize = 0;
    while i < modifiers.len()
        invariant
            i <= modifiers.len(),
            computed.len() == i,
            current == spec_apply_chain(modifiers@.take(i as int), delta, value, computed),
            current.spec_dim() == value.spec_dim(),
            value is Bool ==> current == value,
        decreases modifiers.len() - i,
    {
        let next = modifiers[i].apply(delta, current);
        proof {
            let powers = choose|powers: Powers|
                next == modifiers[i as int].spec_apply(delta, current, powers);
            assert(modifiers@.take(i + 1).drop_last() =~= modifiers@.take(i as int));
            assert(computed.push(powers).drop_last() =~= computed);
            computed = computed.push(powers);
        }
        current = next;
        i = i + 1;
    }
    proof {
        assert(modifiers@.take(i as int) =~= modifiers@);
        if chain_is_exact(modifiers@) {
            assert forall|powers: Seq<Powers>| powers.len() == modifiers.len() implies current
                == #[trigger] spec_apply_chain(modifiers@, delta, value, powers) by {
                exact_chain_ignores_powers(modifiers@, delta, value, computed, powers);
            }
        }
    }
    current
}

/// An exact step gives the same result whatever the powers are.
pub proof fn exact_step_ignores_powers(
    modifier: Modifier,
    delta: u64,
    value: ActionValue,
    powers: Powers,
    others: Powers,
)
    requires
        modifier.is_exact(),
    ensures
        modifier.spec_apply(delta, value, powers) == modifier.spec_apply(delta, value, others),
{
}

/// A chain of exact steps gives the same result whatever the powers are.
pub proof fn exact_chain_ignores_powers(
    modifiers: Seq<Modifier>,
    delta: u64,
    value: ActionValue,
    powers: Seq<Powers>,
    others: Seq<Powers>,
)
    requires
        chain_is_exact(modifiers),
    ensures
        spec_apply_chain(modifiers, delta, value, powers) == spec_apply_chain(
            modifiers,
            delta,
            value,
            others,
        ),
    decreases modifiers.len(),
{
    if modifiers.len() > 0 {
        let shorter = modifiers.drop_last();
        assert(forall|i: int| 0 <= i < shorter.len() ==> shorter[i] == modifiers[i]);
        exact_chain_ignores_powers(shorter, delta, value, powers.drop_last(), others.drop_last());
        assert(modifiers.last().is_exact());
    }
}

/// No step changes a boolean or the dimension of a value, whatever the powers
/// are.
pub proof fn step_keeps_dimension(
    modifier: Modifier,
    delta: u64,
    value: ActionValue,
    powers: Powers,
)
    ensures
        modifier.spec_apply(delta, value, powers).spec_dim() == value.spec_dim(),
        value is Bool ==> modifier.spec_apply(delta, value, powers) == value,
{
}

/// No chain changes a boolean or the dimension of a value, whatever the
/// powers are.
pub proof fn chain_keeps_dimension(
    modifiers: Seq<Modifier>,
    delta: u64,
    value: ActionValue,
    powers: Seq<Powers>,
)
    ensures
        spec_apply_chain(modifiers, delta, value, powers).spec_dim() == value.spec_dim(),
        value is Bool ==> spec_apply_chain(modifiers, delta, value, powers) == value,
    decreases modifiers.len(),
{
    if modifiers.len() > 0 {
        chain_keeps_dimension(modifiers.drop_last(), delta, value, powers.drop_last());
        step_keeps_dimension(
            modifiers.last(),
            delta,
            spec_apply_chain(modifiers.drop_last(), delta, value, powers.drop_last()),
            powers.last(),
        );
    }
}

} // verus!
