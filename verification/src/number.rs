//! Arithmetic on the single-precision numbers that axis values are made of.
//!
//! The numbers are carried in [`FloatOrd`] and are opaque to the verifier:
//! every operation on them is a call into the standard library that is
//! trusted to return what its contract names. IEEE 754 fixes the result of
//! each of the named operations but for the bits of a NaN, so two numbers
//! count as the same when they agree bit for bit, or are both NaN.

use bevy::math::FloatOrd;
use std::time::Duration;
use vstd::prelude::*;

verus! {

#[verifier::external_type_specification]
#[verifier::external_body]
pub struct ExFloatOrd(FloatOrd);

/// The number that a 16-bit integer converts to.
pub uninterp spec fn whole_number(n: i16) -> FloatOrd;

/// The rounded sum of two numbers.
pub uninterp spec fn sum_of(a: FloatOrd, b: FloatOrd) -> FloatOrd;

/// The rounded product of two numbers.
pub uninterp spec fn product_of(a: FloatOrd, b: FloatOrd) -> FloatOrd;

/// The rounded quotient of two numbers.
pub uninterp spec fn quotient_of(a: FloatOrd, b: FloatOrd) -> FloatOrd;

/// The sign of a number as a number: one or minus one, NaN for a NaN.
pub uninterp spec fn sign_of(a: FloatOrd) -> FloatOrd;

/// The absolute value of a number.
pub uninterp spec fn magnitude_of(a: FloatOrd) -> FloatOrd;

/// Whether two numbers compare as unequal. Both zeros compare as equal, and
/// a NaN as unequal to every number.
pub uninterp spec fn differ(a: FloatOrd, b: FloatOrd) -> bool;

/// Whether the first number is greater than or equal to the second.
pub uninterp spec fn reaches(a: FloatOrd, b: FloatOrd) -> bool;

/// The duration of a count of nanoseconds.
pub uninterp spec fn duration_of(nanos: u64) -> Duration;

/// A duration as a number of seconds.
pub uninterp spec fn seconds_in(duration: Duration) -> FloatOrd;

/// A span of nanoseconds as a number of seconds.
pub open spec fn seconds_of(nanos: u64) -> FloatOrd {
    seconds_in(duration_of(nanos))
}

/// Whether a number differs from zero.
pub open spec fn is_nonzero(a: FloatOrd) -> bool {
    differ(a, zero())
}

/// The number zero.
pub open spec fn zero() -> FloatOrd {
    whole_number(0)
}

/// The number one.
pub open spec fn one() -> FloatOrd {
    whole_number(1)
}

/// Converts an integer with `From<i16>`, which is lossless. Trusted: the
/// result depends on the argument alone.
#[verifier::external_body]
pub(crate) fn whole(n: i16) -> (r: FloatOrd)
    ensures
        r == whole_number(n),
{
    FloatOrd(n.into())
}

/// Calls `Add::add` of the primitive type. Trusted: the result is the
/// correctly rounded sum, which depends on the two operands alone.
#[verifier::external_body]
pub(crate) fn plus(a: FloatOrd, b: FloatOrd) -> (r: FloatOrd)
    ensures
        r == sum_of(a, b),
{
    FloatOrd(std::ops::Add::add(a.0, b.0))
}

/// Calls `Mul::mul` of the primitive type. Trusted: the result is the
/// correctly rounded product, which depends on the two operands alone.
#[verifier::external_body]
pub(crate) fn times(a: FloatOrd, b: FloatOrd) -> (r: FloatOrd)
    ensures
        r == product_of(a, b),
{
    FloatOrd(std::ops::Mul::mul(a.0, b.0))
}

/// Calls `Div::div` of the primitive type. Trusted: the result is the
/// correctly rounded quotient, which depends on the two operands alone.
#[verifier::external_body]
pub(crate) fn over(a: FloatOrd, b: FloatOrd) -> (r: FloatOrd)
    ensures
        r == quotient_of(a, b),
{
    FloatOrd(std::ops::Div::div(a.0, b.0))
}

/// Calls `signum` of the primitive type. Trusted: the result is one for a
/// positive number and positive zero, minus one for a negative number and
/// negative zero, and NaN for a NaN; it depends on the operand alone.
#[verifier::external_body]
pub(crate) fn signum(a: FloatOrd) -> (r: FloatOrd)
    ensures
        r == sign_of(a),
{
    FloatOrd(a.0.signum())
}

/// Calls `abs` of the primitive type. Trusted: the result is the operand with
/// its sign cleared; it depends on the operand alone.
#[verifier::external_body]
pub(crate) fn absolute(a: FloatOrd) -> (r: FloatOrd)
    ensures
        r == magnitude_of(a),
{
    FloatOrd(a.0.abs())
}

/// Calls `powf` of the primitive type. Its precision is unspecified and may
/// differ from call to call, so nothing is claimed of the result.
#[verifier::external_body]
pub(crate) fn raise(base: FloatOrd, exponent: FloatOrd) -> (r: FloatOrd) {
    FloatOrd(base.0.powf(exponent.0))
}

/// Calls `PartialEq::ne` of the primitive type. Trusted: the answer depends
/// on the two operands alone; it is false for two zeros of either sign and
/// true when either operand is a NaN.
#[verifier::external_body]
pub(crate) fn unequal(a: FloatOrd, b: FloatOrd) -> (r: bool)
    ensures
        r == differ(a, b),
{
    PartialEq::ne(&a.0, &b.0)
}

/// Calls `PartialOrd::ge` of the primitive type. Trusted: the answer depends
/// on the two operands alone; it is false when either is a NaN.
#[verifier::external_body]
pub(crate) fn at_least(a: FloatOrd, b: FloatOrd) -> (r: bool)
    ensures
        r == reaches(a, b),
{
    PartialOrd::ge(&a.0, &b.0)
}

/// Calls `Duration::from_nanos`. Trusted: the result depends on the argument
/// alone.
#[verifier::external_body]
pub(crate) fn duration_from_nanos(nanos: u64) -> (r: Duration)
    ensures
        r == duration_of(nanos),
{
    Duration::from_nanos(nanos)
}

/// Calls `Duration::as_secs_f32`. Trusted: the result depends on the argument
/// alone.
#[verifier::external_body]
pub(crate) fn duration_seconds(duration: Duration) -> (r: FloatOrd)
    ensures
        r == seconds_in(duration),
{
    FloatOrd(duration.as_secs_f32())
}

/// Returns whether the number differs from zero.
pub(crate) fn nonzero(a: FloatOrd) -> (r: bool)
    ensures
        r == is_nonzero(a),
{
    unequal(a, whole(0))
}

/// Returns the span of nanoseconds as a number of seconds.
pub(crate) fn seconds(nanos: u64) -> (r: FloatOrd)
    ensures
        r == seconds_of(nanos),
{
    duration_seconds(duration_from_nanos(nanos))
}

} // verus!
