//! The calls into `rust_decimal`. Nothing in this file is proved: each
//! contract is a claim about that crate, and the rest of the library is
//! proved from these claims.
//!
//! The claims are made of amounts only: decimals with a coefficient below
//! 2^96 and a scale of at most four. Each function here turns its operands
//! into `Decimal`s with `Decimal::from_i128_with_scale`, which takes any such
//! coefficient and scale, and reads a result with `Decimal::mantissa` and
//! `Decimal::scale`.
//!
//! `rust_decimal` adds and subtracts in three steps. An operand that is zero
//! is left out: the other one is the result, negated where it is subtracted
//! from zero. Else the operand with the smaller scale is brought to the
//! larger one. Where the sum or difference of the two coefficients then is
//! below 2^96, it is the result, at that scale. Where it is not, the crate
//! lowers the scale and rounds, or reports an overflow; of that outcome this
//! file claims nothing but that it depends on the operands alone.

use vstd::prelude::*;

use rust_decimal::Decimal;

use crate::amount::{outcome_view, Amount};

verus! {

/// What `Decimal::checked_add` returns for two decimals, each given by its
/// coefficient and scale: the coefficient and scale of the result, or `None`
/// for an overflow.
pub uninterp spec fn decimal_sum(
    a_mantissa: int,
    a_scale: u32,
    b_mantissa: int,
    b_scale: u32,
) -> Option<(int, u32)>;

/// What `Decimal::checked_sub` returns for two decimals, each given by its
/// coefficient and scale: the coefficient and scale of the result, or `None`
/// for an overflow.
pub uninterp spec fn decimal_difference(
    a_mantissa: int,
    a_scale: u32,
    b_mantissa: int,
    b_scale: u32,
) -> Option<(int, u32)>;

/// `Decimal::checked_add`: coefficient and scale of the sum.
///
/// Claimed: the call returns, and what it returns depends on the operands
/// alone. Where the sum of the aligned coefficients is below 2^96, it is
/// returned, at the joint scale: the sum is exact.
#[verifier::external_body]
pub(crate) fn decimal_checked_add(a: Amount, b: Amount) -> (r: Option<(i128, u32)>)
    requires
        a.wf(),
        b.wf(),
    ensures
        outcome_view(r) == decimal_sum(a@.mantissa, a@.scale, b@.mantissa, b@.scale),
        a@.sum_fits(b@) ==> r == Some((a@.joint_mantissa(b@, 1) as i128, a@.joint_scale(b@))),
{
    let a = Decimal::from_i128_with_scale(a.mantissa(), a.scale());
    let b = Decimal::from_i128_with_scale(b.mantissa(), b.scale());
    a.checked_add(b).map(|sum| (sum.mantissa(), sum.scale()))
}

/// `Decimal::checked_sub`: coefficient and scale of the difference.
///
/// Claimed: the call returns, and what it returns depends on the operands
/// alone. Where the difference of the aligned coefficients is below 2^96 in
/// magnitude, it is returned, at the joint scale: the difference is exact.
#[verifier::external_body]
pub(crate) fn decimal_checked_sub(a: Amount, b: Amount) -> (r: Option<(i128, u32)>)
    requires
        a.wf(),
        b.wf(),
    ensures
        outcome_view(r) == decimal_difference(a@.mantissa, a@.scale, b@.mantissa, b@.scale),
        a@.difference_fits(b@) ==> r == Some(
            (a@.joint_mantissa(b@, -1) as i128, a@.joint_scale(b@)),
        ),
{
    let a = Decimal::from_i128_with_scale(a.mantissa(), a.scale());
    let b = Decimal::from_i128_with_scale(b.mantissa(), b.scale());
    a.checked_sub(b).map(|difference| (difference.mantissa(), difference.scale()))
}

/// `Decimal >= Decimal`, that is `PartialOrd::ge`.
///
/// Claimed: the answer is that of the two numbers compared, whatever their
/// scales.
#[verifier::external_body]
pub(crate) fn decimal_ge(a: Amount, b: Amount) -> (r: bool)
    requires
        a.wf(),
        b.wf(),
    ensures
        r == (a@.units() >= b@.units()),
{
    Decimal::from_i128_with_scale(a.mantissa(), a.scale())
        >= Decimal::from_i128_with_scale(b.mantissa(), b.scale())
}

} // verus!
