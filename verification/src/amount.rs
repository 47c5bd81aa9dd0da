//! Money amounts: the decimals with at most four fractional digits.
//! `rust_decimal` adds, subtracts and compares them; a sum or difference
//! counts only where it is exact.

use vstd::prelude::*;

use crate::decimal::{
    decimal_checked_add, decimal_checked_sub, decimal_difference, decimal_ge, decimal_sum,
};

verus! {

/// Most fractional digits an amount may carry.
pub const MAX_SCALE: u32 = 4;

/// Largest magnitude of the coefficient of an amount: 2^96 - 1.
pub const MAX_MANTISSA: i128 = 0xFFFF_FFFF_FFFF_FFFF_FFFF_FFFF;

/// Ten to the power `e`.
pub open spec fn pow10(e: nat) -> int
    decreases e,
{
    if e == 0 {
        1
    } else {
        10 * pow10((e - 1) as nat)
    }
}

/// How many ten-thousandths one step of a coefficient at `scale` is worth.
pub open spec fn unit_weight(scale: u32) -> int {
    pow10((MAX_SCALE - scale) as nat)
}

/// The first five powers of ten, spelled out.
pub proof fn lemma_pow10_values()
    ensures
        pow10(0) == 1,
        pow10(1) == 10,
        pow10(2) == 100,
        pow10(3) == 1_000,
        pow10(4) == 10_000,
{
    reveal_with_fuel(pow10, 5);
}

/// A decimal `mantissa / 10^scale`, as a pair of numbers.
pub struct AmountView {
    pub mantissa: int,
    pub scale: u32,
}

/// Whether a coefficient and a scale denote an amount: at most four
/// fractional digits, and a coefficient below 2^96 in magnitude.
pub open spec fn representable(mantissa: int, scale: u32) -> bool {
    &&& scale <= MAX_SCALE
    &&& -MAX_MANTISSA <= mantissa <= MAX_MANTISSA
}

/// An outcome of `rust_decimal`, its coefficient read as a number.
pub open spec fn outcome_view(outcome: Option<(i128, u32)>) -> Option<(int, u32)> {
    match outcome {
        Some(pair) => Some((pair.0 as int, pair.1)),
        None => None,
    }
}

/// What is made of an outcome of `rust_decimal` that should amount to
/// `units` ten-thousandths: the outcome itself where it is an amount of
/// exactly that many, and nothing where it is an overflow, a rounded result
/// or no amount.
pub open spec fn exact(units: int, outcome: Option<(int, u32)>) -> Option<AmountView> {
    match outcome {
        Some(pair) => if representable(pair.0, pair.1) && pair.0 * unit_weight(pair.1) == units {
            Some(AmountView { mantissa: pair.0, scale: pair.1 })
        } else {
            None
        },
        None => None,
    }
}

impl AmountView {
    /// Whether the pair denotes an amount.
    pub open spec fn valid(self) -> bool {
        representable(self.mantissa, self.scale)
    }

    /// The amount in ten-thousandths.
    pub open spec fn units(self) -> int {
        self.mantissa * unit_weight(self.scale)
    }

    /// The scale of the sum or difference of this amount and `other`: the
    /// scale of the other operand where one of the two is zero, and else
    /// the larger of the two scales.
    pub open spec fn joint_scale(self, other: AmountView) -> u32 {
        if self.mantissa == 0 {
            other.scale
        } else if other.mantissa == 0 {
            self.scale
        } else if self.scale >= other.scale {
            self.scale
        } else {
            other.scale
        }
    }

    /// The coefficient, at the joint scale, of this amount plus `sign` times
    /// `other`, for a `sign` of 1 or -1.
    pub open spec fn joint_mantissa(self, other: AmountView, sign: int) -> int {
        if self.mantissa == 0 {
            sign * other.mantissa
        } else if other.mantissa == 0 {
            self.mantissa
        } else {
            self.mantissa * pow10((self.joint_scale(other) - self.scale) as nat) + sign
                * other.mantissa * pow10((self.joint_scale(other) - other.scale) as nat)
        }
    }

    /// Whether the sum with `other` has a coefficient below 2^96 at the
    /// joint scale.
    pub open spec fn sum_fits(self, other: AmountView) -> bool {
        -MAX_MANTISSA <= self.joint_mantissa(other, 1) <= MAX_MANTISSA
    }

    /// Whether the difference from `other` has a coefficient below 2^96 at
    /// the joint scale.
    pub open spec fn difference_fits(self, other: AmountView) -> bool {
        -MAX_MANTISSA <= self.joint_mantissa(other, -1) <= MAX_MANTISSA
    }

    /// The sum with `other`, where it can be had exactly. Where the sum
    /// fits at the joint scale, it is had at that scale. Where it does not,
    /// it is what `rust_decimal` returns, if that is exact.
    pub open spec fn sum(self, other: AmountView) -> Option<AmountView> {
        if self.sum_fits(other) {
            Some(
                AmountView {
                    mantissa: self.joint_mantissa(other, 1),
                    scale: self.joint_scale(other),
                },
            )
        } else {
            exact(
                self.units() + other.units(),
                decimal_sum(self.mantissa, self.scale, other.mantissa, other.scale),
            )
        }
    }

    /// The difference from `other`, where it can be had exactly. Where the
    /// difference fits at the joint scale, it is had at that scale. Where it
    /// does not, it is what `rust_decimal` returns, if that is exact.
    pub open spec fn difference(self, other: AmountView) -> Option<AmountView> {
        if self.difference_fits(other) {
            Some(
                AmountView {
                    mantissa: self.joint_mantissa(other, -1),
                    scale: self.joint_scale(other),
                },
            )
        } else {
            exact(
                self.units() - other.units(),
                decimal_difference(self.mantissa, self.scale, other.mantissa, other.scale),
            )
        }
    }
}

/// The coefficient at the joint scale is worth the sum, or the difference,
/// of the two amounts, and the joint scale is that of one of them.
pub proof fn lemma_joint_units(a: AmountView, b: AmountView, sign: int)
    requires
        a.scale <= MAX_SCALE,
        b.scale <= MAX_SCALE,
        sign == 1 || sign == -1,
    ensures
        a.joint_scale(b) <= MAX_SCALE,
        a.joint_mantissa(b, sign) * unit_weight(a.joint_scale(b)) == a.units() + sign * b.units(),
{
    lemma_pow10_values();
    let j = a.joint_scale(b);
    let wa = pow10((j - a.scale) as nat);
    let wb = pow10((j - b.scale) as nat);
    if a.mantissa != 0 && b.mantissa != 0 {
        assert(wa * unit_weight(j) == unit_weight(a.scale)) by {
            lemma_pow10_product(a.scale, j);
        }
        assert(wb * unit_weight(j) == unit_weight(b.scale)) by {
            lemma_pow10_product(b.scale, j);
        }
        assert((a.mantissa * wa + sign * b.mantissa * wb) * unit_weight(j) == a.mantissa * (wa
            * unit_weight(j)) + sign * (b.mantissa * (wb * unit_weight(j)))) by (nonlinear_arith);
    } else if a.mantissa == 0 {
        assert(a.units() == 0);
        assert((sign * b.mantissa) * unit_weight(j) == sign * (b.mantissa * unit_weight(j)))
            by (nonlinear_arith);
    } else {
        assert(b.units() == 0);
        assert(sign * b.units() == 0);
    }
}

/// Between two scales of at most four, the powers of ten multiply up.
pub proof fn lemma_pow10_product(low: u32, high: u32)
    requires
        low <= high <= MAX_SCALE,
    ensures
        pow10((high - low) as nat) * unit_weight(high) == unit_weight(low),
{
    lemma_pow10_values();
    if low == 0 {
        if high == 0 {
        } else if high == 1 {
        } else if high == 2 {
        } else if high == 3 {
        } else {
        }
    } else if low == 1 {
        if high == 1 {
        } else if high == 2 {
        } else if high == 3 {
        } else {
        }
    } else if low == 2 {
        if high == 2 {
        } else if high == 3 {
        } else {
        }
    } else if low == 3 {
        if high == 3 {
        } else {
        }
    } else {
    }
}

/// A sum that is had is exact, and it is an amount.
pub proof fn lemma_sum_exact(a: AmountView, b: AmountView)
    requires
        a.valid(),
        b.valid(),
    ensures
        a.sum(b) matches Some(sum) ==> sum.valid() && sum.units() == a.units() + b.units(),
{
    lemma_joint_units(a, b, 1);
}

/// A difference that is had is exact, and it is an amount.
pub proof fn lemma_difference_exact(a: AmountView, b: AmountView)
    requires
        a.valid(),
        b.valid(),
    ensures
        a.difference(b) matches Some(difference) ==> difference.valid() && difference.units()
            == a.units() - b.units(),
{
    lemma_joint_units(a, b, -1);
}

/// A sum of at most 2^96 - 1 ten-thousandths in magnitude is had, whatever
/// the scales.
pub proof fn lemma_small_sum_is_had(a: AmountView, b: AmountView)
    requires
        a.valid(),
        b.valid(),
        -MAX_MANTISSA <= a.units() + b.units() <= MAX_MANTISSA,
    ensures
        a.sum(b) is Some,
{
    lemma_joint_units(a, b, 1);
    lemma_pow10_values();
    let m = a.joint_mantissa(b, 1);
    let w = unit_weight(a.joint_scale(b));
    assert(1 <= w) by {
        lemma_weight_positive(a.joint_scale(b));
    }
    assert(-MAX_MANTISSA <= m <= MAX_MANTISSA) by (nonlinear_arith)
        requires
            1 <= w,
            -MAX_MANTISSA <= m * w <= MAX_MANTISSA,
    ;
}

/// A difference of at most 2^96 - 1 ten-thousandths in magnitude is had,
/// whatever the scales.
pub proof fn lemma_small_difference_is_had(a: AmountView, b: AmountView)
    requires
        a.valid(),
        b.valid(),
        -MAX_MANTISSA <= a.units() - b.units() <= MAX_MANTISSA,
    ensures
        a.difference(b) is Some,
{
    lemma_joint_units(a, b, -1);
    let m = a.joint_mantissa(b, -1);
    let w = unit_weight(a.joint_scale(b));
    assert(1 <= w) by {
        lemma_weight_positive(a.joint_scale(b));
    }
    assert(-MAX_MANTISSA <= m <= MAX_MANTISSA) by (nonlinear_arith)
        requires
            1 <= w,
            -MAX_MANTISSA <= m * w <= MAX_MANTISSA,
    ;
}

/// A coefficient step is worth between one and ten thousand
/// ten-thousandths.
pub proof fn lemma_weight_positive(scale: u32)
    requires
        scale <= MAX_SCALE,
    ensures
        1 <= unit_weight(scale) <= 10_000,
{
    lemma_pow10_values();
    if scale == 0 {
    } else if scale == 1 {
    } else if scale == 2 {
    } else if scale == 3 {
    } else {
    }
}

/// A decimal amount `mantissa / 10^scale` with at most four fractional
/// digits and a coefficient below 2^96.
///
/// Two amounts are equal when they denote the same number, whatever their
/// scales: `1.5` equals `1.50`.
#[derive(Debug, Clone, Copy)]
pub struct Amount {
    mantissa: i128,
    scale: u32,
}

impl View for Amount {
    type V = AmountView;

    closed spec fn view(&self) -> AmountView {
        AmountView { mantissa: self.mantissa as int, scale: self.scale }
    }
}

/// `unit_weight` as a machine integer.
fn weight_of(scale: u32) -> (w: i128)
    requires
        scale <= MAX_SCALE,
    ensures
        w == unit_weight(scale),
        1 <= w <= 10_000,
{
    proof {
        lemma_pow10_values();
    }
    if scale == 0 {
        10_000
    } else if scale == 1 {
        1_000
    } else if scale == 2 {
        100
    } else if scale == 3 {
        10
    } else {
        1
    }
}

impl Amount {
    /// Every amount is representable.
    #[verifier::type_invariant]
    pub open spec fn wf(&self) -> bool {
        self@.valid()
    }

    /// The amount `mantissa / 10^scale`, if it is representable.
    pub fn new(mantissa: i128, scale: u32) -> (r: Option<Amount>)
        ensures
            r is Some <==> representable(mantissa as int, scale),
            r matches Some(a) ==> a@ == (AmountView { mantissa: mantissa as int, scale }),
    {
        if scale > MAX_SCALE || mantissa < -MAX_MANTISSA || mantissa > MAX_MANTISSA {
            None
        } else {
            Some(Amount { mantissa, scale })
        }
    }

    /// The amount zero.
    pub fn zero() -> (r: Amount)
        ensures
            r@ == (AmountView { mantissa: 0, scale: 0 }),
    {
        Amount { mantissa: 0, scale: 0 }
    }

    /// The coefficient of the amount.
    pub fn mantissa(&self) -> (r: i128)
        ensures
            r == self@.mantissa,
    {
        self.mantissa
    }

    /// The number of fractional digits of the amount.
    pub fn scale(&self) -> (r: u32)
        ensures
            r == self@.scale,
            r <= MAX_SCALE,
    {
        proof {
            use_type_invariant(self);
        }
        self.scale
    }

    /// The amount in ten-thousandths.
    pub fn units(&self) -> (r: i128)
        ensures
            r == self@.units(),
            -10_000 * MAX_MANTISSA <= r <= 10_000 * MAX_MANTISSA,
    {
        proof {
            use_type_invariant(self);
        }
        let w = weight_of(self.scale);
        assert(-10_000 * MAX_MANTISSA <= self.mantissa * w <= 10_000 * MAX_MANTISSA)
            by (nonlinear_arith)
            requires
                -MAX_MANTISSA <= self.mantissa <= MAX_MANTISSA,
                1 <= w <= 10_000,
        ;
        self.mantissa * w
    }

    /// Whether the amount is below zero.
    pub fn is_sign_negative(&self) -> (r: bool)
        ensures
            r == (self@.units() < 0),
    {
        proof {
            use_type_invariant(self);
            lemma_weight_positive(self.scale);
            assert(self@.units() < 0 <==> self.mantissa < 0) by (nonlinear_arith)
                requires
                    self@.units() == self.mantissa * unit_weight(self.scale),
                    1 <= unit_weight(self.scale),
            ;
        }
        self.mantissa < 0
    }

    /// What is made of an outcome of `rust_decimal` that should amount to
    /// `units` ten-thousandths: the amount, where the outcome is exactly
    /// that.
    pub fn exact(units: i128, outcome: Option<(i128, u32)>) -> (r: Option<Amount>)
        ensures
            r is Some <==> exact(units as int, outcome_view(outcome)) is Some,
            r matches Some(amount) ==> Some(amount@) == exact(units as int, outcome_view(outcome)),
    {
        match outcome {
            Some(pair) => match Amount::new(pair.0, pair.1) {
                Some(amount) => if amount.units() == units {
                    Some(amount)
                } else {
                    None
                },
                None => None,
            },
            None => None,
        }
    }

    /// The sum of two amounts, where it can be had exactly.
    pub fn checked_add(self, other: Amount) -> (r: Option<Amount>)
        ensures
            r is Some <==> self@.sum(other@) is Some,
            r matches Some(sum) ==> Some(sum@) == self@.sum(other@) && sum@.units() == self@.units()
                + other@.units(),
    {
        proof {
            use_type_invariant(self);
            use_type_invariant(other);
            lemma_sum_exact(self@, other@);
        }
        let outcome = decimal_checked_add(self, other);
        Amount::exact(self.units() + other.units(), outcome)
    }

    /// The difference of two amounts, where it can be had exactly.
    pub fn checked_sub(self, other: Amount) -> (r: Option<Amount>)
        ensures
            r is Some <==> self@.difference(other@) is Some,
            r matches Some(difference) ==> Some(difference@) == self@.difference(other@)
                && difference@.units() == self@.units() - other@.units(),
    {
        proof {
            use_type_invariant(self);
            use_type_invariant(other);
            lemma_difference_exact(self@, other@);
        }
        let outcome = decimal_checked_sub(self, other);
        Amount::exact(self.units() - other.units(), outcome)
    }

    /// Whether this amount is at least `other`.
    pub fn ge(&self, other: &Amount) -> (r: bool)
        ensures
            r == (self@.units() >= other@.units()),
    {
        proof {
            use_type_invariant(self);
            use_type_invariant(other);
        }
        decimal_ge(*self, *other)
    }
}

impl PartialEq for Amount {
    fn eq(&self, other: &Amount) -> (r: bool) {
        self.units() == other.units()
    }
}

impl vstd::std_specs::cmp::PartialEqSpecImpl for Amount {
    open spec fn obeys_eq_spec() -> bool {
        true
    }

    open spec fn eq_spec(&self, other: &Amount) -> bool {
        self@.units() == other@.units()
    }
}

} // verus!
