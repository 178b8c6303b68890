//! Arbitrary-precision decimal numbers.
//!
//! A [`Decimal`] holds a sign, the base-10 digits of an unscaled integer and a
//! scale: its value is the unscaled integer divided by ten to the scale. The
//! arithmetic itself is done by the `bigdecimal` crate; the functions that
//! call it are marked as trusted and say in their contracts what is assumed of
//! it.

use bigdecimal::num_bigint::{BigInt, Sign};
use bigdecimal::BigDecimal;
use vstd::prelude::*;

verus! {

/// The largest scale, in absolute value, that a [`Decimal`] may carry.
pub const MAX_SCALE: i64 = 100_000;

/// Ten to the power `exponent`.
pub open spec fn pow10(exponent: nat) -> int
    decreases exponent,
{
    if exponent == 0 {
        1
    } else {
        10 * pow10((exponent - 1) as nat)
    }
}

/// The number written by `digits` in base 10, most significant digit first.
pub open spec fn digits_value(digits: Seq<u8>) -> int
    decreases digits.len(),
{
    if digits.len() == 0 {
        0
    } else {
        digits_value(digits.drop_last()) * 10 + digits.last() as int
    }
}

/// Every element of `digits` is a base-10 digit.
pub open spec fn all_decimal_digits(digits: Seq<u8>) -> bool {
    forall|i: int| 0 <= i < digits.len() ==> #[trigger] digits[i] < 10
}

/// The integer with the given sign and magnitude.
pub open spec fn signed(negative: bool, magnitude: int) -> int {
    if negative {
        -magnitude
    } else {
        magnitude
    }
}

/// The mathematical content of a [`Decimal`]: the number
/// `unscaled / 10^scale`.
pub struct DecimalView {
    pub unscaled: int,
    pub scale: int,
}

impl DecimalView {
    /// The scale is one that a [`Decimal`] can carry.
    pub open spec fn in_range(self) -> bool {
        -MAX_SCALE <= self.scale <= MAX_SCALE
    }

    /// The unscaled integer of the same number written at `scale`, which is
    /// meant to be at least `self.scale`.
    pub open spec fn rescaled(self, scale: int) -> int {
        self.unscaled * pow10((scale - self.scale) as nat)
    }

    /// The larger of the two scales: the one at which both numbers can be
    /// written without loss.
    pub open spec fn common_scale(self, other: DecimalView) -> int {
        if self.scale >= other.scale {
            self.scale
        } else {
            other.scale
        }
    }

    /// The exact sum, written at the common scale.
    pub open spec fn plus(self, other: DecimalView) -> DecimalView {
        let scale = self.common_scale(other);
        DecimalView { unscaled: self.rescaled(scale) + other.rescaled(scale), scale }
    }

    /// The exact difference, written at the common scale.
    pub open spec fn minus(self, other: DecimalView) -> DecimalView {
        let scale = self.common_scale(other);
        DecimalView { unscaled: self.rescaled(scale) - other.rescaled(scale), scale }
    }

    /// The absolute value, at the same scale.
    pub open spec fn abs(self) -> DecimalView {
        DecimalView {
            unscaled: if self.unscaled < 0 {
                -self.unscaled
            } else {
                self.unscaled
            },
            scale: self.scale,
        }
    }

    /// `self` is the smaller number.
    pub open spec fn less_than(self, other: DecimalView) -> bool {
        let scale = self.common_scale(other);
        self.rescaled(scale) < other.rescaled(scale)
    }

    /// The two stand for the same number, whatever their scales.
    pub open spec fn same_number(self, other: DecimalView) -> bool {
        let scale = self.common_scale(other);
        self.rescaled(scale) == other.rescaled(scale)
    }
}

/// A decimal number of arbitrary precision.
#[derive(Debug)]
pub struct Decimal {
    negative: bool,
    digits: Vec<u8>,
    scale: i64,
}

impl View for Decimal {
    type V = DecimalView;

    closed spec fn view(&self) -> DecimalView {
        DecimalView {
            unscaled: signed(self.negative, digits_value(self.digits@)),
            scale: self.scale as int,
        }
    }
}

impl Clone for Decimal {
    fn clone(&self) -> (r: Self)
        ensures
            r@ == self@,
    {
        proof {
            use_type_invariant(self);
        }
        let digits = self.digits.clone();
        assert(digits@ =~= self.digits@);
        Decimal { negative: self.negative, digits, scale: self.scale }
    }
}

impl Decimal {
    /// The digits are base-10 digits and the scale is within
    /// [`MAX_SCALE`] of zero.
    #[verifier::type_invariant]
    pub closed spec fn wf(&self) -> bool {
        &&& all_decimal_digits(self.digits@)
        &&& -MAX_SCALE <= self.scale <= MAX_SCALE
    }

    /// The decimal with the given sign, base-10 digits (most significant
    /// first) and scale, if the digits are digits and the scale is in range.
    pub fn from_parts(negative: bool, digits: Vec<u8>, scale: i64) -> (r: Option<Decimal>)
        ensures
            r is Some <==> all_decimal_digits(digits@) && -MAX_SCALE <= scale <= MAX_SCALE,
            r matches Some(d) ==> d@ == (DecimalView {
                unscaled: signed(negative, digits_value(digits@)),
                scale: scale as int,
            }) && d.wf(),
    {
        if scale < -MAX_SCALE || scale > MAX_SCALE {
            return None;
        }
        let mut i: usize = 0;
        while i < digits.len()
            invariant
                i <= digits.len(),
                forall|j: int| 0 <= j < i ==> #[trigger] digits@[j] < 10,
            decreases digits.len() - i,
        {
            if digits[i] >= 10 {
                return None;
            }
            i += 1;
        }
        Some(Decimal { negative, digits, scale })
    }

    /// Zero, at scale 0.
    pub fn zero() -> (r: Decimal)
        ensures
            r@ == (DecimalView { unscaled: 0, scale: 0 }),
            r.wf(),
    {
        let digits: Vec<u8> = Vec::new();
        Decimal { negative: false, digits, scale: 0 }
    }

    /// The scale: the number of digits after the decimal point.
    pub fn scale(&self) -> (r: i64)
        ensures
            r == self@.scale,
            -MAX_SCALE <= r <= MAX_SCALE,
    {
        proof {
            use_type_invariant(self);
        }
        self.scale
    }
}

/// What `bigdecimal` returns for the division of the number
/// `dividend_unscaled / 10^dividend_scale` by the number
/// `divisor_unscaled / 10^divisor_scale`, as unscaled integer and scale.
pub uninterp spec fn decimal_quotient(
    dividend_unscaled: int,
    dividend_scale: int,
    divisor_unscaled: int,
    divisor_scale: int,
) -> (int, int);

/// `BigDecimal`'s `+=`. Assumed: the operand with the smaller scale is
/// brought to the larger one by multiplying its unscaled integer with a power
/// of ten, the unscaled integers are added, and the result carries the larger
/// scale. Also assumed: `BigInt::from_radix_be` reads base-10 digits most
/// significant first, and `BigInt::to_radix_be` writes them so.
#[verifier::external_body]
fn sum_parts(a: &Decimal, b: &Decimal) -> (r: (bool, Vec<u8>, i64))
    requires
        a.wf(),
        b.wf(),
    ensures
        all_decimal_digits(r.1@),
        signed(r.0, digits_value(r.1@)) == a@.plus(b@).unscaled,
        r.2 == a@.plus(b@).scale,
{
    let a_sign = if a.negative { Sign::Minus } else { Sign::Plus };
    let b_sign = if b.negative { Sign::Minus } else { Sign::Plus };
    let mut x = BigDecimal::new(BigInt::from_radix_be(a_sign, &a.digits, 10).unwrap_or_default(), a.scale);
    let y = BigDecimal::new(BigInt::from_radix_be(b_sign, &b.digits, 10).unwrap_or_default(), b.scale);
    x += y;
    let (unscaled, scale) = x.into_bigint_and_exponent();
    let (sign, digits) = unscaled.to_radix_be(10);
    (sign == Sign::Minus, digits, scale)
}

/// `BigDecimal`'s `-`. Assumed: as for the sum, with the unscaled integers
/// subtracted after they are brought to the larger scale.
#[verifier::external_body]
fn difference_parts(a: &Decimal, b: &Decimal) -> (r: (bool, Vec<u8>, i64))
    requires
        a.wf(),
        b.wf(),
    ensures
        all_decimal_digits(r.1@),
        signed(r.0, digits_value(r.1@)) == a@.minus(b@).unscaled,
        r.2 == a@.minus(b@).scale,
{
    let a_sign = if a.negative { Sign::Minus } else { Sign::Plus };
    let b_sign = if b.negative { Sign::Minus } else { Sign::Plus };
    let x = BigDecimal::new(BigInt::from_radix_be(a_sign, &a.digits, 10).unwrap_or_default(), a.scale);
    let y = BigDecimal::new(BigInt::from_radix_be(b_sign, &b.digits, 10).unwrap_or_default(), b.scale);
    let (unscaled, scale) = (x - y).into_bigint_and_exponent();
    let (sign, digits) = unscaled.to_radix_be(10);
    (sign == Sign::Minus, digits, scale)
}

/// `BigDecimal`'s `<`. Assumed: it orders the numbers by value, whatever
/// their scales.
#[verifier::external_body]
fn is_less(a: &Decimal, b: &Decimal) -> (r: bool)
    requires
        a.wf(),
        b.wf(),
    ensures
        r == a@.less_than(b@),
{
    let a_sign = if a.negative { Sign::Minus } else { Sign::Plus };
    let b_sign = if b.negative { Sign::Minus } else { Sign::Plus };
    let x = BigDecimal::new(BigInt::from_radix_be(a_sign, &a.digits, 10).unwrap_or_default(), a.scale);
    let y = BigDecimal::new(BigInt::from_radix_be(b_sign, &b.digits, 10).unwrap_or_default(), b.scale);
    x < y
}

/// `BigDecimal`'s `/`, which panics on a zero divisor. Assumed: the result
/// depends on the two numbers alone; it is named [`decimal_quotient`] and
/// nothing more is said of it.
#[verifier::external_body]
fn quotient_parts(a: &Decimal, b: &Decimal) -> (r: (bool, Vec<u8>, i64))
    requires
        a.wf(),
        b.wf(),
        b@.unscaled != 0,
    ensures
        all_decimal_digits(r.1@),
        (signed(r.0, digits_value(r.1@)), r.2 as int) == decimal_quotient(
            a@.unscaled,
            a@.scale,
            b@.unscaled,
            b@.scale,
        ),
{
    let a_sign = if a.negative { Sign::Minus } else { Sign::Plus };
    let b_sign = if b.negative { Sign::Minus } else { Sign::Plus };
    let x = BigDecimal::new(BigInt::from_radix_be(a_sign, &a.digits, 10).unwrap_or_default(), a.scale);
    let y = BigDecimal::new(BigInt::from_radix_be(b_sign, &b.digits, 10).unwrap_or_default(), b.scale);
    let (unscaled, scale) = (x / y).into_bigint_and_exponent();
    let (sign, digits) = unscaled.to_radix_be(10);
    (sign == Sign::Minus, digits, scale)
}

/// `BigDecimal::from` on a `u64`. Assumed: the result has the unscaled
/// integer `n` and scale 0.
#[verifier::external_body]
fn parts_of(n: u64) -> (r: (Vec<u8>, i64))
    ensures
        all_decimal_digits(r.0@),
        digits_value(r.0@) == n,
        r.1 == 0,
{
    let (unscaled, scale) = BigDecimal::from(n).into_bigint_and_exponent();
    (unscaled.to_radix_be(10).1, scale)
}

impl Decimal {
    /// The whole number `n`, at scale 0.
    pub fn from_u64(n: u64) -> (r: Decimal)
        ensures
            r@ == (DecimalView { unscaled: n as int, scale: 0 }),
            r.wf(),
    {
        let (digits, scale) = parts_of(n);
        Decimal { negative: false, digits, scale }
    }

    /// The number `unscaled / 10^scale`.
    pub fn from_scaled_u64(unscaled: u64, scale: i64) -> (r: Decimal)
        requires
            -MAX_SCALE <= scale <= MAX_SCALE,
        ensures
            r@ == (DecimalView { unscaled: unscaled as int, scale: scale as int }),
            r.wf(),
    {
        let (digits, _) = parts_of(unscaled);
        Decimal { negative: false, digits, scale }
    }

    /// One hundredth: 0.01.
    pub fn one_hundredth() -> (r: Decimal)
        ensures
            r@ == (DecimalView { unscaled: 1, scale: 2 }),
            r.wf(),
    {
        Decimal::from_scaled_u64(1, 2)
    }

    /// The number `unscaled / 10^scale`, if the scale is in range.
    pub fn new(unscaled: i64, scale: i64) -> (r: Option<Decimal>)
        ensures
            r is Some <==> -MAX_SCALE <= scale <= MAX_SCALE,
            r matches Some(d) ==> d@ == (DecimalView { unscaled: unscaled as int, scale: scale as int })
                && d.wf(),
    {
        if scale < -MAX_SCALE || scale > MAX_SCALE {
            return None;
        }
        let negative = unscaled < 0;
        let magnitude: u64 = if unscaled >= 0 {
            unscaled as u64
        } else if unscaled == i64::MIN {
            0x8000_0000_0000_0000u64
        } else {
            (-unscaled) as u64
        };
        let (digits, _) = parts_of(magnitude);
        Some(Decimal { negative, digits, scale })
    }

    /// The sign, the base-10 digits of the unscaled integer (most
    /// significant first) and the scale.
    pub fn to_parts(&self) -> (r: (bool, Vec<u8>, i64))
        ensures
            all_decimal_digits(r.1@),
            self@ == (DecimalView {
                unscaled: signed(r.0, digits_value(r.1@)),
                scale: r.2 as int,
            }),
            -MAX_SCALE <= r.2 <= MAX_SCALE,
    {
        proof {
            use_type_invariant(self);
        }
        let digits = self.digits.clone();
        assert(digits@ =~= self.digits@);
        (self.negative, digits, self.scale)
    }

    /// The exact sum.
    pub fn plus(&self, other: &Decimal) -> (r: Decimal)
        ensures
            r@ == self@.plus(other@),
            r.wf(),
    {
        proof {
            use_type_invariant(self);
            use_type_invariant(other);
        }
        let (negative, digits, scale) = sum_parts(self, other);
        Decimal { negative, digits, scale }
    }

    /// The exact difference.
    pub fn minus(&self, other: &Decimal) -> (r: Decimal)
        ensures
            r@ == self@.minus(other@),
            r.wf(),
    {
        proof {
            use_type_invariant(self);
            use_type_invariant(other);
        }
        let (negative, digits, scale) = difference_parts(self, other);
        Decimal { negative, digits, scale }
    }

    /// The absolute value.
    pub fn abs(&self) -> (r: Decimal)
        ensures
            r@ == self@.abs(),
            r.wf(),
    {
        proof {
            use_type_invariant(self);
            lemma_digits_value_nonnegative(self.digits@);
        }
        let digits = self.digits.clone();
        assert(digits@ =~= self.digits@);
        Decimal { negative: false, digits, scale: self.scale }
    }

    /// Whether `self` is the smaller number.
    pub fn less_than(&self, other: &Decimal) -> (r: bool)
        ensures
            r == self@.less_than(other@),
    {
        proof {
            use_type_invariant(self);
            use_type_invariant(other);
        }
        is_less(self, other)
    }

    /// Whether the two stand for the same number, whatever their scales.
    pub fn same_number(&self, other: &Decimal) -> (r: bool)
        ensures
            r == self@.same_number(other@),
    {
        proof {
            use_type_invariant(self);
            use_type_invariant(other);
        }
        !is_less(self, other) && !is_less(other, self)
    }

    /// The quotient of `self` by the whole number `count`, as `bigdecimal`
    /// computes it: `None` when `count` is zero or when the quotient's scale is
    /// out of range.
    pub fn divided_by_count(&self, count: u64) -> (r: Option<Decimal>)
        ensures
            r is Some <==> count != 0 && mean_view(self@, count as int).in_range(),
            r matches Some(d) ==> d@ == mean_view(self@, count as int) && d.wf(),
    {
        if count == 0 {
            return None;
        }
        proof {
            use_type_invariant(self);
        }
        let divisor = Decimal::from_u64(count);
        let (negative, digits, scale) = quotient_parts(self, &divisor);
        Decimal::from_parts(negative, digits, scale)
    }
}

/// The quotient of `total` by the whole number `count`, as `bigdecimal`
/// computes it.
pub open spec fn mean_view(total: DecimalView, count: int) -> DecimalView {
    let q = decimal_quotient(total.unscaled, total.scale, count, 0);
    DecimalView { unscaled: q.0, scale: q.1 }
}

/// Ten to any power is positive.
pub proof fn lemma_pow10_positive(exponent: nat)
    ensures
        pow10(exponent) > 0,
    decreases exponent,
{
    if exponent > 0 {
        lemma_pow10_positive((exponent - 1) as nat);
    }
}

/// Powers of ten multiply as their exponents add.
pub proof fn lemma_pow10_adds(a: nat, b: nat)
    ensures
        pow10(a + b) == pow10(a) * pow10(b),
    decreases a,
{
    if a == 0 {
        assert(pow10(0 + b) == 1 * pow10(b));
    } else {
        lemma_pow10_adds((a - 1) as nat, b);
        assert(pow10(a + b) == 10 * pow10(((a - 1) as nat) + b));
        assert(10 * (pow10((a - 1) as nat) * pow10(b)) == (10 * pow10((a - 1) as nat)) * pow10(b))
            by (nonlinear_arith);
    }
}

/// A string of digits stands for a number that is not negative.
pub proof fn lemma_digits_value_nonnegative(digits: Seq<u8>)
    ensures
        digits_value(digits) >= 0,
    decreases digits.len(),
{
    if digits.len() > 0 {
        lemma_digits_value_nonnegative(digits.drop_last());
    }
}

} // verus!
