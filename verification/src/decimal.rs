//! Fixed-point decimal numbers backed by `rust_decimal`.
//!
//! A [`Decimal`] is the value `mantissa / 10^scale`, where the mantissa fits
//! in 96 bits (plus sign) and the scale is at most 28, exactly the range of
//! `rust_decimal::Decimal`. The arithmetic itself is carried out by
//! `rust_decimal`; the contracts below say what its result is whenever it is
//! exact, and name it otherwise.

use vstd::prelude::*;

verus! {

/// Largest magnitude of a 96-bit mantissa, `2^96 - 1`.
pub open spec fn max_mantissa() -> int {
    79228162514264337593543950335int
}

/// Largest scale that a decimal may carry.
pub open spec fn max_scale() -> nat {
    28
}

/// `10^n`.
pub open spec fn pow10(n: nat) -> nat
    decreases n,
{
    if n == 0 {
        1
    } else {
        10 * pow10((n - 1) as nat)
    }
}

/// A `(mantissa, scale)` pair that a decimal can hold.
pub open spec fn dec_wf(v: (int, nat)) -> bool {
    &&& v.1 <= max_scale()
    &&& -max_mantissa() <= v.0 <= max_mantissa()
}

/// Sign of `value(a) - value(b)` for `value(x) = x.0 / 10^x.1`.
pub open spec fn value_order(a: (int, nat), b: (int, nat)) -> int {
    let l = a.0 * pow10(b.1);
    let r = b.0 * pow10(a.1);
    if l < r {
        -1
    } else if l == r {
        0
    } else {
        1
    }
}

/// The two pairs denote the same number.
pub open spec fn value_eq(a: (int, nat), b: (int, nat)) -> bool {
    value_order(a, b) == 0
}

/// `value(a) >= value(b)`.
pub open spec fn value_ge(a: (int, nat), b: (int, nat)) -> bool {
    value_order(a, b) >= 0
}

/// The sum that `rust_decimal` produces for two decimals, `None` on overflow.
pub uninterp spec fn decimal_checked_add(a: (int, nat), b: (int, nat)) -> Option<(int, nat)>;

/// The difference that `rust_decimal` produces for two decimals, `None` on overflow.
pub uninterp spec fn decimal_checked_sub(a: (int, nat), b: (int, nat)) -> Option<(int, nat)>;

/// The product that `rust_decimal` produces for two decimals, `None` on overflow.
pub uninterp spec fn decimal_checked_mul(a: (int, nat), b: (int, nat)) -> Option<(int, nat)>;

/// Both operands fit in 64 bits and their scales differ by at most 19:
/// the range in which `rust_decimal` adds and subtracts without rounding.
pub open spec fn small_operands(a: (int, nat), b: (int, nat)) -> bool {
    &&& -18446744073709551615int <= a.0 <= 18446744073709551615int
    &&& -18446744073709551615int <= b.0 <= 18446744073709551615int
    &&& (if a.1 >= b.1 { a.1 - b.1 } else { b.1 - a.1 }) <= 19
}

/// Larger of two scales.
pub open spec fn max_nat(a: nat, b: nat) -> nat {
    if a >= b {
        a
    } else {
        b
    }
}

/// Mantissa of `a` rescaled to scale `s >= a.1`.
pub open spec fn aligned(a: (int, nat), s: nat) -> int {
    a.0 * pow10((s - a.1) as nat)
}

/// The exact sum, written at the larger of the two scales.
pub open spec fn exact_sum(a: (int, nat), b: (int, nat)) -> (int, nat) {
    let s = max_nat(a.1, b.1);
    (aligned(a, s) + aligned(b, s), s)
}

/// The exact difference, written at the larger of the two scales.
pub open spec fn exact_diff(a: (int, nat), b: (int, nat)) -> (int, nat) {
    let s = max_nat(a.1, b.1);
    (aligned(a, s) - aligned(b, s), s)
}

/// The exact product `(a.0 * b.0, a.1 + b.1)`.
pub open spec fn exact_product(a: (int, nat), b: (int, nat)) -> (int, nat) {
    (a.0 * b.0, a.1 + b.1)
}

/// View of an optional decimal.
pub open spec fn opt_view(o: Option<Decimal>) -> Option<(int, nat)> {
    match o {
        Some(d) => Some(d@),
        None => None,
    }
}

/// A decimal number `mantissa / 10^scale`.
#[derive(Clone, Copy, Debug)]
pub struct Decimal {
    mantissa: i128,
    scale: u32,
}

impl View for Decimal {
    type V = (int, nat);

    closed spec fn view(&self) -> (int, nat) {
        (self.mantissa as int, self.scale as nat)
    }
}

impl Decimal {
    #[verifier::type_invariant]
    spec fn inv(self) -> bool {
        dec_wf((self.mantissa as int, self.scale as nat))
    }

    /// The decimal whose view is `v`.
    pub closed spec fn from_view(v: (int, nat)) -> Decimal {
        Decimal { mantissa: v.0 as i128, scale: v.1 as u32 }
    }

    /// A decimal is the one rebuilt from its view.
    pub proof fn lemma_from_view(self)
        ensures
            Decimal::from_view(self@) == self,
    {
    }

    /// Every decimal holds a well-formed pair.
    pub fn lemma_wf(&self)
        ensures
            dec_wf(self@),
    {
        proof {
            use_type_invariant(self);
        }
    }

    /// `num / 10^scale`.
    pub fn new(num: i64, scale: u32) -> (r: Decimal)
        requires
            scale <= 28,
        ensures
            r@ == (num as int, scale as nat),
    {
        Decimal { mantissa: num as i128, scale }
    }

    /// `num / 10^scale` for a 96-bit mantissa.
    pub fn from_i128_with_scale(num: i128, scale: u32) -> (r: Decimal)
        requires
            scale <= 28,
            -max_mantissa() <= num <= max_mantissa(),
        ensures
            r@ == (num as int, scale as nat),
    {
        Decimal { mantissa: num, scale }
    }

    /// The integer `num`.
    pub fn from_i64(num: i64) -> (r: Decimal)
        ensures
            r@ == (num as int, 0nat),
    {
        Decimal { mantissa: num as i128, scale: 0 }
    }

    /// Zero.
    pub fn zero() -> (r: Decimal)
        ensures
            r@ == (0int, 0nat),
    {
        Decimal { mantissa: 0, scale: 0 }
    }

    /// One.
    pub fn one() -> (r: Decimal)
        ensures
            r@ == (1int, 0nat),
    {
        Decimal { mantissa: 1, scale: 0 }
    }

    /// The mantissa `m` of `m / 10^scale`.
    pub fn mantissa(&self) -> (r: i128)
        ensures
            r == self@.0,
    {
        self.mantissa
    }

    /// The scale `e` of `m / 10^e`.
    pub fn scale(&self) -> (r: u32)
        ensures
            r == self@.1,
    {
        self.scale
    }

    /// Whether the value is zero.
    pub fn is_zero(&self) -> (r: bool)
        ensures
            r == (self@.0 == 0),
    {
        self.mantissa == 0
    }

    /// Absolute value (same scale).
    pub fn abs(&self) -> (r: Decimal)
        ensures
            r@ == (if self@.0 < 0 { -self@.0 } else { self@.0 }, self@.1),
    {
        proof {
            use_type_invariant(self);
        }
        if self.mantissa < 0 {
            Decimal { mantissa: -self.mantissa, scale: self.scale }
        } else {
            *self
        }
    }
}

/// Calls `rust_decimal::Decimal::checked_add`. Claims: the result is the
/// named sum; a zero operand gives back the other one unchanged; operands
/// that fit in 64 bits with scales at most 19 apart are added exactly at the
/// larger scale when the exact sum fits in 96 bits.
#[verifier::external_body]
pub(crate) fn checked_add(a: &Decimal, b: &Decimal) -> (r: Option<Decimal>)
    ensures
        opt_view(r) == decimal_checked_add(a@, b@),
        a@.0 == 0 ==> opt_view(r) == Some(b@),
        a@.0 != 0 && b@.0 == 0 ==> opt_view(r) == Some(a@),
        a@.0 != 0 && b@.0 != 0 && small_operands(a@, b@) && dec_wf(exact_sum(a@, b@))
            ==> opt_view(r) == Some(exact_sum(a@, b@)),
{
    let x = rust_decimal::Decimal::from_i128_with_scale(a.mantissa, a.scale);
    let y = rust_decimal::Decimal::from_i128_with_scale(b.mantissa, b.scale);
    match x.checked_add(y) {
        Some(z) => Some(Decimal { mantissa: z.mantissa(), scale: z.scale() }),
        None => None,
    }
}

/// Calls `rust_decimal::Decimal::checked_sub`. Claims: the result is the
/// named difference; a zero right operand gives back a nonzero left one; a
/// zero left operand gives the negated right one, and the right one itself
/// (scale included) when both are zero; small operands (as for
/// addition) are subtracted exactly at the larger scale when the exact
/// difference fits in 96 bits.
#[verifier::external_body]
pub(crate) fn checked_sub(a: &Decimal, b: &Decimal) -> (r: Option<Decimal>)
    ensures
        opt_view(r) == decimal_checked_sub(a@, b@),
        a@.0 != 0 && b@.0 == 0 ==> opt_view(r) == Some(a@),
        a@.0 == 0 && b@.0 == 0 ==> opt_view(r) == Some(b@),
        a@.0 == 0 && b@.0 != 0 ==> opt_view(r) == Some((-b@.0, b@.1)),
        a@.0 != 0 && b@.0 != 0 && small_operands(a@, b@) && dec_wf(exact_diff(a@, b@))
            ==> opt_view(r) == Some(exact_diff(a@, b@)),
{
    let x = rust_decimal::Decimal::from_i128_with_scale(a.mantissa, a.scale);
    let y = rust_decimal::Decimal::from_i128_with_scale(b.mantissa, b.scale);
    match x.checked_sub(y) {
        Some(z) => Some(Decimal { mantissa: z.mantissa(), scale: z.scale() }),
        None => None,
    }
}

/// Calls `rust_decimal::Decimal::checked_mul`. Claims: the result is the
/// named product; a zero operand gives zero at scale 0; when the scales add
/// up to at most 28 and the mantissa product fits in 96 bits, the product is
/// exact: mantissa `a.0 * b.0` at scale `a.1 + b.1`.
#[verifier::external_body]
pub(crate) fn checked_mul(a: &Decimal, b: &Decimal) -> (r: Option<Decimal>)
    ensures
        opt_view(r) == decimal_checked_mul(a@, b@),
        a@.0 == 0 || b@.0 == 0 ==> opt_view(r) == Some((0int, 0nat)),
        a@.0 != 0 && b@.0 != 0 && dec_wf(exact_product(a@, b@))
            ==> opt_view(r) == Some(exact_product(a@, b@)),
{
    let x = rust_decimal::Decimal::from_i128_with_scale(a.mantissa, a.scale);
    let y = rust_decimal::Decimal::from_i128_with_scale(b.mantissa, b.scale);
    match x.checked_mul(y) {
        Some(z) => Some(Decimal { mantissa: z.mantissa(), scale: z.scale() }),
        None => None,
    }
}

} // verus!
