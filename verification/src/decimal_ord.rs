//! Numeric equality and ordering of decimals.

use std::cmp::Ordering;
use vstd::prelude::*;
use vstd::std_specs::cmp::PartialEqSpecImpl;
use vstd::std_specs::cmp::PartialOrdSpecImpl;

use crate::decimal::{value_order, Decimal};

verus! {

/// Calls `rust_decimal::Decimal`'s `Ord::cmp`, which compares the numbers
/// the decimals denote. Claims: `-1`, `0` or `1` as the value of `a` is
/// below, equal to or above that of `b`.
#[verifier::external_body]
pub(crate) fn compare(a: &Decimal, b: &Decimal) -> (r: i8)
    ensures
        r == value_order(a@, b@),
{
    let x = rust_decimal::Decimal::from_i128_with_scale(a.mantissa(), a.scale());
    let y = rust_decimal::Decimal::from_i128_with_scale(b.mantissa(), b.scale());
    match x.cmp(&y) {
        Ordering::Less => -1,
        Ordering::Equal => 0,
        Ordering::Greater => 1,
    }
}

/// The ordering that `value_order` describes.
pub open spec fn ordering_of(c: int) -> Ordering {
    if c < 0 {
        Ordering::Less
    } else if c == 0 {
        Ordering::Equal
    } else {
        Ordering::Greater
    }
}

impl PartialEq for Decimal {
    fn eq(&self, other: &Decimal) -> (r: bool) {
        compare(self, other) == 0
    }
}

impl PartialEqSpecImpl for Decimal {
    open spec fn obeys_eq_spec() -> bool {
        true
    }

    open spec fn eq_spec(&self, other: &Decimal) -> bool {
        value_order(self@, other@) == 0
    }
}

impl Eq for Decimal {
}

impl PartialOrd for Decimal {
    fn partial_cmp(&self, other: &Decimal) -> (r: Option<Ordering>) {
        let c = compare(self, other);
        if c < 0 {
            Some(Ordering::Less)
        } else if c == 0 {
            Some(Ordering::Equal)
        } else {
            Some(Ordering::Greater)
        }
    }
}

impl PartialOrdSpecImpl for Decimal {
    open spec fn obeys_partial_cmp_spec() -> bool {
        true
    }

    open spec fn partial_cmp_spec(&self, other: &Decimal) -> Option<Ordering> {
        Some(ordering_of(value_order(self@, other@)))
    }
}

} // verus!
