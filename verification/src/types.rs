//! Basic value types: timestamps, fixed-point prices and quantities, ids.

use vstd::prelude::*;

verus! {

/// Order identifier.
pub type OrderId = u64;

/// Instrument symbol.
pub type Symbol = String;

/// Number of raw units in one whole price or quantity unit (`10^8`).
pub const FIXED_POINT_SCALE: i64 = 100_000_000;

/// A point in time, in nanoseconds since the Unix epoch.
#[derive(Debug, Default, Clone, Copy, PartialEq, Eq, Hash, PartialOrd, Ord, Structural)]
pub struct Timestamp {
    nanos: i64,
}

impl View for Timestamp {
    type V = int;

    closed spec fn view(&self) -> int {
        self.nanos as int
    }
}

impl Timestamp {
    /// The timestamp `nanos` nanoseconds after the epoch.
    pub fn from_nanos(nanos: i64) -> (r: Timestamp)
        ensures
            r@ == nanos,
    {
        Timestamp { nanos }
    }

    /// Nanoseconds since the epoch.
    pub fn as_nanos(&self) -> (r: i64)
        ensures
            r == self@,
    {
        self.nanos
    }
}

/// A non-negative price in fixed point: `raw / 10^8`.
#[derive(Debug, Default, Clone, Copy, PartialEq, Eq, Hash, Structural)]
pub struct Price {
    raw: i64,
}

impl View for Price {
    type V = int;

    closed spec fn view(&self) -> int {
        self.raw as int
    }
}

impl Price {
    #[verifier::type_invariant]
    spec fn inv(self) -> bool {
        self.raw >= 0
    }

    /// A price from raw units; negative inputs become zero.
    pub fn from_raw(raw: i64) -> (r: Price)
        ensures
            r@ == (if raw < 0 { 0 } else { raw as int }),
    {
        if raw < 0 {
            Price { raw: 0 }
        } else {
            Price { raw }
        }
    }

    /// Raw units (`10^-8` of a whole unit).
    pub fn raw(&self) -> (r: i64)
        ensures
            r == self@,
            r >= 0,
    {
        proof {
            use_type_invariant(self);
        }
        self.raw
    }
}

/// `v` held to the range of `i64`: the nearest value of `i64`.
pub open spec fn clamp_i64(v: int) -> int {
    if v > i64::MAX {
        i64::MAX as int
    } else if v < i64::MIN {
        i64::MIN as int
    } else {
        v
    }
}

/// A signed quantity in fixed point: `raw / 10^8` (negative for short positions).
#[derive(Debug, Default, Clone, Copy, PartialEq, Eq, Hash, Structural)]
pub struct Quantity {
    raw: i64,
}

impl View for Quantity {
    type V = int;

    closed spec fn view(&self) -> int {
        self.raw as int
    }
}

impl Quantity {
    /// A quantity from raw units.
    pub fn from_raw(raw: i64) -> (r: Quantity)
        ensures
            r@ == raw,
    {
        Quantity { raw }
    }

    /// Raw units (`10^-8` of a whole unit).
    pub fn raw(&self) -> (r: i64)
        ensures
            r == self@,
    {
        self.raw
    }

    /// A quantity from a wide total, saturating at the bounds of `i64`.
    pub(crate) fn saturating_from_i128(v: i128) -> (r: Quantity)
        ensures
            r@ == clamp_i64(v as int),
    {
        if v > i64::MAX as i128 {
            Quantity { raw: i64::MAX }
        } else if v < i64::MIN as i128 {
            Quantity { raw: i64::MIN }
        } else {
            Quantity { raw: v as i64 }
        }
    }
}

} // verus!
