//! Trade direction.

use vstd::prelude::*;

verus! {

/// Direction of a trade or order.
#[derive(Debug, Clone, Copy, PartialEq, Eq, Hash, Structural)]
pub enum Side {
    /// Buy (the default direction).
    Buy,
    /// Sell.
    Sell,
}

impl Side {
    /// The opposite direction.
    pub fn opposite(self) -> (r: Side)
        ensures
            r != self,
            r.opposite_spec() == self,
    {
        match self {
            Side::Buy => Side::Sell,
            Side::Sell => Side::Buy,
        }
    }

    /// Spec counterpart of `opposite`.
    pub open spec fn opposite_spec(self) -> Side {
        match self {
            Side::Buy => Side::Sell,
            Side::Sell => Side::Buy,
        }
    }

    /// Upper-case name: `BUY` or `SELL`.
    pub fn as_str(&self) -> (r: &'static str)
        ensures
            r@ == (if *self == Side::Buy { "BUY"@ } else { "SELL"@ }),
    {
        match self {
            Side::Buy => "BUY",
            Side::Sell => "SELL",
        }
    }

    /// `+1` for a buy, `-1` for a sell.
    pub fn sign(self) -> (r: i8)
        ensures
            r == (if self == Side::Buy { 1i8 } else { -1i8 }),
    {
        match self {
            Side::Buy => 1,
            Side::Sell => -1,
        }
    }
}

impl Default for Side {
    /// Buy is the default direction.
    fn default() -> (r: Side)
        ensures
            r == Side::Buy,
    {
        Side::Buy
    }
}

} // verus!
