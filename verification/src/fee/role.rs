//! Maker / taker role of a trade.

use vstd::prelude::*;

verus! {

/// Liquidity role of a trade: decides whether the maker or the taker rate applies.
#[derive(Debug, Clone, Copy, PartialEq, Eq, Hash, Structural)]
pub enum TradeRole {
    /// Provides liquidity (usually the lower rate).
    Maker,
    /// Takes liquidity (usually the higher rate).
    Taker,
}

impl TradeRole {
    /// Name of the role.
    pub fn as_str(&self) -> (r: &'static str)
        ensures
            r@ == (if *self == TradeRole::Maker { "maker"@ } else { "taker"@ }),
    {
        match self {
            TradeRole::Maker => "maker",
            TradeRole::Taker => "taker",
        }
    }
}

} // verus!
