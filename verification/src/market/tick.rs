//! A single trade print (tick).

use vstd::prelude::*;

use crate::market::side::Side;
use crate::types::{Price, Quantity, Timestamp};

verus! {

/// One trade print: the smallest unit of market data.
#[derive(Debug, Default, Clone, Copy, PartialEq, Eq, Hash)]
pub struct Tick {
    /// When the trade happened.
    pub timestamp: Timestamp,
    /// Trade price.
    pub price: Price,
    /// Traded quantity.
    pub quantity: Quantity,
    /// Side of the aggressor.
    pub side: Side,
}

impl Tick {
    /// A tick from its parts.
    pub fn new(timestamp: Timestamp, price: Price, quantity: Quantity, side: Side) -> (r: Tick)
        ensures
            r.timestamp == timestamp,
            r.price == price,
            r.quantity == quantity,
            r.side == side,
    {
        Tick { timestamp, price, quantity, side }
    }
}

} // verus!
