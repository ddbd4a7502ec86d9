//! Orders: kind, time in force, and the order itself.

use vstd::prelude::*;

use crate::market::Side;
use crate::types::{OrderId, Price, Quantity, Symbol};

verus! {

/// How long an order stays in the book.
#[allow(clippy::upper_case_acronyms)]
#[derive(Debug, Clone, Copy, PartialEq, Eq, Hash, Structural)]
pub enum TimeInForce {
    /// Good till cancelled.
    GTC,
    /// Immediate or cancel.
    IOC,
    /// Fill or kill.
    FOK,
}

/// Kind of order.
#[derive(Debug, Clone, Copy, PartialEq, Eq, Hash, Structural)]
pub enum OrderType {
    /// At the best price available.
    Market,
    /// At `price` or better.
    Limit {
        /// The limit price.
        price: Price,
    },
}

/// An order.
#[derive(Debug, Clone)]
pub struct Order {
    /// Order identifier.
    pub id: OrderId,
    /// Instrument.
    pub symbol: Symbol,
    /// Buy or sell.
    pub side: Side,
    /// Market or limit.
    pub order_type: OrderType,
    /// Quantity.
    pub quantity: Quantity,
    /// How long it stays in the book.
    pub time_in_force: TimeInForce,
}

impl Order {
    /// An order from its parts.
    pub fn new(
        id: OrderId,
        symbol: Symbol,
        side: Side,
        order_type: OrderType,
        quantity: Quantity,
        time_in_force: TimeInForce,
    ) -> (r: Order)
        ensures
            r.id == id,
            r.symbol == symbol,
            r.side == side,
            r.order_type == order_type,
            r.quantity == quantity,
            r.time_in_force == time_in_force,
    {
        Order { id, symbol, side, order_type, quantity, time_in_force }
    }
}

} // verus!
