//! A matched trade between a buy order and a sell order.

use vstd::prelude::*;

use crate::types::{OrderId, Price, Quantity, Timestamp};

verus! {

/// A trade record.
#[derive(Debug, Default, Clone, Copy, PartialEq, Eq, Hash)]
pub struct Trade {
    /// When the trade happened.
    pub timestamp: Timestamp,
    /// Trade price.
    pub price: Price,
    /// Traded quantity.
    pub quantity: Quantity,
    /// The buying order.
    pub buyer_order_id: OrderId,
    /// The selling order.
    pub seller_order_id: OrderId,
}

impl Trade {
    /// A trade from its parts.
    pub fn new(
        timestamp: Timestamp,
        price: Price,
        quantity: Quantity,
        buyer_order_id: OrderId,
        seller_order_id: OrderId,
    ) -> (r: Trade)
        ensures
            r.timestamp == timestamp,
            r.price == price,
            r.quantity == quantity,
            r.buyer_order_id == buyer_order_id,
            r.seller_order_id == seller_order_id,
    {
        Trade { timestamp, price, quantity, buyer_order_id, seller_order_id }
    }
}

} // verus!
