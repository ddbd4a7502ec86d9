//! Fills, roles, book levels and submission results of the matching engine.

use vstd::prelude::*;

use crate::market::Side;
use crate::types::{Price, Quantity, Timestamp};

verus! {

/// A fill produced by matching.
#[derive(Debug, Clone, Copy, PartialEq, Eq)]
pub struct MatchFill {
    /// Fill number, counting up.
    pub fill_id: u64,
    /// The order that took liquidity.
    pub taker_order_id: u64,
    /// The order that provided it.
    pub maker_order_id: u64,
    /// Fill price.
    pub price: Price,
    /// Fill quantity.
    pub quantity: Quantity,
    /// Side of the taker.
    pub taker_side: Side,
    /// When the fill happened.
    pub timestamp: Timestamp,
}

/// Role of an order in a match.
#[derive(Debug, Clone, Copy, PartialEq, Eq, Hash, Structural)]
pub enum TradeRole {
    /// Provided liquidity.
    Maker,
    /// Took liquidity.
    Taker,
}

/// A live level of the matching book.
#[derive(Debug, Clone, Copy, PartialEq)]
pub struct OrderBookLevel {
    /// Price of the level.
    pub price: Price,
    /// Total quantity at the level.
    pub quantity: Quantity,
    /// Number of orders at the level.
    pub order_count: usize,
}

impl OrderBookLevel {
    /// A level from its parts.
    pub fn new(price: Price, quantity: Quantity, order_count: usize) -> (r: OrderBookLevel)
        ensures
            r.price == price,
            r.quantity == quantity,
            r.order_count == order_count,
    {
        OrderBookLevel { price, quantity, order_count }
    }
}

/// What submitting an order produced.
#[derive(Debug, Default, Clone, PartialEq)]
pub struct SubmitResult {
    /// Fills, in the order they happened.
    pub fills: Vec<MatchFill>,
    /// The order is completely filled.
    pub is_filled: bool,
    /// The order is partly filled.
    pub is_partially_filled: bool,
    /// Quantity still open.
    pub remaining_quantity: Quantity,
}

impl SubmitResult {
    /// No fill: the whole quantity stays open.
    pub fn empty(remaining_quantity: Quantity) -> (r: SubmitResult)
        ensures
            r.fills@.len() == 0,
            !r.is_filled,
            !r.is_partially_filled,
            r.remaining_quantity == remaining_quantity,
    {
        SubmitResult {
            fills: Vec::new(),
            is_filled: false,
            is_partially_filled: false,
            remaining_quantity,
        }
    }

    /// Completely filled: nothing stays open.
    pub fn filled(fills: Vec<MatchFill>) -> (r: SubmitResult)
        ensures
            r.fills@ == fills@,
            r.is_filled,
            !r.is_partially_filled,
            r.remaining_quantity@ == 0,
    {
        SubmitResult {
            fills,
            is_filled: true,
            is_partially_filled: false,
            remaining_quantity: Quantity::from_raw(0),
        }
    }

    /// Partly filled: `remaining_quantity` stays open.
    pub fn partial(fills: Vec<MatchFill>, remaining_quantity: Quantity) -> (r: SubmitResult)
        ensures
            r.fills@ == fills@,
            !r.is_filled,
            r.is_partially_filled,
            r.remaining_quantity == remaining_quantity,
    {
        SubmitResult { fills, is_filled: false, is_partially_filled: true, remaining_quantity }
    }
}

} // verus!
