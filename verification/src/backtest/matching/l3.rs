//! Types of the multi-venue (level-3) matching engine.

use vstd::prelude::*;

use crate::backtest::matching::types::OrderBookLevel;
use crate::types::{Price, Quantity, Symbol};

verus! {

/// A trading venue.
#[derive(Debug, Clone, Copy, PartialEq, Eq, Hash, Structural)]
pub enum Venue {
    /// Binance.
    Binance,
    /// Coinbase.
    Coinbase,
    /// Kraken.
    Kraken,
    /// Bybit.
    Bybit,
    /// OKX.
    Okx,
    /// Huobi.
    Huobi,
    /// Any other venue, by number.
    Custom(u16),
}

impl Venue {
    /// Name of the venue (`custom` for any other).
    pub fn name(&self) -> (r: &'static str)
        ensures
            r@ == match *self {
                Venue::Binance => "binance"@,
                Venue::Coinbase => "coinbase"@,
                Venue::Kraken => "kraken"@,
                Venue::Bybit => "bybit"@,
                Venue::Okx => "okx"@,
                Venue::Huobi => "huobi"@,
                Venue::Custom(_) => "custom"@,
            },
    {
        match self {
            Venue::Binance => "binance",
            Venue::Coinbase => "coinbase",
            Venue::Kraken => "kraken",
            Venue::Bybit => "bybit",
            Venue::Okx => "okx",
            Venue::Huobi => "huobi",
            Venue::Custom(_) => "custom",
        }
    }
}

/// How orders are matched over time.
#[derive(Debug, Clone, Copy, PartialEq, Eq, Hash, Structural)]
pub enum BatchMode {
    /// Each order is matched as it arrives.
    Continuous,
    /// Orders are collected and matched together every `interval_ns` nanoseconds.
    Periodic {
        /// Length of a batch.
        interval_ns: u64,
    },
}

impl Default for BatchMode {
    /// Continuous matching.
    fn default() -> (r: BatchMode)
        ensures
            r == BatchMode::Continuous,
    {
        BatchMode::Continuous
    }
}

/// A price level of a snapshot.
#[derive(Debug, Clone, Copy, PartialEq)]
pub struct PriceLevel {
    /// Price of the level.
    pub price: Price,
    /// Quantity at the level.
    pub quantity: Quantity,
    /// Number of orders at the level.
    pub order_count: usize,
}

impl PriceLevel {
    /// The level of a snapshot that a live book level shows.
    pub fn from_book_level(level: &OrderBookLevel) -> (r: PriceLevel)
        ensures
            r.price == level.price,
            r.quantity == level.quantity,
            r.order_count == level.order_count,
    {
        PriceLevel { price: level.price, quantity: level.quantity, order_count: level.order_count }
    }
}

/// A level-2 snapshot of one instrument.
#[derive(Debug, Clone)]
pub struct L2Snapshot {
    /// The instrument.
    pub symbol: Symbol,
    /// Best bid, if any.
    pub best_bid: Option<Price>,
    /// Best ask, if any.
    pub best_ask: Option<Price>,
    /// Bid levels.
    pub bid_depth: Vec<PriceLevel>,
    /// Ask levels.
    pub ask_depth: Vec<PriceLevel>,
    /// Number of trades.
    pub trade_count: u64,
}

} // verus!
