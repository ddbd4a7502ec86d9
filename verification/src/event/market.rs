//! Market data events.

use vstd::prelude::*;

use crate::market::{Bar, OrderBookSnapshot, Tick};
use crate::types::Timestamp;

verus! {

/// What a market data event carries.
#[derive(Debug, PartialEq, Eq)]
#[non_exhaustive]
pub enum MarketDataPayload {
    /// A tick.
    Tick(Tick),
    /// A bar.
    Bar(Bar),
    /// An order book snapshot.
    OrderBookSnapshot(OrderBookSnapshot),
}

/// Two payloads carry the same data: equal, or snapshots with the same time and levels.
pub open spec fn same_payload(a: MarketDataPayload, b: MarketDataPayload) -> bool {
    match (a, b) {
        (MarketDataPayload::OrderBookSnapshot(x), MarketDataPayload::OrderBookSnapshot(y)) => {
            &&& x.timestamp == y.timestamp
            &&& x.bids@ == y.bids@
            &&& x.asks@ == y.asks@
        },
        _ => a == b,
    }
}

impl Clone for MarketDataPayload {
    /// A copy carrying the same data.
    fn clone(&self) -> (r: MarketDataPayload)
        ensures
            same_payload(r, *self),
    {
        match self {
            MarketDataPayload::Tick(t) => MarketDataPayload::Tick(*t),
            MarketDataPayload::Bar(b) => MarketDataPayload::Bar(*b),
            MarketDataPayload::OrderBookSnapshot(s) => MarketDataPayload::OrderBookSnapshot(s.clone()),
        }
    }
}

/// A market data event.
#[derive(Debug, PartialEq, Eq)]
pub struct MarketDataEvent {
    /// Sequence number.
    pub seq: u64,
    /// When it happened.
    pub timestamp: Timestamp,
    /// The data.
    pub payload: MarketDataPayload,
}

impl Clone for MarketDataEvent {
    /// A copy carrying the same data.
    fn clone(&self) -> (r: MarketDataEvent)
        ensures
            r.seq == self.seq,
            r.timestamp == self.timestamp,
            same_payload(r.payload, self.payload),
    {
        MarketDataEvent { seq: self.seq, timestamp: self.timestamp, payload: self.payload.clone() }
    }
}

impl MarketDataEvent {
    /// An event from its parts.
    pub fn new(seq: u64, timestamp: Timestamp, payload: MarketDataPayload) -> (r: MarketDataEvent)
        ensures
            r.seq == seq,
            r.timestamp == timestamp,
            r.payload == payload,
    {
        MarketDataEvent { seq, timestamp, payload }
    }
}

} // verus!
