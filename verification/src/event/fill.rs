//! Fill events.

use vstd::prelude::*;

use crate::market::Trade;
use crate::types::Timestamp;

verus! {

/// A fill: a trade that happened.
#[derive(Debug, Clone, Copy, PartialEq, Eq)]
pub struct FillEvent {
    /// Sequence number.
    pub seq: u64,
    /// When it happened.
    pub timestamp: Timestamp,
    /// The trade.
    pub trade: Trade,
}

impl FillEvent {
    /// An event from its parts.
    pub fn new(seq: u64, timestamp: Timestamp, trade: Trade) -> (r: FillEvent)
        ensures
            r.seq == seq,
            r.timestamp == timestamp,
            r.trade == trade,
    {
        FillEvent { seq, timestamp, trade }
    }
}

} // verus!
