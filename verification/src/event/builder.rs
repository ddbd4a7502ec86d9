//! Building events with consecutive sequence numbers.

use vstd::prelude::*;

use crate::event::fill::FillEvent;
use crate::event::market::{MarketDataEvent, MarketDataPayload};
use crate::event::system::{SystemAction, SystemEvent};
use crate::event::types::{Event, OrderAction, OrderEvent};
use crate::market::Trade;
use crate::types::{OrderId, Timestamp};

verus! {

/// Hands out sequence numbers, one per event built, counting up.
#[derive(Debug)]
pub struct EventBuilder {
    next_seq: u64,
}

impl EventBuilder {
    /// The number the next event will get.
    pub closed spec fn upcoming(self) -> u64 {
        self.next_seq
    }

    /// A builder whose first event gets `start_seq`.
    pub fn new(start_seq: u64) -> (r: EventBuilder)
        ensures
            r.upcoming() == start_seq,
    {
        EventBuilder { next_seq: start_seq }
    }

    /// Takes the next sequence number.
    fn take_seq(&mut self) -> (r: u64)
        requires
            old(self).upcoming() < u64::MAX,
        ensures
            r == old(self).upcoming(),
            final(self).upcoming() == old(self).upcoming() + 1,
    {
        let seq = self.next_seq;
        self.next_seq = self.next_seq + 1;
        seq
    }

    /// A market data event with the next sequence number.
    pub fn market_data(&mut self, timestamp: Timestamp, payload: MarketDataPayload) -> (r: Event)
        requires
            old(self).upcoming() < u64::MAX,
        ensures
            r == Event::MarketData(MarketDataEvent { seq: old(self).upcoming(), timestamp, payload }),
            final(self).upcoming() == old(self).upcoming() + 1,
    {
        let seq = self.take_seq();
        Event::MarketData(MarketDataEvent::new(seq, timestamp, payload))
    }

    /// An order event with the next sequence number.
    pub fn order(&mut self, timestamp: Timestamp, order_id: OrderId, action: OrderAction) -> (r:
        Event)
        requires
            old(self).upcoming() < u64::MAX,
        ensures
            r == Event::Order(OrderEvent { seq: old(self).upcoming(), timestamp, order_id, action }),
            final(self).upcoming() == old(self).upcoming() + 1,
    {
        let seq = self.take_seq();
        Event::Order(OrderEvent { seq, timestamp, order_id, action })
    }

    /// A fill event with the next sequence number.
    pub fn fill(&mut self, timestamp: Timestamp, trade: Trade) -> (r: Event)
        requires
            old(self).upcoming() < u64::MAX,
        ensures
            r == Event::Fill(FillEvent { seq: old(self).upcoming(), timestamp, trade }),
            final(self).upcoming() == old(self).upcoming() + 1,
    {
        let seq = self.take_seq();
        Event::Fill(FillEvent::new(seq, timestamp, trade))
    }

    /// A system event with the next sequence number.
    pub fn system(&mut self, timestamp: Timestamp, action: SystemAction) -> (r: Event)
        requires
            old(self).upcoming() < u64::MAX,
        ensures
            r == Event::System(SystemEvent { seq: old(self).upcoming(), timestamp, action }),
            final(self).upcoming() == old(self).upcoming() + 1,
    {
        let seq = self.take_seq();
        Event::System(SystemEvent::new(seq, timestamp, action))
    }

    /// The number the next event will get.
    pub fn next_seq(&self) -> (r: u64)
        ensures
            r == self.upcoming(),
    {
        self.next_seq
    }

    /// The number of the last event built (`next_seq - 1`, and 0 before any).
    pub fn current_seq(&self) -> (r: u64)
        ensures
            r == (if self.upcoming() > 0 {
                self.upcoming() - 1
            } else {
                0
            }),
    {
        self.next_seq.saturating_sub(1)
    }
}

impl Default for EventBuilder {
    /// A builder that starts at 0.
    fn default() -> (r: EventBuilder)
        ensures
            r.upcoming() == 0,
    {
        EventBuilder::new(0)
    }
}

} // verus!
