//! Events and their kinds.

use vstd::prelude::*;

use crate::event::fill::FillEvent;
use crate::event::market::{same_payload, MarketDataEvent};
use crate::event::system::SystemEvent;
use crate::types::{OrderId, Timestamp};

verus! {

/// A set of event kinds, one bit per kind.
#[derive(Debug, Clone, Copy, PartialEq, Eq, Hash, Structural)]
pub struct EventType {
    bits: u8,
}

impl View for EventType {
    type V = u8;

    closed spec fn view(&self) -> u8 {
        self.bits
    }
}

impl EventType {
    /// Market data.
    pub fn market_data() -> (r: EventType)
        ensures
            r@ == 1,
    {
        EventType { bits: 1 }
    }

    /// Order events.
    pub fn order() -> (r: EventType)
        ensures
            r@ == 2,
    {
        EventType { bits: 2 }
    }

    /// Fills.
    pub fn fill() -> (r: EventType)
        ensures
            r@ == 4,
    {
        EventType { bits: 4 }
    }

    /// System events.
    pub fn system() -> (r: EventType)
        ensures
            r@ == 8,
    {
        EventType { bits: 8 }
    }

    /// Every kind.
    pub fn all() -> (r: EventType)
        ensures
            r@ == 15,
    {
        EventType { bits: 15 }
    }

    /// No kind.
    pub fn none() -> (r: EventType)
        ensures
            r@ == 0,
    {
        EventType { bits: 0 }
    }

    /// Every kind in `self` is in `other`... read the other way: `self` holds all of `other`.
    pub open spec fn holds(self, other: EventType) -> bool {
        self@ & other@ == other@
    }

    /// Whether `self` holds every kind in `other`.
    pub fn contains(&self, other: EventType) -> (r: bool)
        ensures
            r == self.holds(other),
    {
        self.bits & other.bits == other.bits
    }

    /// The kinds in either set.
    pub fn union(self, other: EventType) -> (r: EventType)
        ensures
            r@ == self@ | other@,
    {
        EventType { bits: self.bits | other.bits }
    }
}

/// The set of every kind holds each single kind, and no single kind holds
/// another.
pub proof fn event_kinds_are_distinct()
    ensures
        forall|b: u8| (15u8 & b == b) <==> b < 16,
        (1u8 & 2u8) != 2u8 && (1u8 & 4u8) != 4u8 && (1u8 & 8u8) != 8u8,
        (2u8 & 1u8) != 1u8 && (2u8 & 4u8) != 4u8 && (2u8 & 8u8) != 8u8,
        (4u8 & 1u8) != 1u8 && (4u8 & 2u8) != 2u8 && (4u8 & 8u8) != 8u8,
        (8u8 & 1u8) != 1u8 && (8u8 & 2u8) != 2u8 && (8u8 & 4u8) != 4u8,
{
    assert(forall|b: u8| (15u8 & b == b) <==> b < 16) by (bit_vector);
    assert((1u8 & 2u8) != 2u8 && (1u8 & 4u8) != 4u8 && (1u8 & 8u8) != 8u8) by (bit_vector);
    assert((2u8 & 1u8) != 1u8 && (2u8 & 4u8) != 4u8 && (2u8 & 8u8) != 8u8) by (bit_vector);
    assert((4u8 & 1u8) != 1u8 && (4u8 & 2u8) != 2u8 && (4u8 & 8u8) != 8u8) by (bit_vector);
    assert((8u8 & 1u8) != 1u8 && (8u8 & 2u8) != 2u8 && (8u8 & 4u8) != 4u8) by (bit_vector);
}

/// What happened to an order.
#[derive(Debug, Clone, Copy, PartialEq, Eq, Hash, Structural)]
pub enum OrderAction {
    /// The order was submitted.
    Submit,
    /// The order was cancelled.
    Cancel,
    /// The order was modified.
    Modify,
}

/// An order event.
#[derive(Debug, Clone, Copy, PartialEq, Eq, Hash)]
pub struct OrderEvent {
    /// Sequence number.
    pub seq: u64,
    /// When it happened.
    pub timestamp: Timestamp,
    /// The order.
    pub order_id: OrderId,
    /// What happened.
    pub action: OrderAction,
}

/// An event of the simulation.
#[derive(Debug, PartialEq, Eq)]
pub enum Event {
    /// Market data.
    MarketData(MarketDataEvent),
    /// An order event.
    Order(OrderEvent),
    /// A fill.
    Fill(FillEvent),
    /// A system event.
    System(SystemEvent),
}

/// Two events carry the same data: equal, or market data events that agree
/// on everything and carry the same data.
pub open spec fn same_event(a: Event, b: Event) -> bool {
    match (a, b) {
        (Event::MarketData(x), Event::MarketData(y)) => {
            &&& x.seq == y.seq
            &&& x.timestamp == y.timestamp
            &&& same_payload(x.payload, y.payload)
        },
        _ => a == b,
    }
}

impl Clone for Event {
    /// A copy carrying the same data.
    fn clone(&self) -> (r: Event)
        ensures
            same_event(r, *self),
    {
        match self {
            Event::MarketData(m) => Event::MarketData(m.clone()),
            Event::Order(o) => Event::Order(*o),
            Event::Fill(f) => Event::Fill(*f),
            Event::System(s) => Event::System(s.clone()),
        }
    }
}

/// Bit of the kind of an event.
pub open spec fn kind_bit(e: Event) -> u8 {
    match e {
        Event::MarketData(_) => 1,
        Event::Order(_) => 2,
        Event::Fill(_) => 4,
        Event::System(_) => 8,
    }
}

/// Sequence number of an event.
pub open spec fn seq_of(e: Event) -> u64 {
    match e {
        Event::MarketData(m) => m.seq,
        Event::Order(o) => o.seq,
        Event::Fill(f) => f.seq,
        Event::System(s) => s.seq,
    }
}

impl Event {
    /// Sequence number.
    pub fn seq(&self) -> (r: u64)
        ensures
            r == seq_of(*self),
    {
        match self {
            Event::MarketData(m) => m.seq,
            Event::Order(o) => o.seq,
            Event::Fill(f) => f.seq,
            Event::System(s) => s.seq,
        }
    }

    /// When it happened.
    pub fn timestamp(&self) -> (r: Timestamp)
        ensures
            r == match *self {
                Event::MarketData(m) => m.timestamp,
                Event::Order(o) => o.timestamp,
                Event::Fill(f) => f.timestamp,
                Event::System(s) => s.timestamp,
            },
    {
        match self {
            Event::MarketData(m) => m.timestamp,
            Event::Order(o) => o.timestamp,
            Event::Fill(f) => f.timestamp,
            Event::System(s) => s.timestamp,
        }
    }

    /// Kind of the event.
    pub fn event_type(&self) -> (r: EventType)
        ensures
            r@ == kind_bit(*self),
    {
        match self {
            Event::MarketData(_) => EventType::market_data(),
            Event::Order(_) => EventType::order(),
            Event::Fill(_) => EventType::fill(),
            Event::System(_) => EventType::system(),
        }
    }
}

} // verus!
