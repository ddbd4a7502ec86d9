use axon::event::{
    Event, EventBuilder, EventCollector, EventError, EventHandler, EventRouter, EventType,
    FillEvent, MarketDataEvent, MarketDataPayload, OrderAction, SystemAction, SystemEvent,
};
use axon::market::{Side, Tick, Trade};
use axon::types::{Price, Quantity, Timestamp};

fn price(v: f64) -> Price {
    Price::from_raw((v * 1e8).round() as i64)
}

fn qty(v: f64) -> Quantity {
    Quantity::from_raw((v * 1e8).round() as i64)
}

fn tick_payload(ts: Timestamp, p: f64) -> MarketDataPayload {
    MarketDataPayload::Tick(Tick::new(ts, price(p), qty(1.0), Side::Buy))
}

fn make_tick_event(seq: u64, p: f64) -> Event {
    let ts = Timestamp::from_nanos((seq * 1_000) as i64);
    Event::MarketData(MarketDataEvent::new(seq, ts, tick_payload(ts, p)))
}

fn make_system_event(seq: u64) -> Event {
    Event::System(SystemEvent::new(
        seq,
        Timestamp::from_nanos((seq * 1_000) as i64),
        SystemAction::Heartbeat,
    ))
}

// ─── builder ────────────────────────────────────────────

#[test]
fn test_builder_seq_monotonic() {
    let mut b = EventBuilder::new(10);
    let ts = Timestamp::from_nanos(0);
    let e1 = b.market_data(ts, tick_payload(ts, 100.0));
    assert_eq!(e1.seq(), 10);
    let e2 = b.system(ts, SystemAction::Heartbeat);
    assert_eq!(e2.seq(), 11);
    let e3 = b.system(ts, SystemAction::Heartbeat);
    assert_eq!(e3.seq(), 12);
    assert_eq!(b.next_seq(), 13);
    assert_eq!(b.current_seq(), 12);
}

#[test]
fn test_builder_default() {
    let b = EventBuilder::default();
    assert_eq!(b.next_seq(), 0);
    assert_eq!(b.current_seq(), 0);
}

#[test]
fn test_builder_event_type() {
    let mut b = EventBuilder::new(0);
    let ts = Timestamp::from_nanos(0);
    assert_eq!(b.market_data(ts, tick_payload(ts, 100.0)).event_type(), EventType::market_data());
    assert_eq!(b.system(ts, SystemAction::Heartbeat).event_type(), EventType::system());
}

#[test]
fn builder_numbers_every_kind_of_event() {
    let mut b = EventBuilder::new(5);
    let ts = Timestamp::from_nanos(7);
    let o = b.order(ts, 42, OrderAction::Cancel);
    let trade = Trade::new(ts, price(1.0), qty(2.0), 1, 2);
    let f = b.fill(ts, trade);
    assert_eq!(o.seq(), 5);
    assert_eq!(o.event_type(), EventType::order());
    assert_eq!(f.seq(), 6);
    assert_eq!(f.event_type(), EventType::fill());
    assert_eq!(f.timestamp(), ts);
    match f {
        Event::Fill(fe) => assert_eq!(fe.trade, trade),
        _ => panic!("expected a fill"),
    }
}

// ─── errors and plain events ────────────────────────────

#[test]
fn test_event_error_display() {
    let err = EventError::InvalidEventType("foo".to_string());
    assert!(err.message().contains("foo"));
    let err = EventError::SequenceNotMonotonic { current: 5, previous: 10 };
    assert!(err.message().contains("5"));
    assert!(err.message().contains("10"));
}

#[test]
fn event_error_messages_are_exact() {
    let err = EventError::SequenceNotMonotonic { current: 5, previous: 10 };
    assert_eq!(err.message(), "事件序列号不递增：当前 5 <= 前一个 10");
    let err = EventError::TimestampNotMonotonic { current_ns: -3, previous_ns: 120 };
    assert_eq!(err.message(), "事件时间戳不递增：当前 -3ns <= 前一个 120ns");
}

#[test]
fn test_fill_event_creation() {
    let ts = Timestamp::from_nanos(1_000);
    let trade = Trade::new(ts, price(100.0), qty(1.0), 1, 2);
    let event = FillEvent::new(0, ts, trade);
    assert_eq!(event.seq, 0);
    assert_eq!(event.trade.price, price(100.0));
}

#[test]
fn test_market_data_event_creation() {
    let ts = Timestamp::from_nanos(1_000);
    let event = MarketDataEvent::new(0, ts, tick_payload(ts, 100.0));
    assert_eq!(event.seq, 0);
    assert_eq!(event.timestamp, ts);
}

#[test]
fn test_system_event_heartbeat() {
    let event = SystemEvent::new(0, Timestamp::from_nanos(1_000), SystemAction::Heartbeat);
    assert_eq!(event.action, SystemAction::Heartbeat);
}

#[test]
fn test_system_event_session() {
    let event = SystemEvent::new(
        0,
        Timestamp::from_nanos(1_000),
        SystemAction::SessionStart { session_id: "sess-1".to_string() },
    );
    match event.action {
        SystemAction::SessionStart { session_id } => assert_eq!(session_id, "sess-1"),
        _ => panic!("expected SessionStart"),
    }
}

#[test]
fn test_system_event_error() {
    let event = SystemEvent::new(
        0,
        Timestamp::from_nanos(0),
        SystemAction::Error { message: "boom".to_string() },
    );
    match event.action {
        SystemAction::Error { message } => assert_eq!(message, "boom"),
        _ => panic!("expected Error"),
    }
}

#[test]
fn test_system_event_custom() {
    let event = SystemEvent::new(
        0,
        Timestamp::from_nanos(0),
        SystemAction::Custom { key: "region".to_string(), value: "us-east-1".to_string() },
    );
    match event.action {
        SystemAction::Custom { key, value } => {
            assert_eq!(key, "region");
            assert_eq!(value, "us-east-1");
        }
        _ => panic!("expected Custom"),
    }
}

// ─── handlers ───────────────────────────────────────────

struct TickRecorder {
    prices: Vec<f64>,
}

impl TickRecorder {
    fn new() -> Self {
        Self { prices: Vec::new() }
    }
}

impl EventHandler for TickRecorder {
    fn on_event(&mut self, event: &Event) {
        if let Event::MarketData(md) = event {
            if let MarketDataPayload::Tick(tick) = &md.payload {
                self.prices.push(tick.price.raw() as f64 / 1e8);
            }
        }
    }

    fn event_types(&self) -> EventType {
        EventType::market_data()
    }
}

#[test]
fn test_event_types_mask() {
    let handler = TickRecorder::new();
    let mask = handler.event_types();
    assert!(mask.contains(EventType::market_data()));
    assert!(!mask.contains(EventType::order()));
}

#[test]
fn test_is_interested_default() {
    let handler = TickRecorder::new();
    assert!(handler.is_interested(EventType::market_data()));
    assert!(!handler.is_interested(EventType::order()));
    assert!(!handler.is_interested(EventType::fill()));
    assert!(!handler.is_interested(EventType::system()));
}

#[test]
fn test_on_event_records_tick() {
    let mut handler = TickRecorder::new();
    handler.on_event(&make_tick_event(0, 100.0));
    handler.on_event(&make_tick_event(1, 101.0));
    assert_eq!(handler.prices, vec![100.0, 101.0]);
}

#[test]
fn test_on_events_batch_filter() {
    let mut handler = TickRecorder::new();
    let events = vec![make_tick_event(0, 100.0), make_system_event(1), make_tick_event(2, 102.0)];
    handler.on_events(&events);
    assert_eq!(handler.prices, vec![100.0, 102.0]);
}

#[test]
fn event_kinds_and_masks() {
    let all = EventType::all();
    for k in [EventType::market_data(), EventType::order(), EventType::fill(), EventType::system()] {
        assert!(all.contains(k));
        assert!(k.contains(k));
        assert!(!EventType::none().contains(k));
    }
    let md_or_fill = EventType::market_data().union(EventType::fill());
    assert!(md_or_fill.contains(EventType::fill()));
    assert!(!md_or_fill.contains(EventType::system()));
}

// ─── router and collector ───────────────────────────────

struct MarketDataCounter {
    n: usize,
}

impl EventHandler for MarketDataCounter {
    fn on_event(&mut self, _: &Event) {
        self.n += 1;
    }

    fn event_types(&self) -> EventType {
        EventType::market_data()
    }
}

struct SystemOnlyCollector;

impl EventHandler for SystemOnlyCollector {
    fn on_event(&mut self, _: &Event) {}

    fn event_types(&self) -> EventType {
        EventType::system()
    }
}

#[test]
fn test_collector_default_collects_all() {
    let mut c = EventCollector::default();
    c.on_event(&make_tick_event(0, 100.0));
    c.on_event(&make_system_event(1));
    assert_eq!(c.len(), 2);
}

#[test]
fn test_collector_into_events() {
    let mut c = EventCollector::default();
    c.on_event(&make_tick_event(0, 100.0));
    let events = c.into_events();
    assert_eq!(events.len(), 1);
}

#[test]
fn test_collector_filtered_by_interest() {
    let c = EventCollector::new(EventType::market_data());
    assert!(c.is_interested(EventType::market_data()));
    assert!(!c.is_interested(EventType::system()));
}

#[test]
fn collector_keeps_what_it_gets() {
    let mut c = EventCollector::new(EventType::all());
    assert!(c.is_empty());
    let e = make_tick_event(3, 99.5);
    c.on_event(&e);
    assert_eq!(c.events()[0], e);
}

#[test]
fn test_router_dispatch_filters_by_type() {
    let mut router = EventRouter::new();
    router.register(Box::new(MarketDataCounter { n: 0 }));
    router.dispatch(&make_tick_event(0, 100.0));
    router.dispatch(&make_system_event(1));
    router.dispatch(&make_tick_event(2, 102.0));
    assert_eq!(router.len(), 1);
}

#[test]
fn test_router_dispatch_batch() {
    let mut router = EventRouter::new();
    router.register(Box::new(EventCollector::default()));
    let events = vec![make_tick_event(0, 100.0), make_system_event(1), make_tick_event(2, 101.0)];
    router.dispatch_batch(&events);
    assert_eq!(router.len(), 1);
}

#[test]
fn test_router_clear() {
    let mut router = EventRouter::new();
    router.register(Box::new(EventCollector::default()));
    router.register(Box::new(EventCollector::default()));
    assert_eq!(router.len(), 2);
    router.clear();
    assert!(router.is_empty());
}

#[test]
fn test_builder_with_router() {
    let mut b = EventBuilder::new(0);
    let mut router = EventRouter::new();
    router.register(Box::new(EventCollector::default()));
    let ts = Timestamp::from_nanos(0);
    let evt1 = b.system(ts, SystemAction::Heartbeat);
    let evt2 = b.system(ts, SystemAction::Heartbeat);
    let evt3 = b.system(ts, SystemAction::Heartbeat);
    assert_eq!(evt1.seq(), 0);
    assert_eq!(evt2.seq(), 1);
    assert_eq!(evt3.seq(), 2);
    assert_eq!(b.next_seq(), 3);
}

#[test]
fn test_empty_router_dispatch_no_panic() {
    let mut router = EventRouter::new();
    assert!(router.is_empty());
    for i in 0..1_000 {
        router.dispatch(&make_tick_event(i, 100.0));
    }
    assert!(router.is_empty());
}

#[test]
fn test_empty_batch_dispatch_no_panic() {
    let mut router = EventRouter::new();
    router.register(Box::new(EventCollector::default()));
    let empty: Vec<Event> = vec![];
    router.dispatch_batch(&empty);
    assert_eq!(router.len(), 1);
}

#[test]
fn test_router_with_zero_interest_handler() {
    let mut router = EventRouter::new();
    router.register(Box::new(SystemOnlyCollector));
    for i in 0..100 {
        router.dispatch(&make_tick_event(i, 100.0));
    }
    router.dispatch(&make_system_event(999));
}

#[test]
fn test_router_high_fanout() {
    let mut router = EventRouter::new();
    for _ in 0..100 {
        router.register(Box::new(EventCollector::default()));
    }
    assert_eq!(router.len(), 100);
    for i in 0..100 {
        router.dispatch(&make_tick_event(i, 100.0));
    }
}

#[test]
fn test_router_clear_then_dispatch() {
    let mut router = EventRouter::new();
    router.register(Box::new(EventCollector::default()));
    router.register(Box::new(EventCollector::default()));
    assert_eq!(router.len(), 2);
    router.clear();
    assert!(router.is_empty());
    router.dispatch(&make_tick_event(0, 100.0));
}

#[test]
fn test_dispatch_many_handlers_high_volume() {
    const N_HANDLERS: usize = 50;
    const N_EVENTS: usize = 10_000;
    let mut router = EventRouter::new();
    for _ in 0..N_HANDLERS {
        router.register(Box::new(EventCollector::new(EventType::market_data())));
    }
    for i in 0..N_EVENTS {
        router.dispatch(&make_tick_event(i as u64, 100.0));
    }
    assert_eq!(router.len(), N_HANDLERS);
}

#[test]
fn test_router_default_works() {
    let mut router = EventRouter::default();
    router.dispatch(&make_tick_event(0, 100.0));
    assert!(router.is_empty());
}

fn assert_send<T: Send>() {}

#[test]
fn test_event_collector_send() {
    assert_send::<EventCollector>();
}
