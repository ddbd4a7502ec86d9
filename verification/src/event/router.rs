//! Routing events to subscribers, and a subscriber that keeps what it gets.

use vstd::prelude::*;

use crate::event::handler::{wanted_by, wants, EventHandler};
use crate::event::types::{kind_bit, same_event, Event, EventType};

verus! {

/// Keeps every event it is handed.
pub struct EventCollector {
    events: Vec<Event>,
    interested: EventType,
    handed: Ghost<Seq<Event>>,
}

impl EventCollector {
    /// Events kept so far, oldest first.
    pub closed spec fn kept(self) -> Seq<Event> {
        self.events@
    }

    /// The kinds this collector wants.
    pub closed spec fn wanted(self) -> EventType {
        self.interested
    }

    /// `self` is `before` after keeping a copy of `event`.
    pub open spec fn keeps_copy(self, before: EventCollector, event: Event) -> bool {
        &&& self.kept().len() == before.kept().len() + 1
        &&& self.kept().drop_last() == before.kept()
        &&& same_event(self.kept().last(), event)
        &&& self.wanted() == before.wanted()
    }

    /// An empty collector that wants the kinds in `interested`.
    pub fn new(interested: EventType) -> (r: EventCollector)
        ensures
            r.kept().len() == 0,
            r.wanted() == interested,
            r.handled().len() == 0,
    {
        EventCollector { events: Vec::new(), interested, handed: Ghost(Seq::empty()) }
    }

    /// Events kept so far, oldest first.
    pub fn events(&self) -> (r: &[Event])
        ensures
            r@ == self.kept(),
    {
        self.events.as_slice()
    }

    /// The events kept, oldest first.
    pub fn into_events(self) -> (r: Vec<Event>)
        ensures
            r@ == self.kept(),
    {
        self.events
    }

    /// Number of events kept.
    pub fn len(&self) -> (r: usize)
        ensures
            r == self.kept().len(),
    {
        self.events.len()
    }

    /// Whether no event was kept.
    pub fn is_empty(&self) -> (r: bool)
        ensures
            r == (self.kept().len() == 0),
    {
        self.events.len() == 0
    }
}

impl EventHandler for EventCollector {
    open spec fn keeps_record(&self) -> bool {
        true
    }

    closed spec fn handled(&self) -> Seq<Event> {
        self.handed@
    }

    open spec fn wanted_kinds(&self) -> EventType {
        self.wanted()
    }

    /// Keeps a copy of the event.
    fn on_event(&mut self, event: &Event)
        ensures
            final(self).keeps_copy(*old(self), *event),
    {
        let copy = event.clone();
        self.events.push(copy);
        self.handed = Ghost(self.handed@.push(*event));
        assert(self.events@.drop_last() =~= old(self).events@);
    }

    /// Keeps a copy of each event of a wanted kind, in order.
    fn on_events(&mut self, events: &[Event])
        ensures
            ({
                let added = events@.filter(wanted_by(old(self).wanted()));
                &&& final(self).kept().len() == old(self).kept().len() + added.len()
                &&& final(self).kept().take(old(self).kept().len() as int) == old(self).kept()
                &&& forall|i: int|
                    0 <= i < added.len() ==> same_event(
                        #[trigger] final(self).kept()[old(self).kept().len() + i],
                        added[i],
                    )
            }),
            final(self).wanted() == old(self).wanted(),
    {
        let ghost start = self.kept();
        let ghost start_handled = self.handled();
        let ghost mask = self.wanted();
        let mut i: usize = 0;
        assert(start_handled + Seq::<Event>::empty() =~= start_handled);
        assert(events@.take(0) =~= Seq::<Event>::empty());
        assert(Seq::<Event>::empty().filter(wanted_by(mask)) =~= Seq::<Event>::empty()) by {
            reveal(Seq::filter);
        }
        assert(self.kept().take(start.len() as int) =~= start);
        while i < events.len()
            invariant
                i <= events@.len(),
                self.wanted() == mask,
                start_handled == old(self).handled(),
                self.handled() == start_handled + events@.take(i as int).filter(wanted_by(mask)),
                ({
                    let added = events@.take(i as int).filter(wanted_by(mask));
                    &&& self.kept().len() == start.len() + added.len()
                    &&& self.kept().take(start.len() as int) == start
                    &&& forall|j: int|
                        0 <= j < added.len() ==> same_event(
                            #[trigger] self.kept()[start.len() + j],
                            added[j],
                        )
                }),
            decreases events@.len() - i,
        {
            let event = &events[i];
            let ghost before = self.kept();
            let ghost prefix = events@.take(i as int);
            proof {
                assert(events@.take(i + 1) =~= prefix.push(*event));
                prefix.lemma_filter_push(*event, wanted_by(mask));
            }
            if self.is_interested(event.event_type()) {
                self.on_event(event);
                proof {
                    let added = prefix.filter(wanted_by(mask));
                    assert(start_handled + added.push(*event) =~= (start_handled + added).push(*event));
                    assert(self.kept().take(start.len() as int) =~= before.take(start.len() as int));
                    assert forall|j: int|
                        0 <= j < added.len() + 1 implies same_event(
                        #[trigger] self.kept()[start.len() + j],
                        added.push(*event)[j],
                    ) by {
                        if j < added.len() {
                            assert(self.kept()[start.len() + j] == before[start.len() + j]);
                        }
                    }
                }
            }
            i += 1;
        }
        assert(events@.take(events@.len() as int) =~= events@);
    }

    fn event_types(&self) -> (r: EventType)
        ensures
            r == self.wanted(),
    {
        self.interested
    }

    /// Whether the collector wants events of kind `event_type`.
    fn is_interested(&self, event_type: EventType) -> (r: bool)
        ensures
            r == self.wanted().holds(event_type),
    {
        self.interested.contains(event_type)
    }
}

impl Default for EventCollector {
    /// A collector that wants every kind.
    fn default() -> (r: EventCollector)
        ensures
            r.kept().len() == 0,
            r.wanted()@ == 15,
    {
        EventCollector::new(EventType::all())
    }
}

/// `states` are the states of a collector from `new` through one
/// `on_event` call per event of `events`, in turn.
pub open spec fn collected_in_turn(states: Seq<EventCollector>, events: Seq<Event>) -> bool {
    &&& states.len() == events.len() + 1
    &&& states[0].kept().len() == 0
    &&& forall|i: int| 0 <= i < events.len() ==> #[trigger] states[i + 1].keeps_copy(states[i], events[i])
}

/// A collector keeps a copy of every event handed to it by `on_event`,
/// whatever kinds it wants, in the order they came: `into_events` and
/// `events` then give exactly those copies.
pub proof fn collector_keeps_every_event(states: Seq<EventCollector>, events: Seq<Event>)
    requires
        collected_in_turn(states, events),
    ensures
        states.last().kept().len() == events.len(),
        forall|i: int| 0 <= i < events.len() ==> same_event(#[trigger] states.last().kept()[i], events[i]),
        states.last().wanted() == states[0].wanted(),
    decreases events.len(),
{
    if events.len() > 0 {
        let n = events.len() - 1;
        let ps = states.drop_last();
        let pe = events.drop_last();
        assert forall|i: int| 0 <= i < pe.len() implies #[trigger] ps[i + 1].keeps_copy(ps[i], pe[i]) by {
            assert(states[i + 1].keeps_copy(states[i], events[i]));
        }
        collector_keeps_every_event(ps, pe);
        assert(states[n + 1].keeps_copy(states[n], events[n]));
        assert(ps.last() == states[n]);
        assert forall|i: int| 0 <= i < events.len() implies same_event(
            #[trigger] states.last().kept()[i],
            events[i],
        ) by {
            if i < n {
                assert(states.last().kept()[i] == states.last().kept().drop_last()[i]);
                assert(events[i] == pe[i]);
            }
        }
    }
}

/// One registered subscriber.
struct Slot<H> {
    handler: H,
}

/// One step of dispatching: subscriber `.0` (by registration order) was
/// asked whether it wants event `.1`, and `.2` is its answer; the event was
/// handed to it exactly when the answer was yes.
pub type Delivery = (usize, Event, bool);

/// `calls` is one dispatch of `event` to `count` subscribers: each is asked
/// in registration order, once.
pub open spec fn one_round(calls: Seq<Delivery>, count: nat, event: Event) -> bool {
    &&& calls.len() == count
    &&& forall|i: int| 0 <= i < count ==> (#[trigger] calls[i]).0 == i && calls[i].1 == event
}

/// `calls` is one dispatch of each event of `events` in turn to `count` subscribers.
pub open spec fn rounds(calls: Seq<Delivery>, count: nat, events: Seq<Event>) -> bool
    decreases events.len(),
{
    if events.len() == 0 {
        calls.len() == 0
    } else {
        &&& calls.len() >= count
        &&& rounds(calls.subrange(0, calls.len() - count), count, events.drop_last())
        &&& one_round(calls.subrange(calls.len() - count, calls.len() as int), count, events.last())
    }
}

/// Hands events to the subscribers that want them.
pub struct EventRouter {
    handlers: Vec<Slot<Box<dyn EventHandler>>>,
    deliveries: Ghost<Seq<Delivery>>,
}

impl EventRouter {
    /// Number of subscribers.
    pub closed spec fn count(self) -> nat {
        self.handlers@.len()
    }

    /// Whether the `i`-th subscriber (by registration order) keeps a record.
    pub closed spec fn keeps(self, i: int) -> bool {
        self.handlers@[i].handler.keeps_record()
    }

    /// The record of the `i`-th subscriber: the events it has been handed.
    pub closed spec fn record_of(self, i: int) -> Seq<Event> {
        self.handlers@[i].handler.handled()
    }

    /// The kinds the `i`-th subscriber wants.
    pub closed spec fn kinds_of(self, i: int) -> EventType {
        self.handlers@[i].handler.wanted_kinds()
    }

    /// The `i`-th subscriber of `self` is the one of `before`, unchanged as
    /// far as its record goes.
    pub open spec fn same_subscriber(self, before: EventRouter, i: int) -> bool {
        &&& self.keeps(i) == before.keeps(i)
        &&& self.record_of(i) == before.record_of(i)
        &&& self.kinds_of(i) == before.kinds_of(i)
    }

    /// The `i`-th subscriber of `self` is that of `before` after `event` was
    /// dispatched: if it keeps a record, it still does, wants the same kinds,
    /// and its record gained `event` exactly when it wants `event`'s kind.
    pub open spec fn dispatched_to(self, before: EventRouter, i: int, event: Event) -> bool {
        before.keeps(i) ==> {
            &&& self.keeps(i)
            &&& self.kinds_of(i) == before.kinds_of(i)
            &&& self.record_of(i) == (if wants(before.kinds_of(i), event) {
                before.record_of(i).push(event)
            } else {
                before.record_of(i)
            })
        }
    }

    /// The `i`-th subscriber of `self` is that of `before` after each event
    /// of `events` was dispatched in turn: if it keeps a record, it still
    /// does, wants the same kinds, and its record gained the events of the
    /// kinds it wants, in order.
    pub open spec fn batch_dispatched_to(self, before: EventRouter, i: int, events: Seq<Event>) -> bool {
        before.keeps(i) ==> {
            &&& self.keeps(i)
            &&& self.kinds_of(i) == before.kinds_of(i)
            &&& self.record_of(i) == before.record_of(i) + events.filter(wanted_by(before.kinds_of(i)))
        }
    }

    /// Every dispatching step taken so far, oldest first.
    pub closed spec fn log(self) -> Seq<Delivery> {
        self.deliveries@
    }

    /// A router with no subscriber.
    pub fn new() -> (r: EventRouter)
        ensures
            r.count() == 0,
            r.log().len() == 0,
    {
        EventRouter { handlers: Vec::new(), deliveries: Ghost(Seq::empty()) }
    }

    /// Adds a subscriber, after the others.
    pub fn register(&mut self, handler: Box<dyn EventHandler>)
        ensures
            final(self).count() == old(self).count() + 1,
            final(self).log() == old(self).log(),
            forall|i: int| 0 <= i < old(self).count() ==> #[trigger] final(self).same_subscriber(*old(self), i),
            final(self).keeps(old(self).count() as int) == handler.keeps_record(),
            final(self).record_of(old(self).count() as int) == handler.handled(),
            final(self).kinds_of(old(self).count() as int) == handler.wanted_kinds(),
    {
        let ghost before = self.handlers@;
        let slot = Slot { handler };
        self.handlers.push(slot);
        proof {
            assert(self.handlers@ == before.push(slot));
            assert(self.handlers@[before.len() as int] == slot);
            assert forall|i: int| 0 <= i < before.len() implies self.handlers@[i] == before[i] by {}
        }
    }

    /// Removes every subscriber.
    pub fn clear(&mut self)
        ensures
            final(self).count() == 0,
            final(self).log() == old(self).log(),
    {
        self.handlers.clear();
    }

    /// Number of subscribers.
    pub fn len(&self) -> (r: usize)
        ensures
            r == self.count(),
    {
        self.handlers.len()
    }

    /// Whether there is no subscriber.
    pub fn is_empty(&self) -> (r: bool)
        ensures
            r == (self.count() == 0),
    {
        self.handlers.len() == 0
    }

    /// Hands the event to every subscriber that wants its kind, in the order
    /// they registered: each is asked once, by `is_interested` with the
    /// event's kind, and given the event by `on_event` exactly when it
    /// answers yes. Each subscriber that keeps a record gets the event added
    /// to it exactly when it wants the event's kind, and still wants the
    /// same kinds.
    pub fn dispatch(&mut self, event: &Event)
        ensures
            final(self).count() == old(self).count(),
            forall|i: int|
                0 <= i < old(self).count() ==> #[trigger] final(self).dispatched_to(*old(self), i, *event),
            final(self).log().len() == old(self).log().len() + old(self).count(),
            final(self).log().take(old(self).log().len() as int) == old(self).log(),
            one_round(
                final(self).log().skip(old(self).log().len() as int),
                old(self).count(),
                *event,
            ),
    {
        let event_type = event.event_type();
        let n = self.handlers.len();
        let ghost start = self.deliveries@;
        let mut i: usize = 0;
        assert(start.skip(start.len() as int) =~= Seq::<Delivery>::empty());
        assert(start.take(start.len() as int) =~= start);
        while i < n
            invariant
                i <= n,
                n == self.handlers@.len(),
                n == old(self).count(),
                event_type@ == kind_bit(*event),
                forall|k: int| 0 <= k < i ==> #[trigger] self.dispatched_to(*old(self), k, *event),
                forall|k: int| i <= k < n ==> #[trigger] self.handlers@[k] == old(self).handlers@[k],
                start == old(self).log(),
                self.deliveries@.len() == start.len() + i,
                self.deliveries@.take(start.len() as int) == start,
                forall|k: int|
                    0 <= k < i ==> (#[trigger] self.deliveries@[start.len() + k]).0 == k
                        && self.deliveries@[start.len() + k].1 == *event,
            decreases n - i,
        {
            let ghost before_handlers = self.handlers@;
            let ghost snap = *self;
            let ghost h0 = before_handlers[i as int].handler;
            let slot = &mut self.handlers[i];
            assert(slot.handler == h0);
            let wanted = slot.handler.is_interested(event_type);
            if wanted {
                slot.handler.on_event(event);
            }
            let ghost h1 = slot.handler;
            proof {
                let after = self.handlers@;
                assert(after[i as int].handler == h1);
                assert forall|k: int| 0 <= k < n && k != i implies #[trigger] after[k] == before_handlers[k] by {}
                assert(before_handlers[i as int] == old(self).handlers@[i as int]);
                if h0.keeps_record() {
                    assert(wanted == wants(h0.wanted_kinds(), *event));
                    assert(h1.keeps_record());
                    assert(h1.wanted_kinds() == h0.wanted_kinds());
                    assert(h1.handled() == (if wanted { h0.handled().push(*event) } else { h0.handled() }));
                }
                assert(self.record_of(i as int) == h1.handled());
            }
            let ghost before = self.deliveries@;
            proof {
                self.deliveries = Ghost(before.push((i, *event, wanted)));
                assert(self.deliveries@.take(start.len() as int) =~= before.take(start.len() as int));
                assert(self.deliveries@[start.len() + i] == (i, *event, wanted));
                assert forall|k: int| 0 <= k < i implies #[trigger] self.deliveries@[start.len() + k]
                    == before[start.len() + k] by {}
            }
            assert forall|k: int| 0 <= k < i + 1 implies #[trigger] self.dispatched_to(*old(self), k, *event) by {
                if k < i {
                    assert(snap.dispatched_to(*old(self), k, *event));
                    assert(self.handlers@[k] == snap.handlers@[k]);
                }
            }
            i += 1;
        }
        proof {
            let fresh = self.deliveries@.skip(start.len() as int);
            assert forall|k: int| 0 <= k < n implies (#[trigger] fresh[k]).0 == k && fresh[k].1 == *event by {
                assert(fresh[k] == self.deliveries@[start.len() + k]);
            }
        }
    }

    /// Dispatches each event in turn: each subscriber that keeps a record
    /// gets, in order, the events of the kinds it wants.
    pub fn dispatch_batch(&mut self, events: &[Event])
        ensures
            final(self).count() == old(self).count(),
            forall|i: int|
                0 <= i < old(self).count() ==> #[trigger] final(self).batch_dispatched_to(
                    *old(self),
                    i,
                    events@,
                ),
            final(self).log().take(old(self).log().len() as int) == old(self).log(),
            rounds(final(self).log().skip(old(self).log().len() as int), old(self).count(), events@),
    {
        let ghost start = self.deliveries@;
        let ghost count = self.count();
        let mut i: usize = 0;
        assert(start.skip(start.len() as int) =~= Seq::<Delivery>::empty());
        assert(start.take(start.len() as int) =~= start);
        assert(events@.take(0) =~= Seq::<Event>::empty());
        assert forall|k: int| 0 <= k < count implies #[trigger] self.batch_dispatched_to(
            *old(self),
            k,
            events@.take(0),
        ) by {
            assert(Seq::<Event>::empty().filter(wanted_by(self.kinds_of(k))) =~= Seq::<Event>::empty())
                by {
                reveal(Seq::filter);
            }
            assert(self.record_of(k) + Seq::<Event>::empty() =~= self.record_of(k));
        }
        while i < events.len()
            invariant
                i <= events@.len(),
                self.count() == count,
                forall|k: int|
                    0 <= k < count ==> #[trigger] self.batch_dispatched_to(
                        *old(self),
                        k,
                        events@.take(i as int),
                    ),
                count == old(self).count(),
                start == old(self).log(),
                self.log().len() >= start.len(),
                self.log().take(start.len() as int) == start,
                rounds(self.log().skip(start.len() as int), count, events@.take(i as int)),
            decreases events@.len() - i,
        {
            let ghost before = self.log();
            let ghost snap = *self;
            self.dispatch(&events[i]);
            proof {
                let e = events@[i as int];
                assert(events@.take(i + 1) =~= events@.take(i as int).push(e));
                assert forall|k: int| 0 <= k < count implies #[trigger] self.batch_dispatched_to(
                    *old(self),
                    k,
                    events@.take(i + 1),
                ) by {
                    assert(snap.batch_dispatched_to(*old(self), k, events@.take(i as int)));
                    assert(self.dispatched_to(snap, k, e));
                    let mask = old(self).kinds_of(k);
                    let prefix = events@.take(i as int);
                    prefix.lemma_filter_push(e, wanted_by(mask));
                    if old(self).keeps(k) {
                        let added = prefix.filter(wanted_by(mask));
                        assert(old(self).record_of(k) + added.push(e) =~= (old(self).record_of(k)
                            + added).push(e));
                    }
                }
                let after = self.log();
                let old_part = before.skip(start.len() as int);
                let new_part = after.skip(start.len() as int);
                let round = after.skip(before.len() as int);
                assert(after.take(before.len() as int) == before);
                assert(round.len() == count);
                assert(after.len() == before.len() + count);
                assert forall|k: int| 0 <= k < before.len() implies #[trigger] after[k] == before[k] by {
                    assert(after.take(before.len() as int)[k] == after[k]);
                }
                assert(after.take(start.len() as int) =~= before.take(start.len() as int));
                assert(new_part.subrange(0, new_part.len() - count) =~= old_part);
                assert(new_part.subrange(new_part.len() - count, new_part.len() as int) =~= round);
                assert(events@.take(i + 1).drop_last() =~= events@.take(i as int));
                assert(events@.take(i + 1).last() == events@[i as int]);
            }
            i += 1;
        }
        assert(events@.take(events@.len() as int) =~= events@);
    }
}

impl Default for EventRouter {
    /// A router with no subscriber.
    fn default() -> (r: EventRouter)
        ensures
            r.count() == 0,
            r.log().len() == 0,
    {
        EventRouter::new()
    }
}

} // verus!
