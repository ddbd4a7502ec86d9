//! Event subscribers.

use vstd::prelude::*;

use crate::event::types::{kind_bit, Event, EventType};

verus! {

/// `mask` holds the kind of `e`.
pub open spec fn wants(mask: EventType, e: Event) -> bool {
    mask@ & kind_bit(e) == kind_bit(e)
}

/// The test "`mask` holds the event's kind".
pub open spec fn wanted_by(mask: EventType) -> spec_fn(Event) -> bool {
    |e: Event| wants(mask, e)
}

/// A subscriber to events, interested in some kinds of them.
///
/// A subscriber that keeps a record (`keeps_record`) makes the promises
/// below about the events it has been handed and the kinds it wants; for one
/// that does not (the default), nothing is promised.
pub trait EventHandler {
    /// Whether this subscriber keeps the record that `handled` and
    /// `wanted_kinds` describe.
    open spec fn keeps_record(&self) -> bool {
        false
    }

    /// The events this subscriber has been handed, oldest first.
    open spec fn handled(&self) -> Seq<Event> {
        arbitrary()
    }

    /// The kinds this subscriber wants.
    open spec fn wanted_kinds(&self) -> EventType {
        arbitrary()
    }

    /// Handles one event: for a subscriber that keeps a record, the event
    /// joins the handled events and the wanted kinds stay as they are.
    fn on_event(&mut self, event: &Event)
        ensures
            old(self).keeps_record() ==> {
                &&& final(self).keeps_record()
                &&& final(self).handled() == old(self).handled().push(*event)
                &&& final(self).wanted_kinds() == old(self).wanted_kinds()
            },
    ;

    /// The kinds this subscriber wants.
    fn event_types(&self) -> (r: EventType)
        ensures
            self.keeps_record() ==> r == self.wanted_kinds(),
    ;

    /// Whether the subscriber wants events of kind `event_type`.
    fn is_interested(&self, event_type: EventType) -> (r: bool)
        ensures
            self.keeps_record() ==> r == self.wanted_kinds().holds(event_type),
    {
        self.event_types().contains(event_type)
    }

    /// Hands each event of a wanted kind to `on_event`, in order.
    fn on_events(&mut self, events: &[Event])
        ensures
            old(self).keeps_record() ==> {
                &&& final(self).keeps_record()
                &&& final(self).handled() == old(self).handled() + events@.filter(
                    wanted_by(old(self).wanted_kinds()),
                )
                &&& final(self).wanted_kinds() == old(self).wanted_kinds()
            },
    {
        let ghost start = self.handled();
        let ghost mask = self.wanted_kinds();
        let ghost keeps = self.keeps_record();
        let mut i: usize = 0;
        assert(events@.take(0) =~= Seq::<Event>::empty());
        assert(Seq::<Event>::empty().filter(wanted_by(mask)) =~= Seq::<Event>::empty()) by {
            reveal(Seq::filter);
        }
        assert(start + Seq::<Event>::empty() =~= start);
        while i < events.len()
            invariant
                i <= events@.len(),
                keeps == old(self).keeps_record(),
                start == old(self).handled(),
                mask == old(self).wanted_kinds(),
                keeps ==> {
                    &&& self.keeps_record()
                    &&& self.wanted_kinds() == mask
                    &&& self.handled() == start + events@.take(i as int).filter(wanted_by(mask))
                },
            decreases events@.len() - i,
        {
            let event = &events[i];
            let ghost prefix = events@.take(i as int);
            proof {
                assert(events@.take(i + 1) =~= prefix.push(*event));
                prefix.lemma_filter_push(*event, wanted_by(mask));
            }
            if self.is_interested(event.event_type()) {
                self.on_event(event);
                proof {
                    let added = prefix.filter(wanted_by(mask));
                    assert(start + added.push(*event) =~= (start + added).push(*event));
                }
            }
            i += 1;
        }
        assert(events@.take(events@.len() as int) =~= events@);
    }
}

} // verus!
