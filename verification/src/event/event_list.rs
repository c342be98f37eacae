//! A bounded list of events waiting to be handed to the upper layers.
use vstd::prelude::*;

use crate::event::Event;

verus! {

/// The number of events that an event list holds at most.
pub const EVENT_LIST_CAPACITY: usize = 8;

/// A list of at most `EVENT_LIST_CAPACITY` events, in the order they were received.
#[derive(Debug)]
pub struct EventList {
    events: Vec<Event>,
}

impl EventList {
    /// The events, oldest first.
    pub closed spec fn spec_events(&self) -> Seq<Event> {
        self.events@
    }

    /// Well-formedness: the list holds no more than its capacity.
    pub open spec fn wf(&self) -> bool {
        self.spec_events().len() <= EVENT_LIST_CAPACITY
    }

    /// Creates an empty list.
    pub fn new() -> (r: EventList)
        ensures
            r.spec_events() == Seq::<Event>::empty(),
            r.wf(),
    {
        EventList { events: Vec::new() }
    }

    /// Appends an event; where the list is full, it is unchanged and the event is handed back.
    pub fn push(&mut self, event: Event) -> (r: Result<(), Event>)
        ensures
            r is Ok <==> old(self).spec_events().len() < EVENT_LIST_CAPACITY,
            r is Ok ==> final(self).spec_events() == old(self).spec_events().push(event),
            r is Err ==> r == Err::<(), Event>(event) && final(self).spec_events() == old(
                self,
            ).spec_events(),
    {
        if self.events.len() < EVENT_LIST_CAPACITY {
            self.events.push(event);
            Ok(())
        } else {
            Err(event)
        }
    }

    /// Whether the list holds no event.
    pub fn is_empty(&self) -> (r: bool)
        ensures
            r == (self.spec_events().len() == 0),
    {
        self.events.len() == 0
    }

    /// Whether the list is full.
    pub fn is_full(&self) -> (r: bool)
        ensures
            r == (self.spec_events().len() >= EVENT_LIST_CAPACITY),
    {
        self.events.len() >= EVENT_LIST_CAPACITY
    }

    /// The number of events.
    pub fn len(&self) -> (r: usize)
        ensures
            r == self.spec_events().len(),
    {
        self.events.len()
    }

    /// The events, oldest first.
    pub fn events(&self) -> (r: &[Event])
        ensures
            r@ == self.spec_events(),
    {
        self.events.as_slice()
    }
}

impl Default for EventList {
    fn default() -> (r: EventList)
        ensures
            r.spec_events() == Seq::<Event>::empty(),
            r.wf(),
    {
        EventList::new()
    }
}

} // verus!
