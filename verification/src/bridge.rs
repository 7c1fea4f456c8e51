//! The queue between those who produce events and the one who consumes them.

use vstd::prelude::*;
use crate::event::{event_views, DecodedEvent, EventView};

verus! {

/// An unbounded first-in, first-out queue of events. What is pushed stays
/// until it is drained, once, in the order in which it came.
pub struct MessageBridge {
    queue: Vec<DecodedEvent>,
}

impl View for MessageBridge {
    type V = Seq<EventView>;

    /// The queued events, oldest first.
    closed spec fn view(&self) -> Seq<EventView> {
        event_views(self.queue@)
    }
}

impl MessageBridge {
    /// An empty bridge.
    pub fn new() -> (bridge: Self)
        ensures
            bridge@ == Seq::<EventView>::empty(),
    {
        let bridge = MessageBridge { queue: Vec::new() };
        assert(bridge@ =~= Seq::<EventView>::empty());
        bridge
    }

    /// The number of events that wait.
    pub fn len(&self) -> (n: usize)
        ensures
            n == self@.len(),
    {
        self.queue.len()
    }

    /// Whether no event waits.
    pub fn is_empty(&self) -> (empty: bool)
        ensures
            empty == (self@.len() == 0),
    {
        self.queue.len() == 0
    }

    /// Queues an event behind those that wait. Never refuses and never waits.
    pub fn push(&mut self, event: DecodedEvent)
        ensures
            final(self)@ == old(self)@.push(event@),
    {
        self.queue.push(event);
        assert(event_views(self.queue@) =~= event_views(old(self).queue@).push(event@));
    }

    /// Takes out everything that waits, oldest first, and leaves the bridge
    /// empty. Returns an empty vector where nothing waits.
    pub fn drain_all(&mut self) -> (events: Vec<DecodedEvent>)
        ensures
            event_views(events@) == old(self)@,
            final(self)@ == Seq::<EventView>::empty(),
    {
        let mut events: Vec<DecodedEvent> = Vec::new();
        std::mem::swap(&mut self.queue, &mut events);
        assert(event_views(self.queue@) =~= Seq::<EventView>::empty());
        events
    }
}

} // verus!
