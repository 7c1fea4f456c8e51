//! Events that a session hands to its consumer.

use vstd::prelude::*;
use vstd::string::StringExecFns;

verus! {

/// Something the consumer of a session gets to see, exactly once.
#[derive(Debug, Clone, PartialEq, Eq)]
pub enum DecodedEvent {
    /// A message that arrived from the topic.
    IncomingText(String),
    /// A line of feedback produced locally, never sent to peers.
    CommandFeedback(String),
    /// The user asked to end the session; the consumer decides how.
    ShutdownRequested,
}

/// The mathematical value of a [`DecodedEvent`]: texts are sequences of characters.
pub enum EventView {
    IncomingText(Seq<char>),
    CommandFeedback(Seq<char>),
    ShutdownRequested,
}

impl View for DecodedEvent {
    type V = EventView;

    open spec fn view(&self) -> EventView {
        match *self {
            DecodedEvent::IncomingText(text) => EventView::IncomingText(text@),
            DecodedEvent::CommandFeedback(text) => EventView::CommandFeedback(text@),
            DecodedEvent::ShutdownRequested => EventView::ShutdownRequested,
        }
    }
}

/// The line that an event adds to the chat history: an incoming text is
/// marked as a message, feedback is shown as it is, and a request to shut
/// down adds no line.
pub open spec fn history_line_text(event: EventView) -> Option<Seq<char>> {
    match event {
        EventView::IncomingText(text) => Some("<message> "@ + text),
        EventView::CommandFeedback(text) => Some(text),
        EventView::ShutdownRequested => None,
    }
}

impl DecodedEvent {
    /// Renders the line that this event adds to the chat history, if any.
    pub fn history_line(&self) -> (line: Option<String>)
        ensures
            match line {
                Some(l) => history_line_text(self@) == Some(l@),
                None => history_line_text(self@) is None,
            },
    {
        match self {
            DecodedEvent::IncomingText(text) => Some(
                "<message> ".to_owned().concat(text.as_str()),
            ),
            DecodedEvent::CommandFeedback(text) => Some(text.clone()),
            DecodedEvent::ShutdownRequested => None,
        }
    }
}

/// The values of a sequence of events, in the same order.
pub open spec fn event_views(events: Seq<DecodedEvent>) -> Seq<EventView> {
    events.map_values(|e: DecodedEvent| e@)
}

} // verus!
