//! A chat session: what the user interface calls into.
//!
//! The session interprets what the user enters, queues events for the one
//! consumer, keeps count of the messages on their way out, and carries the
//! signal that ends the background work.

use vstd::prelude::*;
use crate::bridge::MessageBridge;
use crate::config::SIGIL;
use crate::decode::payload_text;
use crate::event::{event_views, DecodedEvent, EventView};
use crate::interpreter::{
    command_line_event,
    interpret_input,
    standard_verbs,
    CommandInterpreter,
    InputAction,
    InputActionView,
    VerbEffect,
    VerbEffectView,
};
use crate::publisher::{one_less, outcome_event, Publisher, SendOutcome};
use crate::subscription::{loop_step, LoopActionView, LoopEventView, LoopModel, LoopState};
use crate::backoff::BackoffPolicy;

verus! {

/// A session as a value.
pub struct SessionModel {
    /// The events that wait for the consumer, oldest first.
    pub queue: Seq<EventView>,
    /// The number of send tasks that were started and have not ended.
    pub outstanding: nat,
    /// Whether the session was shut down.
    pub cancelled: bool,
}

/// The session after a line of input with the given meaning: a command's
/// event is queued, a message starts one send task, an empty line changes
/// nothing.
pub open spec fn after_input(s: SessionModel, action: InputActionView) -> SessionModel {
    match action {
        InputActionView::Nothing => s,
        InputActionView::Emit(event) => SessionModel { queue: s.queue.push(event), ..s },
        InputActionView::Publish(_) => SessionModel { outstanding: s.outstanding + 1, ..s },
    }
}

/// The text that a line of input with the given meaning sends out, if any.
pub open spec fn outgoing_text(action: InputActionView) -> Option<Seq<char>> {
    match action {
        InputActionView::Publish(text) => Some(text),
        _ => None,
    }
}

/// The session after an event was pushed by a producer.
pub open spec fn after_delivery(s: SessionModel, event: EventView) -> SessionModel {
    SessionModel { queue: s.queue.push(event), ..s }
}

/// The session after a send task for `message` ended.
pub open spec fn after_send(s: SessionModel, message: Seq<char>, outcome: SendOutcome) -> SessionModel {
    let queue = match outcome_event(message, outcome) {
        Some(event) => s.queue.push(event),
        None => s.queue,
    };
    SessionModel { queue, outstanding: one_less(s.outstanding), ..s }
}

/// The events that a poll returns: all that wait, oldest first.
pub open spec fn polled(s: SessionModel) -> Seq<EventView> {
    s.queue
}

/// The session after a poll: nothing waits any more.
pub open spec fn after_poll(s: SessionModel) -> SessionModel {
    SessionModel { queue: Seq::empty(), ..s }
}

/// The session after it was shut down.
pub open spec fn after_shutdown(s: SessionModel) -> SessionModel {
    SessionModel { cancelled: true, ..s }
}

/// The session after a producer pushed these events, one after the other.
pub open spec fn after_deliveries(s: SessionModel, events: Seq<EventView>) -> SessionModel
    decreases events.len(),
{
    if events.len() == 0 {
        s
    } else {
        after_deliveries(after_delivery(s, events[0]), events.drop_first())
    }
}

/// The events that a sequence of received payloads gives rise to.
pub open spec fn incoming_texts(payloads: Seq<Seq<u8>>) -> Seq<EventView> {
    payloads.map_values(|bytes: Seq<u8>| EventView::IncomingText(payload_text(bytes)))
}

/// The session after the driver carried out an action of the subscription
/// worker: only a forwarded event touches the session.
pub open spec fn after_action(s: SessionModel, action: LoopActionView) -> SessionModel {
    match action {
        LoopActionView::Forward(event) => after_delivery(s, event),
        _ => s,
    }
}

/// The worker and the session after these payloads arrived on the stream,
/// one after the other, each reported to the worker and its action carried
/// out.
pub open spec fn after_stream(
    policy: BackoffPolicy,
    worker: LoopModel,
    s: SessionModel,
    payloads: Seq<Seq<u8>>,
) -> (LoopModel, SessionModel)
    decreases payloads.len(),
{
    if payloads.len() == 0 {
        (worker, s)
    } else {
        let (next, action) = loop_step(policy, worker, LoopEventView::Message(Some(payloads[0])), 0);
        after_stream(policy, next, after_action(s, action), payloads.drop_first())
    }
}

/// A line of input either queues one event or starts one send task, never
/// both: an empty line does neither; a line that starts with the sigil
/// queues the event of its command and sends nothing; any other line is
/// sent as it stands and queues nothing.
pub proof fn lemma_input_queues_or_sends(
    s: SessionModel,
    sigil: char,
    verbs: Map<Seq<char>, VerbEffectView>,
    text: Seq<char>,
)
    ensures
        ({
            let action = interpret_input(sigil, verbs, text);
            let after = after_input(s, action);
            &&& after.cancelled == s.cancelled
            &&& text.len() == 0 ==> after == s && outgoing_text(action) is None
            &&& text.len() > 0 && text[0] == sigil ==> {
                &&& after.queue == s.queue.push(command_line_event(verbs, text.skip(1)))
                &&& after.outstanding == s.outstanding
                &&& outgoing_text(action) is None
            }
            &&& text.len() > 0 && text[0] != sigil ==> {
                &&& after.queue == s.queue
                &&& after.outstanding == s.outstanding + 1
                &&& outgoing_text(action) == Some(text)
            }
        }),
{
}

/// Events pushed one after the other wait behind those that waited, in the
/// order in which they were pushed.
pub proof fn lemma_deliveries_append(s: SessionModel, events: Seq<EventView>)
    ensures
        after_deliveries(s, events) == (SessionModel { queue: s.queue + events, ..s }),
    decreases events.len(),
{
    if events.len() == 0 {
        assert(s.queue + events =~= s.queue);
    } else {
        let first = after_delivery(s, events[0]);
        lemma_deliveries_append(first, events.drop_first());
        assert(first.queue + events.drop_first() =~= s.queue + events);
    }
}

/// Arrival order is kept: whatever payloads a streaming worker receives,
/// the next poll returns what waited before, followed by one incoming text
/// for each payload, in the order in which the payloads arrived; and the
/// worker is still streaming.
pub proof fn lemma_arrival_order_is_kept(
    policy: BackoffPolicy,
    worker: LoopModel,
    s: SessionModel,
    payloads: Seq<Seq<u8>>,
)
    requires
        worker.state == LoopState::Streaming,
    ensures
        after_stream(policy, worker, s, payloads).0 == worker,
        polled(after_stream(policy, worker, s, payloads).1) == s.queue + incoming_texts(payloads),
        after_stream(policy, worker, s, payloads).1 == after_deliveries(s, incoming_texts(payloads)),
    decreases payloads.len(),
{
    if payloads.len() == 0 {
        assert(s.queue + incoming_texts(payloads) =~= s.queue);
        assert(incoming_texts(payloads) =~= Seq::<EventView>::empty());
    } else {
        let first = EventView::IncomingText(payload_text(payloads[0]));
        let next = after_delivery(s, first);
        let rest = payloads.drop_first();
        lemma_arrival_order_is_kept(policy, worker, next, rest);
        assert(incoming_texts(payloads).drop_first() =~= incoming_texts(rest));
        assert(incoming_texts(payloads)[0] == first);
        assert(next.queue + incoming_texts(rest) =~= s.queue + incoming_texts(payloads));
    }
}

/// The consumer sees one queue, however often it polls: what two polls
/// return, put together, is what one poll would have returned had the
/// first not taken place.
pub proof fn lemma_polls_concatenate(s: SessionModel, earlier: Seq<EventView>, later: Seq<EventView>)
    ensures
        ({
            let first = after_deliveries(s, earlier);
            let second = after_deliveries(after_poll(first), later);
            polled(first) + polled(second) == polled(after_deliveries(first, later))
        }),
{
    let first = after_deliveries(s, earlier);
    lemma_deliveries_append(s, earlier);
    lemma_deliveries_append(after_poll(first), later);
    lemma_deliveries_append(first, later);
    assert(first.queue + (Seq::<EventView>::empty() + later) =~= first.queue + later);
}

/// A poll reflects the queue alone: two sessions in which the same events
/// wait return the same events, however many send tasks are under way in
/// either, and a poll leaves the count of those tasks as it is.
pub proof fn lemma_poll_ignores_outstanding_sends(s: SessionModel, t: SessionModel)
    requires
        s.queue == t.queue,
    ensures
        polled(s) == polled(t),
        after_poll(s).outstanding == s.outstanding,
        after_poll(t).outstanding == t.outstanding,
{
}

/// What a poll returns once a send task has ended is what it would have
/// returned before, followed by the task's feedback if the task failed.
pub proof fn lemma_poll_and_send_completion(s: SessionModel, message: Seq<char>, outcome: SendOutcome)
    ensures
        polled(after_send(s, message, outcome)) == match outcome_event(message, outcome) {
            Some(event) => polled(s).push(event),
            None => polled(s),
        },
        outcome != SendOutcome::Failed ==> polled(after_send(s, message, outcome)) == polled(s),
{
}

/// Shutting down twice is the same as shutting down once, and shutting
/// down touches neither the queue nor the count of send tasks.
pub proof fn lemma_shutdown_idempotent(s: SessionModel)
    ensures
        after_shutdown(after_shutdown(s)) == after_shutdown(s),
        after_shutdown(s).queue == s.queue,
        after_shutdown(s).outstanding == s.outstanding,
        after_shutdown(s).cancelled,
{
}

/// A chat session.
pub struct ChatSession {
    interpreter: CommandInterpreter,
    bridge: MessageBridge,
    publisher: Publisher,
    cancelled: bool,
}

impl View for ChatSession {
    type V = SessionModel;

    closed spec fn view(&self) -> SessionModel {
        SessionModel {
            queue: self.bridge@,
            outstanding: self.publisher.outstanding(),
            cancelled: self.cancelled,
        }
    }
}

impl ChatSession {
    /// The character that marks a line as a command in this session.
    pub closed spec fn sigil(&self) -> char {
        self.interpreter.sigil()
    }

    /// The verbs that this session knows, each with its effect.
    pub closed spec fn verbs(&self) -> Map<Seq<char>, VerbEffectView> {
        self.interpreter.verbs()
    }

    /// A fresh session: nothing waits, nothing is on its way out, the
    /// standard sigil and verbs are in force.
    pub fn new() -> (session: Self)
        ensures
            session@ == (SessionModel { queue: Seq::empty(), outstanding: 0, cancelled: false }),
            session.sigil() == SIGIL,
            session.verbs() == standard_verbs(),
    {
        ChatSession::with_interpreter(CommandInterpreter::new(SIGIL))
    }

    /// A fresh session that interprets input with the given interpreter.
    pub fn with_interpreter(interpreter: CommandInterpreter) -> (session: Self)
        ensures
            session@ == (SessionModel { queue: Seq::empty(), outstanding: 0, cancelled: false }),
            session.sigil() == interpreter.sigil(),
            session.verbs() == interpreter.verbs(),
    {
        ChatSession {
            interpreter,
            bridge: MessageBridge::new(),
            publisher: Publisher::new(),
            cancelled: false,
        }
    }

    /// Adds a verb to the session's table; see [`CommandInterpreter::register`].
    pub fn register_verb(&mut self, verb: &str, effect: VerbEffect) -> (added: bool)
        ensures
            added == !old(self).verbs().contains_key(verb@),
            final(self)@ == old(self)@,
            final(self).sigil() == old(self).sigil(),
            final(self).verbs() == if added {
                old(self).verbs().insert(verb@, effect@)
            } else {
                old(self).verbs()
            },
    {
        self.interpreter.register(verb, effect)
    }

    /// Takes a line that the user entered. An empty line does nothing. A
    /// command queues its event for the consumer and sends nothing. Any
    /// other line is a message: it is returned for the caller to publish on
    /// a task of its own, which is counted as under way from now on; nothing
    /// is queued for it, so the sender sees their own message only when it
    /// comes back from the topic.
    pub fn send_input(&mut self, text: &str) -> (outgoing: Option<String>)
        requires
            old(self)@.outstanding < u64::MAX,
        ensures
            final(self).sigil() == old(self).sigil(),
            final(self).verbs() == old(self).verbs(),
            final(self)@ == after_input(
                old(self)@,
                interpret_input(old(self).sigil(), old(self).verbs(), text@),
            ),
            match outgoing {
                Some(message) => outgoing_text(
                    interpret_input(old(self).sigil(), old(self).verbs(), text@),
                ) == Some(message@),
                None => outgoing_text(
                    interpret_input(old(self).sigil(), old(self).verbs(), text@),
                ) is None,
            },
    {
        match self.interpreter.interpret(text) {
            InputAction::Nothing => None,
            InputAction::Emit(event) => {
                self.bridge.push(event);
                None
            },
            InputAction::Publish(message) => {
                self.publisher.begin();
                Some(message)
            },
        }
    }

    /// Queues an event that a producer hands in, behind those that wait.
    pub fn deliver(&mut self, event: DecodedEvent)
        ensures
            final(self).sigil() == old(self).sigil(),
            final(self).verbs() == old(self).verbs(),
            final(self)@ == after_delivery(old(self)@, event@),
    {
        self.bridge.push(event);
    }

    /// Records that the send task for `message` ended. A failure is queued
    /// as feedback for the user; the message is not sent again.
    pub fn finish_send(&mut self, message: &str, outcome: SendOutcome)
        ensures
            final(self).sigil() == old(self).sigil(),
            final(self).verbs() == old(self).verbs(),
            final(self)@ == after_send(old(self)@, message@, outcome),
    {
        match self.publisher.finish(message, outcome) {
            Some(event) => {
                self.bridge.push(event);
            },
            None => {},
        }
    }

    /// Hands out every event that waits, oldest first, and leaves none
    /// waiting. Returns at once, with an empty vector where nothing waits;
    /// send tasks that are under way have no part in it.
    pub fn poll_incoming(&mut self) -> (events: Vec<DecodedEvent>)
        ensures
            final(self).sigil() == old(self).sigil(),
            final(self).verbs() == old(self).verbs(),
            event_views(events@) == polled(old(self)@),
            final(self)@ == after_poll(old(self)@),
    {
        self.bridge.drain_all()
    }

    /// Shuts the session down: from now on [`Self::is_cancelled`] tells the
    /// background work to stop. A second call changes nothing.
    pub fn shutdown(&mut self)
        ensures
            final(self).sigil() == old(self).sigil(),
            final(self).verbs() == old(self).verbs(),
            final(self)@ == after_shutdown(old(self)@),
    {
        self.cancelled = true;
    }

    /// Whether the session was shut down.
    pub fn is_cancelled(&self) -> (cancelled: bool)
        ensures
            cancelled == self@.cancelled,
    {
        self.cancelled
    }

    /// The number of send tasks that were started and have not ended.
    pub fn outstanding_sends(&self) -> (n: u64)
        ensures
            n == self@.outstanding,
    {
        self.publisher.in_flight()
    }

    /// The number of events that wait for the consumer.
    pub fn pending(&self) -> (n: usize)
        ensures
            n == self@.queue.len(),
    {
        self.bridge.len()
    }
}

} // verus!
