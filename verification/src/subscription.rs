//! The subscription worker as a state machine.
//!
//! The worker subscribes to the topic, forwards what arrives, and subscribes
//! again after every failure, for as long as the session lives. This module
//! decides; the program that drives it performs the actions and reports back
//! what happened.

use vstd::prelude::*;
use crate::backoff::{lemma_delay_at_least, lemma_delay_bounds, BackoffPolicy};
use crate::decode::{incoming_event, message_event, payload_bytes};
use crate::event::{DecodedEvent, EventView};

verus! {

/// A message of the backend's subscription stream. Of what it holds, only
/// the payload is spoken of here, by the name [`message_data`].
#[verifier::external_type_specification]
#[verifier::external_body]
pub struct ExPubSubMessage(ipfsapi::pubsub::PubSubMessage);

/// The payload that a message of the stream carries, if it carries one: what
/// `PubSubMessage::data` hands out for it. A message is never changed once
/// it is made, so this depends on the message alone.
pub uninterp spec fn message_data(message: ipfsapi::pubsub::PubSubMessage) -> Option<Seq<u8>>;

/// Where the worker stands.
#[derive(Debug, Clone, Copy, PartialEq, Eq)]
pub enum LoopState {
    /// Not started yet.
    Disconnected,
    /// A subscription was asked for and is not confirmed yet.
    Subscribing,
    /// Subscribed: messages arrive.
    Streaming,
    /// The last attempt failed, or the stream broke; a retry is due.
    Error,
    /// The session was shut down: the worker has ended.
    Stopped,
}

/// What the driver reports to the worker.
#[derive(Debug, Clone, PartialEq, Eq)]
pub enum LoopEvent {
    /// The worker is to begin.
    Start,
    /// The backend accepted the subscription.
    Subscribed,
    /// The subscription could not be opened.
    SubscribeFailed,
    /// A message arrived, with or without a payload.
    Message(Option<Vec<u8>>),
    /// The stream of messages ended or broke.
    StreamBroken,
    /// The wait before the next attempt is over.
    RetryDue,
    /// The session was shut down.
    Cancelled,
}

/// The mathematical value of a [`LoopEvent`].
pub enum LoopEventView {
    Start,
    Subscribed,
    SubscribeFailed,
    Message(Option<Seq<u8>>),
    StreamBroken,
    RetryDue,
    Cancelled,
}

impl View for LoopEvent {
    type V = LoopEventView;

    open spec fn view(&self) -> LoopEventView {
        match *self {
            LoopEvent::Start => LoopEventView::Start,
            LoopEvent::Subscribed => LoopEventView::Subscribed,
            LoopEvent::SubscribeFailed => LoopEventView::SubscribeFailed,
            LoopEvent::Message(Some(bytes)) => LoopEventView::Message(Some(bytes@)),
            LoopEvent::Message(None) => LoopEventView::Message(None),
            LoopEvent::StreamBroken => LoopEventView::StreamBroken,
            LoopEvent::RetryDue => LoopEventView::RetryDue,
            LoopEvent::Cancelled => LoopEventView::Cancelled,
        }
    }
}

/// What the worker asks the driver to do next.
#[derive(Debug, Clone, PartialEq, Eq)]
pub enum LoopAction {
    /// Open a fresh connection and subscribe to the topic.
    Subscribe,
    /// Wait for the next message of the stream.
    Receive,
    /// Push this event onto the bridge, then wait for the next message.
    Forward(DecodedEvent),
    /// Wait this many milliseconds, then report that the retry is due.
    Wait(u64),
    /// End the worker.
    Stop,
    /// The report did not fit the state: nothing changed, carry on.
    Ignore,
}

/// The mathematical value of a [`LoopAction`].
pub enum LoopActionView {
    Subscribe,
    Receive,
    Forward(EventView),
    Wait(u64),
    Stop,
    Ignore,
}

impl View for LoopAction {
    type V = LoopActionView;

    open spec fn view(&self) -> LoopActionView {
        match *self {
            LoopAction::Subscribe => LoopActionView::Subscribe,
            LoopAction::Receive => LoopActionView::Receive,
            LoopAction::Forward(event) => LoopActionView::Forward(event@),
            LoopAction::Wait(ms) => LoopActionView::Wait(ms),
            LoopAction::Stop => LoopActionView::Stop,
            LoopAction::Ignore => LoopActionView::Ignore,
        }
    }
}

/// The worker as a value: its state and the failures in a row so far.
pub struct LoopModel {
    pub state: LoopState,
    pub failures: nat,
}

/// One more failure in a row. The count stops at the largest `u32`.
pub open spec fn one_more_failure(failures: nat) -> nat {
    if failures < u32::MAX {
        failures + 1
    } else {
        failures
    }
}

/// The worker after a failure: a retry is due after the policy's wait.
pub open spec fn failed(policy: BackoffPolicy, failures: nat, jitter: nat) -> (
    LoopModel,
    LoopActionView,
) {
    let count = one_more_failure(failures);
    (
        LoopModel { state: LoopState::Error, failures: count },
        LoopActionView::Wait(policy.delay_after(count, jitter) as u64),
    )
}

/// The transition of the worker: its next value and the action it asks for.
///
/// A shutdown ends the worker from any state, and an ended worker stays
/// ended. A confirmed subscription clears the count of failures. Each
/// message with a payload is forwarded, in the order of arrival. A failed
/// subscription and a broken stream both lead to a retry after a wait. A
/// report that does not fit the state changes nothing.
pub open spec fn loop_step(
    policy: BackoffPolicy,
    model: LoopModel,
    event: LoopEventView,
    jitter: nat,
) -> (LoopModel, LoopActionView) {
    let stay = (model, LoopActionView::Ignore);
    match (model.state, event) {
        (_, LoopEventView::Cancelled) => (
            LoopModel { state: LoopState::Stopped, failures: model.failures },
            LoopActionView::Stop,
        ),
        (LoopState::Stopped, _) => (model, LoopActionView::Stop),
        (LoopState::Disconnected, LoopEventView::Start) => (
            LoopModel { state: LoopState::Subscribing, failures: model.failures },
            LoopActionView::Subscribe,
        ),
        (LoopState::Subscribing, LoopEventView::Subscribed) => (
            LoopModel { state: LoopState::Streaming, failures: 0 },
            LoopActionView::Receive,
        ),
        (LoopState::Subscribing, LoopEventView::SubscribeFailed) => failed(
            policy,
            model.failures,
            jitter,
        ),
        (LoopState::Streaming, LoopEventView::Message(payload)) => match message_event(payload) {
            Some(incoming) => (model, LoopActionView::Forward(incoming)),
            None => (model, LoopActionView::Receive),
        },
        (LoopState::Streaming, LoopEventView::StreamBroken) => failed(
            policy,
            model.failures,
            jitter,
        ),
        (LoopState::Error, LoopEventView::RetryDue) => (
            LoopModel { state: LoopState::Subscribing, failures: model.failures },
            LoopActionView::Subscribe,
        ),
        _ => stay,
    }
}

/// How a driver carries on from a state, whatever was reported before: by
/// the action that the state is waiting on. Only a worker that has not
/// started changes by it: it starts.
pub open spec fn resumed(policy: BackoffPolicy, model: LoopModel, jitter: nat) -> (
    LoopModel,
    LoopActionView,
) {
    match model.state {
        LoopState::Disconnected => loop_step(policy, model, LoopEventView::Start, jitter),
        LoopState::Subscribing => (model, LoopActionView::Subscribe),
        LoopState::Streaming => (model, LoopActionView::Receive),
        LoopState::Error => (
            model,
            LoopActionView::Wait(policy.delay_after(model.failures, jitter) as u64),
        ),
        LoopState::Stopped => (model, LoopActionView::Stop),
    }
}

/// Only a shutdown ends the worker: no other report leads a worker that has
/// not ended to `Stopped`, and a worker that has ended stays so.
pub proof fn lemma_only_shutdown_stops(
    policy: BackoffPolicy,
    model: LoopModel,
    event: LoopEventView,
    jitter: nat,
)
    ensures
        event == LoopEventView::Cancelled ==> loop_step(policy, model, event, jitter).0.state
            == LoopState::Stopped,
        model.state == LoopState::Stopped ==> loop_step(policy, model, event, jitter).0.state
            == LoopState::Stopped,
        event != LoopEventView::Cancelled && model.state != LoopState::Stopped ==> loop_step(
            policy,
            model,
            event,
            jitter,
        ).0.state != LoopState::Stopped,
{
}

/// A wait that the worker asks for never exceeds the policy's maximum, and
/// it is asked for only on entering `Error`.
pub proof fn lemma_wait_is_bounded(
    policy: BackoffPolicy,
    model: LoopModel,
    event: LoopEventView,
    jitter: nat,
)
    ensures
        loop_step(policy, model, event, jitter).1 matches LoopActionView::Wait(ms) ==> ms
            <= policy.max_ms && loop_step(policy, model, event, jitter).0.state == LoopState::Error,
{
    lemma_delay_bounds(
        policy.base_ms as nat,
        policy.max_ms as nat,
        one_more_failure(model.failures),
        jitter,
    );
}

/// A wait that the worker asks for is at least half of the smaller of the
/// policy's base and maximum: with both at two milliseconds or more, the
/// worker never subscribes again at once.
pub proof fn lemma_wait_is_at_least(
    policy: BackoffPolicy,
    model: LoopModel,
    event: LoopEventView,
    jitter: nat,
)
    ensures
        loop_step(policy, model, event, jitter).1 matches LoopActionView::Wait(ms) ==> ms
            >= policy.floor() / 2,
        resumed(policy, model, jitter).1 matches LoopActionView::Wait(ms) ==> ms >= policy.floor()
            / 2,
{
    lemma_delay_bounds(
        policy.base_ms as nat,
        policy.max_ms as nat,
        one_more_failure(model.failures),
        jitter,
    );
    lemma_delay_at_least(
        policy.base_ms as nat,
        policy.max_ms as nat,
        one_more_failure(model.failures),
        jitter,
    );
    lemma_delay_bounds(policy.base_ms as nat, policy.max_ms as nat, model.failures, jitter);
    lemma_delay_at_least(policy.base_ms as nat, policy.max_ms as nat, model.failures, jitter);
}

/// Calls `PubSubMessage::data` of the backend's client, which hands out a
/// copy of the payload that the message carries, if it carries one. The
/// result is given the name [`message_data`]; nothing is claimed of the
/// bytes themselves.
#[verifier::external_body]
fn message_payload(message: &ipfsapi::pubsub::PubSubMessage) -> (payload: Option<Vec<u8>>)
    ensures
        payload_bytes(payload) == message_data(*message),
{
    message.data()
}

/// The subscription worker.
pub struct SubscriptionLoop {
    state: LoopState,
    failures: u32,
    policy: BackoffPolicy,
}

impl View for SubscriptionLoop {
    type V = LoopModel;

    closed spec fn view(&self) -> LoopModel {
        LoopModel { state: self.state, failures: self.failures as nat }
    }
}

impl SubscriptionLoop {
    /// The backoff policy of this worker.
    pub closed spec fn policy(&self) -> BackoffPolicy {
        self.policy
    }

    /// A worker that has not started, with no failure counted.
    pub fn new(policy: BackoffPolicy) -> (worker: Self)
        ensures
            worker@ == (LoopModel { state: LoopState::Disconnected, failures: 0 }),
            worker.policy() == policy,
    {
        SubscriptionLoop { state: LoopState::Disconnected, failures: 0, policy }
    }

    /// The state of the worker.
    pub fn state(&self) -> (state: LoopState)
        ensures
            state == self@.state,
    {
        self.state
    }

    /// The number of failures in a row so far.
    pub fn failures(&self) -> (failures: u32)
        ensures
            failures == self@.failures,
    {
        self.failures
    }

    /// Records a failure and asks for a retry after the policy's wait.
    fn fail(&mut self, jitter: u64) -> (action: LoopAction)
        ensures
            final(self).policy() == old(self).policy(),
            (final(self)@, action@) == failed(
                old(self).policy(),
                old(self)@.failures,
                jitter as nat,
            ),
    {
        if self.failures < u32::MAX {
            self.failures = self.failures + 1;
        }
        self.state = LoopState::Error;
        LoopAction::Wait(self.policy.delay(self.failures, jitter))
    }

    /// Takes one report of the driver and answers with the next action.
    /// `jitter` is a random sample; it is used only where a wait is asked for.
    pub fn step(&mut self, event: LoopEvent, jitter: u64) -> (action: LoopAction)
        ensures
            final(self).policy() == old(self).policy(),
            (final(self)@, action@) == loop_step(
                old(self).policy(),
                old(self)@,
                event@,
                jitter as nat,
            ),
    {
        match (self.state, event) {
            (_, LoopEvent::Cancelled) => {
                self.state = LoopState::Stopped;
                LoopAction::Stop
            },
            (LoopState::Stopped, _) => LoopAction::Stop,
            (LoopState::Disconnected, LoopEvent::Start) => {
                self.state = LoopState::Subscribing;
                LoopAction::Subscribe
            },
            (LoopState::Subscribing, LoopEvent::Subscribed) => {
                self.state = LoopState::Streaming;
                self.failures = 0;
                LoopAction::Receive
            },
            (LoopState::Subscribing, LoopEvent::SubscribeFailed) => self.fail(jitter),
            (LoopState::Streaming, LoopEvent::Message(payload)) => {
                match incoming_event(payload) {
                    Some(incoming) => LoopAction::Forward(incoming),
                    None => LoopAction::Receive,
                }
            },
            (LoopState::Streaming, LoopEvent::StreamBroken) => self.fail(jitter),
            (LoopState::Error, LoopEvent::RetryDue) => {
                self.state = LoopState::Subscribing;
                LoopAction::Subscribe
            },
            _ => LoopAction::Ignore,
        }
    }

    /// Takes one message of the subscription stream, as the backend's client
    /// hands it out. The worker does with the payload that the message
    /// carries what [`Self::step`] does with a reported message: a streaming
    /// worker forwards its text, or asks for the next message where there is
    /// no payload.
    pub fn on_message(&mut self, message: &ipfsapi::pubsub::PubSubMessage) -> (action: LoopAction)
        ensures
            final(self).policy() == old(self).policy(),
            (final(self)@, action@) == loop_step(
                old(self).policy(),
                old(self)@,
                LoopEventView::Message(message_data(*message)),
                0,
            ),
    {
        let event = LoopEvent::Message(message_payload(message));
        assert(event@ == LoopEventView::Message(message_data(*message)));
        self.step(event, 0)
    }

    /// Tells a driver how to carry on from the state the worker is in, after
    /// a report that did not fit: a worker that has not started starts, a
    /// subscribing worker subscribes, a streaming worker receives, a worker
    /// in `Error` waits once more before its retry, and a stopped worker
    /// stops. The answer is never `Ignore`.
    pub fn resume(&mut self, jitter: u64) -> (action: LoopAction)
        ensures
            final(self).policy() == old(self).policy(),
            (final(self)@, action@) == resumed(old(self).policy(), old(self)@, jitter as nat),
            action@ != LoopActionView::Ignore,
    {
        match self.state {
            LoopState::Disconnected => self.step(LoopEvent::Start, jitter),
            LoopState::Subscribing => LoopAction::Subscribe,
            LoopState::Streaming => LoopAction::Receive,
            LoopState::Error => LoopAction::Wait(self.policy.delay(self.failures, jitter)),
            LoopState::Stopped => LoopAction::Stop,
        }
    }
}

} // verus!
