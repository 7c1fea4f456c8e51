use ipfs_chat::backoff::BackoffPolicy;
use ipfs_chat::event::DecodedEvent;
use ipfs_chat::subscription::{LoopAction, LoopEvent, LoopState, SubscriptionLoop};

fn worker() -> SubscriptionLoop {
    SubscriptionLoop::new(BackoffPolicy::new(100, 1000))
}

fn streaming() -> SubscriptionLoop {
    let mut w = worker();
    assert_eq!(w.step(LoopEvent::Start, 0), LoopAction::Subscribe);
    assert_eq!(w.step(LoopEvent::Subscribed, 0), LoopAction::Receive);
    w
}

fn every_event() -> Vec<LoopEvent> {
    vec![
        LoopEvent::Start,
        LoopEvent::Subscribed,
        LoopEvent::SubscribeFailed,
        LoopEvent::Message(None),
        LoopEvent::Message(Some(b"x".to_vec())),
        LoopEvent::StreamBroken,
        LoopEvent::RetryDue,
        LoopEvent::Cancelled,
    ]
}

#[test]
fn worker_starts_disconnected() {
    let w = worker();
    assert_eq!(w.state(), LoopState::Disconnected);
    assert_eq!(w.failures(), 0);
}

#[test]
fn start_asks_for_a_subscription() {
    let mut w = worker();
    assert_eq!(w.step(LoopEvent::Start, 0), LoopAction::Subscribe);
    assert_eq!(w.state(), LoopState::Subscribing);
}

#[test]
fn confirmed_subscription_streams() {
    let w = streaming();
    assert_eq!(w.state(), LoopState::Streaming);
    assert_eq!(w.failures(), 0);
}

#[test]
fn message_with_payload_is_forwarded() {
    let mut w = streaming();
    assert_eq!(
        w.step(LoopEvent::Message(Some(b"hello".to_vec())), 0),
        LoopAction::Forward(DecodedEvent::IncomingText("hello".to_string()))
    );
    assert_eq!(w.state(), LoopState::Streaming);
}

#[test]
fn corrupted_message_is_forwarded_as_the_sentinel() {
    let mut w = streaming();
    assert_eq!(
        w.step(LoopEvent::Message(Some(vec![0xc3, 0x28])), 0),
        LoopAction::Forward(DecodedEvent::IncomingText("Corrupted message".to_string()))
    );
    assert_eq!(w.state(), LoopState::Streaming);
}

#[test]
fn message_without_payload_is_skipped() {
    let mut w = streaming();
    assert_eq!(w.step(LoopEvent::Message(None), 0), LoopAction::Receive);
    assert_eq!(w.state(), LoopState::Streaming);
}

#[test]
fn messages_are_forwarded_in_arrival_order() {
    let mut w = streaming();
    let mut forwarded = Vec::new();
    for word in ["one", "two", "three", "four"].iter() {
        match w.step(LoopEvent::Message(Some(word.as_bytes().to_vec())), 0) {
            LoopAction::Forward(event) => forwarded.push(event),
            other => panic!("not forwarded: {:?}", other),
        }
    }
    assert_eq!(
        forwarded,
        vec![
            DecodedEvent::IncomingText("one".to_string()),
            DecodedEvent::IncomingText("two".to_string()),
            DecodedEvent::IncomingText("three".to_string()),
            DecodedEvent::IncomingText("four".to_string()),
        ]
    );
}

#[test]
fn failed_subscription_waits_then_retries() {
    let mut w = worker();
    w.step(LoopEvent::Start, 0);
    assert_eq!(w.step(LoopEvent::SubscribeFailed, 0), LoopAction::Wait(50));
    assert_eq!(w.state(), LoopState::Error);
    assert_eq!(w.failures(), 1);
    assert_eq!(w.step(LoopEvent::RetryDue, 0), LoopAction::Subscribe);
    assert_eq!(w.state(), LoopState::Subscribing);
    assert_eq!(w.failures(), 1);
}

#[test]
fn broken_stream_waits_then_retries() {
    let mut w = streaming();
    assert_eq!(w.step(LoopEvent::StreamBroken, 50), LoopAction::Wait(100));
    assert_eq!(w.state(), LoopState::Error);
    assert_eq!(w.failures(), 1);
    assert_eq!(w.step(LoopEvent::RetryDue, 0), LoopAction::Subscribe);
}

#[test]
fn waits_grow_with_failures_in_a_row() {
    let mut w = worker();
    w.step(LoopEvent::Start, 0);
    let mut waits = Vec::new();
    for _ in 0..6 {
        match w.step(LoopEvent::SubscribeFailed, 0) {
            LoopAction::Wait(ms) => waits.push(ms),
            other => panic!("no wait: {:?}", other),
        }
        assert_eq!(w.step(LoopEvent::RetryDue, 0), LoopAction::Subscribe);
    }
    assert_eq!(waits, vec![50, 100, 200, 400, 500, 500]);
    assert_eq!(w.failures(), 6);
}

#[test]
fn wait_uses_the_sample() {
    let mut w = worker();
    w.step(LoopEvent::Start, 0);
    // ceiling 100: half is 50, the sample is taken modulo 51.
    assert_eq!(w.step(LoopEvent::SubscribeFailed, 52), LoopAction::Wait(51));
}

#[test]
fn success_clears_the_failures() {
    let mut w = worker();
    w.step(LoopEvent::Start, 0);
    w.step(LoopEvent::SubscribeFailed, 0);
    w.step(LoopEvent::RetryDue, 0);
    w.step(LoopEvent::SubscribeFailed, 0);
    w.step(LoopEvent::RetryDue, 0);
    assert_eq!(w.failures(), 2);
    assert_eq!(w.step(LoopEvent::Subscribed, 0), LoopAction::Receive);
    assert_eq!(w.failures(), 0);
    assert_eq!(w.step(LoopEvent::StreamBroken, 0), LoopAction::Wait(50));
}

#[test]
fn zero_policy_retries_at_once() {
    let mut w = SubscriptionLoop::new(BackoffPolicy::new(0, 0));
    w.step(LoopEvent::Start, 0);
    assert_eq!(w.step(LoopEvent::SubscribeFailed, 99), LoopAction::Wait(0));
}

#[test]
fn cancellation_stops_the_worker_from_any_state() {
    let mut disconnected = worker();
    assert_eq!(disconnected.step(LoopEvent::Cancelled, 0), LoopAction::Stop);
    assert_eq!(disconnected.state(), LoopState::Stopped);

    let mut subscribing = worker();
    subscribing.step(LoopEvent::Start, 0);
    assert_eq!(subscribing.step(LoopEvent::Cancelled, 0), LoopAction::Stop);
    assert_eq!(subscribing.state(), LoopState::Stopped);

    let mut active = streaming();
    assert_eq!(active.step(LoopEvent::Cancelled, 0), LoopAction::Stop);
    assert_eq!(active.state(), LoopState::Stopped);

    let mut failed = streaming();
    failed.step(LoopEvent::StreamBroken, 0);
    assert_eq!(failed.step(LoopEvent::Cancelled, 0), LoopAction::Stop);
    assert_eq!(failed.state(), LoopState::Stopped);
}

#[test]
fn stopped_worker_stays_stopped() {
    let mut w = streaming();
    w.step(LoopEvent::Cancelled, 0);
    for event in every_event() {
        assert_eq!(w.step(event, 3), LoopAction::Stop);
        assert_eq!(w.state(), LoopState::Stopped);
    }
}

#[test]
fn reports_that_do_not_fit_are_ignored() {
    let mut disconnected = worker();
    for event in every_event() {
        if event != LoopEvent::Start && event != LoopEvent::Cancelled {
            assert_eq!(disconnected.step(event, 0), LoopAction::Ignore);
            assert_eq!(disconnected.state(), LoopState::Disconnected);
        }
    }
    let mut active = streaming();
    for event in [LoopEvent::Start, LoopEvent::Subscribed, LoopEvent::SubscribeFailed, LoopEvent::RetryDue] {
        assert_eq!(active.step(event, 0), LoopAction::Ignore);
        assert_eq!(active.state(), LoopState::Streaming);
        assert_eq!(active.failures(), 0);
    }
    let mut failed = streaming();
    failed.step(LoopEvent::StreamBroken, 0);
    for event in [LoopEvent::Start, LoopEvent::Subscribed, LoopEvent::StreamBroken, LoopEvent::Message(None)] {
        assert_eq!(failed.step(event, 0), LoopAction::Ignore);
        assert_eq!(failed.state(), LoopState::Error);
        assert_eq!(failed.failures(), 1);
    }
}

#[test]
fn resume_starts_a_worker_that_has_not_started() {
    let mut w = worker();
    assert_eq!(w.resume(0), LoopAction::Subscribe);
    assert_eq!(w.state(), LoopState::Subscribing);
}

#[test]
fn resume_repeats_what_the_state_waits_on() {
    let mut subscribing = worker();
    subscribing.step(LoopEvent::Start, 0);
    assert_eq!(subscribing.resume(0), LoopAction::Subscribe);
    assert_eq!(subscribing.state(), LoopState::Subscribing);

    let mut active = streaming();
    assert_eq!(active.resume(0), LoopAction::Receive);
    assert_eq!(active.state(), LoopState::Streaming);

    let mut stopped = streaming();
    stopped.step(LoopEvent::Cancelled, 0);
    assert_eq!(stopped.resume(0), LoopAction::Stop);
    assert_eq!(stopped.state(), LoopState::Stopped);
}

#[test]
fn resume_after_a_failure_waits_again_and_counts_nothing() {
    let mut w = streaming();
    assert_eq!(w.step(LoopEvent::StreamBroken, 0), LoopAction::Wait(50));
    assert_eq!(w.step(LoopEvent::Subscribed, 0), LoopAction::Ignore);
    assert_eq!(w.resume(0), LoopAction::Wait(50));
    assert_eq!(w.resume(52), LoopAction::Wait(51));
    assert_eq!(w.state(), LoopState::Error);
    assert_eq!(w.failures(), 1);
    assert_eq!(w.step(LoopEvent::RetryDue, 0), LoopAction::Subscribe);
}

#[test]
fn resume_never_answers_ignore() {
    let mut workers = vec![worker(), streaming()];
    let mut subscribing = worker();
    subscribing.step(LoopEvent::Start, 0);
    workers.push(subscribing);
    let mut failed = streaming();
    failed.step(LoopEvent::StreamBroken, 0);
    workers.push(failed);
    let mut stopped = worker();
    stopped.step(LoopEvent::Cancelled, 0);
    workers.push(stopped);
    for mut w in workers {
        assert_ne!(w.resume(7), LoopAction::Ignore);
    }
}

#[test]
fn worker_with_the_configured_policy_waits_after_a_failure() {
    let mut w = SubscriptionLoop::new(BackoffPolicy::configured());
    w.step(LoopEvent::Start, 0);
    assert_eq!(w.step(LoopEvent::SubscribeFailed, 0), LoopAction::Wait(125));
    assert_eq!(w.step(LoopEvent::RetryDue, 0), LoopAction::Subscribe);
    assert_eq!(w.step(LoopEvent::SubscribeFailed, 0), LoopAction::Wait(250));
}
