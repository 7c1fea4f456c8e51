use ipfs_chat::bridge::MessageBridge;
use ipfs_chat::event::DecodedEvent;
use ipfs_chat::publisher::{outcome_feedback, Publisher, SendOutcome};

fn text(s: &str) -> DecodedEvent {
    DecodedEvent::IncomingText(s.to_string())
}

#[test]
fn new_bridge_is_empty() {
    let mut bridge = MessageBridge::new();
    assert!(bridge.is_empty());
    assert_eq!(bridge.len(), 0);
    assert_eq!(bridge.drain_all(), Vec::<DecodedEvent>::new());
}

#[test]
fn drain_returns_events_in_push_order() {
    let mut bridge = MessageBridge::new();
    bridge.push(text("one"));
    bridge.push(DecodedEvent::CommandFeedback("two".to_string()));
    bridge.push(DecodedEvent::ShutdownRequested);
    bridge.push(text("four"));
    assert_eq!(bridge.len(), 4);
    assert!(!bridge.is_empty());
    assert_eq!(
        bridge.drain_all(),
        vec![
            text("one"),
            DecodedEvent::CommandFeedback("two".to_string()),
            DecodedEvent::ShutdownRequested,
            text("four"),
        ]
    );
}

#[test]
fn drain_leaves_the_bridge_empty() {
    let mut bridge = MessageBridge::new();
    bridge.push(text("once"));
    assert_eq!(bridge.drain_all(), vec![text("once")]);
    assert!(bridge.is_empty());
    assert_eq!(bridge.drain_all(), Vec::<DecodedEvent>::new());
}

#[test]
fn equal_events_are_neither_merged_nor_doubled() {
    let mut bridge = MessageBridge::new();
    bridge.push(text("same"));
    bridge.push(text("same"));
    assert_eq!(bridge.drain_all(), vec![text("same"), text("same")]);
}

#[test]
fn order_holds_across_several_drains() {
    let mut bridge = MessageBridge::new();
    let mut seen = Vec::new();
    bridge.push(text("a"));
    bridge.push(text("b"));
    seen.extend(bridge.drain_all());
    bridge.push(text("c"));
    seen.extend(bridge.drain_all());
    seen.extend(bridge.drain_all());
    bridge.push(text("d"));
    bridge.push(text("e"));
    seen.extend(bridge.drain_all());
    assert_eq!(seen, vec![text("a"), text("b"), text("c"), text("d"), text("e")]);
}

#[test]
fn bridge_takes_many_events() {
    let mut bridge = MessageBridge::new();
    let mut expected = Vec::new();
    for i in 0..10_000 {
        bridge.push(text(&format!("message {}", i)));
        expected.push(text(&format!("message {}", i)));
    }
    assert_eq!(bridge.len(), 10_000);
    assert_eq!(bridge.drain_all(), expected);
}

#[test]
fn failed_send_is_reported() {
    assert_eq!(
        outcome_feedback("hello", SendOutcome::Failed),
        Some(DecodedEvent::CommandFeedback("Message not sent: hello".to_string()))
    );
}

#[test]
fn published_and_abandoned_sends_are_silent() {
    assert_eq!(outcome_feedback("hello", SendOutcome::Published), None);
    assert_eq!(outcome_feedback("hello", SendOutcome::Abandoned), None);
}

#[test]
fn publisher_counts_tasks_under_way() {
    let mut publisher = Publisher::new();
    assert_eq!(publisher.in_flight(), 0);
    publisher.begin();
    publisher.begin();
    publisher.begin();
    assert_eq!(publisher.in_flight(), 3);
    assert_eq!(publisher.finish("a", SendOutcome::Published), None);
    assert_eq!(publisher.in_flight(), 2);
    assert_eq!(
        publisher.finish("b", SendOutcome::Failed),
        Some(DecodedEvent::CommandFeedback("Message not sent: b".to_string()))
    );
    assert_eq!(publisher.in_flight(), 1);
    assert_eq!(publisher.finish("c", SendOutcome::Abandoned), None);
    assert_eq!(publisher.in_flight(), 0);
}

#[test]
fn publisher_count_does_not_go_below_zero() {
    let mut publisher = Publisher::new();
    assert_eq!(publisher.finish("stray", SendOutcome::Published), None);
    assert_eq!(publisher.in_flight(), 0);
}
