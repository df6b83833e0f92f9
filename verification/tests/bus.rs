use mystar::bus::{EventBus, RecvError};
use mystar::message::EventMessage;

fn text(s: &str) -> EventMessage {
    EventMessage::Text(s.to_string())
}

#[test]
fn every_event_arrives_in_order_and_once_while_there_is_room() {
    let mut bus = EventBus::new(8);
    let id = bus.subscribe();
    let sent: Vec<String> = (0..8).map(|i| format!("frame {i}")).collect();
    for s in &sent {
        assert_eq!(bus.publish(text(s)), 1);
    }
    assert_eq!(bus.pending(id), 8);
    for s in &sent {
        assert_eq!(bus.recv(id), Ok(text(s)));
    }
    assert_eq!(bus.recv(id), Err(RecvError::Empty));
}

#[test]
fn late_subscriber_sees_no_replay() {
    let mut bus = EventBus::new(128);
    let a = bus.subscribe();
    bus.publish(EventMessage::Open());
    let b = bus.subscribe();
    bus.publish(text("one"));
    bus.publish(EventMessage::Binary(vec![2]));
    assert_eq!(bus.recv(a), Ok(EventMessage::Open()));
    assert_eq!(bus.recv(a), Ok(text("one")));
    assert_eq!(bus.recv(a), Ok(EventMessage::Binary(vec![2])));
    assert_eq!(bus.recv(a), Err(RecvError::Empty));
    assert_eq!(bus.recv(b), Ok(text("one")));
    assert_eq!(bus.recv(b), Ok(EventMessage::Binary(vec![2])));
    assert_eq!(bus.recv(b), Err(RecvError::Empty));
}

#[test]
fn slow_subscriber_loses_the_oldest_events() {
    let mut bus = EventBus::new(2);
    let slow = bus.subscribe();
    bus.publish(text("a"));
    bus.publish(text("b"));
    bus.publish(text("c"));
    assert_eq!(bus.pending(slow), 2);
    assert_eq!(bus.recv(slow), Err(RecvError::Lagged(1)));
    assert_eq!(bus.recv(slow), Ok(text("b")));
    assert_eq!(bus.recv(slow), Ok(text("c")));
    assert_eq!(bus.recv(slow), Err(RecvError::Empty));
}

#[test]
fn a_slow_subscriber_does_not_hold_back_a_fast_one() {
    let mut bus = EventBus::new(2);
    let slow = bus.subscribe();
    let fast = bus.subscribe();
    for i in 0..10 {
        bus.publish(text(&i.to_string()));
        assert_eq!(bus.recv(fast), Ok(text(&i.to_string())));
    }
    assert_eq!(bus.recv(fast), Err(RecvError::Empty));
    assert_eq!(bus.recv(slow), Err(RecvError::Lagged(8)));
    assert_eq!(bus.recv(slow), Ok(text("8")));
    assert_eq!(bus.recv(slow), Ok(text("9")));
}

#[test]
fn publishing_without_subscribers_reaches_nobody() {
    let mut bus = EventBus::new(4);
    assert_eq!(bus.publish(text("lost")), 0);
    let id = bus.subscribe();
    assert_eq!(bus.recv(id), Err(RecvError::Empty));
}

#[test]
fn unknown_and_given_up_subscriptions_are_closed() {
    let mut bus = EventBus::new(4);
    assert_eq!(bus.recv(0), Err(RecvError::Closed));
    let a = bus.subscribe();
    let b = bus.subscribe();
    assert_eq!((a, b), (0, 1));
    bus.publish(text("x"));
    bus.unsubscribe(a);
    assert_eq!(bus.recv(a), Err(RecvError::Closed));
    assert_eq!(bus.pending(a), 0);
    assert_eq!(bus.publish(text("y")), 1);
    assert_eq!(bus.recv(a), Err(RecvError::Closed));
    assert_eq!(bus.recv(b), Ok(text("x")));
    assert_eq!(bus.recv(b), Ok(text("y")));
    bus.unsubscribe(17);
    let c = bus.subscribe();
    assert_eq!(c, 2);
}

#[test]
fn a_bus_without_capacity_keeps_nothing() {
    let mut bus = EventBus::new(0);
    let id = bus.subscribe();
    bus.publish(text("a"));
    bus.publish(text("b"));
    assert_eq!(bus.capacity(), 0);
    assert_eq!(bus.pending(id), 0);
    assert_eq!(bus.recv(id), Err(RecvError::Lagged(2)));
    assert_eq!(bus.recv(id), Err(RecvError::Empty));
}

#[test]
fn lag_is_reported_once() {
    let mut bus = EventBus::new(1);
    let id = bus.subscribe();
    bus.publish(text("a"));
    bus.publish(text("b"));
    assert_eq!(bus.recv(id), Err(RecvError::Lagged(1)));
    bus.publish(text("c"));
    assert_eq!(bus.recv(id), Err(RecvError::Lagged(1)));
    assert_eq!(bus.recv(id), Ok(text("c")));
}
