use safe_chat::channel::{BoundedQueue, CHANNEL_CAPACITY};
use safe_chat::registry::PresenceRegistry;
use safe_chat::events::WSEvent;

#[test]
fn overflow_drops_oldest_without_blocking() {
    let mut q: BoundedQueue<u32> = BoundedQueue::new();
    for i in 0..CHANNEL_CAPACITY as u32 {
        assert_eq!(q.push(i), None);
    }
    assert_eq!(q.len(), 100);
    assert_eq!(q.push(100), Some(0));
    assert_eq!(q.push(101), Some(1));
    assert_eq!(q.len(), 100);
    assert_eq!(q.pop(), Some(2));
    let mut last = 2;
    while let Some(v) = q.pop() {
        assert_eq!(v, last + 1);
        last = v;
    }
    assert_eq!(last, 101);
}

#[test]
fn queue_is_first_in_first_out() {
    let mut q: BoundedQueue<&str> = BoundedQueue::new();
    assert_eq!(q.pop(), None);
    q.push("a");
    q.push("b");
    assert_eq!(q.pop(), Some("a"));
    assert_eq!(q.pop(), Some("b"));
    assert_eq!(q.pop(), None);
}

fn online(name: &str) -> WSEvent {
    WSEvent::UserOnline(name.to_string())
}

#[test]
fn second_registration_supersedes_first() {
    let mut reg = PresenceRegistry::new();
    reg.register(7, 1);
    assert_eq!(reg.lookup(7), Some(1));
    reg.register(7, 2);
    assert_eq!(reg.lookup(7), Some(2));
    assert!(reg.push_to(7, online("x")));
    assert!(reg.take(7, 1).is_none());
    match reg.take(7, 2) {
        Some(WSEvent::UserOnline(u)) => assert_eq!(u, "x"),
        other => panic!("unexpected {:?}", other),
    }
    assert!(reg.take(7, 2).is_none());
}

#[test]
fn unregistered_user_is_not_reached() {
    let mut reg = PresenceRegistry::new();
    assert!(!reg.push_to(3, online("y")));
    reg.register(3, 9);
    assert!(reg.unregister(3));
    assert!(!reg.unregister(3));
    assert_eq!(reg.lookup(3), None);
    assert!(!reg.push_to(3, online("y")));
}

#[test]
fn broadcast_reaches_every_session() {
    let mut reg = PresenceRegistry::new();
    reg.register(1, 10);
    reg.register(2, 20);
    reg.broadcast(&online("z"));
    assert!(matches!(reg.take(1, 10), Some(WSEvent::UserOnline(_))));
    assert!(matches!(reg.take(2, 20), Some(WSEvent::UserOnline(_))));
    assert!(reg.take(1, 10).is_none());
}

#[test]
fn registry_queue_overflow_keeps_newest() {
    let mut reg = PresenceRegistry::new();
    reg.register(5, 1);
    for i in 0..150 {
        assert!(reg.push_to(5, online(&i.to_string())));
    }
    match reg.take(5, 1) {
        Some(WSEvent::UserOnline(u)) => assert_eq!(u, "50"),
        other => panic!("unexpected {:?}", other),
    }
}
