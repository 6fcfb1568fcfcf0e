use rwave::player::Player;
use rwave::registry::Registry;

#[test]
fn subscribe_returns_distinct_ids() {
    let mut r: Registry<String> = Registry::new();
    let a = r.subscribe(String::from("first"));
    let b = r.subscribe(String::from("second"));
    let c = r.subscribe(String::from("third"));
    assert_ne!(a, b);
    assert_ne!(b, c);
    assert_ne!(a, c);
    assert_eq!(r.count(), 3);
}

#[test]
fn ids_stay_distinct_across_unsubscribes() {
    let mut r: Registry<String> = Registry::new();
    let a = r.subscribe(String::from("first"));
    assert!(r.unsubscribe(a));
    let b = r.subscribe(String::from("second"));
    assert_ne!(a, b);
}

#[test]
fn unsubscribe_twice_returns_true_then_false() {
    let mut r: Registry<String> = Registry::new();
    let id = r.subscribe(String::from("endpoint"));
    assert!(r.unsubscribe(id));
    assert!(!r.unsubscribe(id));
}

#[test]
fn unsubscribe_unknown_id_returns_false() {
    let mut r: Registry<String> = Registry::new();
    assert!(!r.unsubscribe(42));
}

#[test]
fn unsubscribe_keeps_other_entries() {
    let mut r: Registry<String> = Registry::new();
    let a = r.subscribe(String::from("first"));
    let b = r.subscribe(String::from("second"));
    let c = r.subscribe(String::from("third"));
    assert!(r.unsubscribe(b));
    assert_eq!(r.count(), 2);
    assert!(r.is_subscribed(a));
    assert!(!r.is_subscribed(b));
    assert!(r.is_subscribed(c));
    assert_eq!(r.id_at(0), a);
    assert_eq!(r.id_at(1), c);
    assert_eq!(r.endpoint_at(0), "first");
    assert_eq!(r.endpoint_at(1), "third");
}

#[test]
fn late_subscriber_is_absent_from_earlier_delivery_list() {
    let mut r: Registry<String> = Registry::new();
    let a = r.subscribe(String::from("early"));
    // The delivery list for an event emitted now: exactly the live entries.
    let mut targets: Vec<u64> = Vec::new();
    for i in 0..r.count() {
        targets.push(r.id_at(i));
    }
    let b = r.subscribe(String::from("late"));
    assert!(targets.contains(&a));
    assert!(!targets.contains(&b));
}

#[test]
fn facade_subscription_round_trip() {
    let mut p: Player<String> = Player::spawn();
    let id = p.subscribe_event(String::from("sink"));
    let other = p.subscribe_event(String::from("other"));
    assert_ne!(id, other);
    assert!(p.unsubscribe_event(id));
    assert!(!p.unsubscribe_event(id));
    assert!(p.registry.is_subscribed(other));
}
