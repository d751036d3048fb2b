use todo_state::bus::ChangeBus;
use todo_state::state::StateModel;

#[test]
fn insert_and_matching_remove_signal_each_observer_once() {
    let mut model = StateModel::init();
    let h = model.subscribe();
    let _ = model.snapshot();
    let _ = model.snapshot();
    let (id, event) = model.push("t".to_string());
    assert_eq!(event.observers, vec![h]);
    let event = model.remove(id).expect("the item is there");
    assert_eq!(event.observers, vec![h]);
}

#[test]
fn unmatched_remove_raises_no_signal() {
    let mut model = StateModel::init();
    let _h = model.subscribe();
    model.push("t".to_string());
    assert!(model.remove(42).is_none());
}

#[test]
fn signals_follow_subscription_order() {
    let mut model = StateModel::init();
    let a = model.subscribe();
    let b = model.subscribe();
    let c = model.subscribe();
    assert_eq!((a, b, c), (0, 1, 2));
    let (_, event) = model.push("t".to_string());
    assert_eq!(event.observers, vec![a, b, c]);
    model.unsubscribe(b);
    let (_, event) = model.push("u".to_string());
    assert_eq!(event.observers, vec![a, c]);
}

#[test]
fn signal_with_no_observer_is_empty() {
    let mut model = StateModel::init();
    let (_, event) = model.push("t".to_string());
    assert!(event.observers.is_empty());
}

#[test]
fn unsubscribe_twice_is_like_once() {
    let mut once = ChangeBus::new();
    let mut twice = ChangeBus::new();
    for bus in [&mut once, &mut twice] {
        bus.subscribe();
        bus.subscribe();
        bus.subscribe();
    }
    once.unsubscribe(1);
    twice.unsubscribe(1);
    twice.unsubscribe(1);
    assert_eq!(once.notify().observers, vec![0, 2]);
    assert_eq!(twice.notify().observers, vec![0, 2]);
    assert_eq!(once.subscribe(), twice.subscribe());
}

#[test]
fn unsubscribe_of_unknown_handle_is_a_no_op() {
    let mut bus = ChangeBus::new();
    let h = bus.subscribe();
    bus.unsubscribe(99);
    assert_eq!(bus.notify().observers, vec![h]);
}

#[test]
fn handles_are_not_reused_after_unsubscribe() {
    let mut bus = ChangeBus::new();
    let a = bus.subscribe();
    bus.unsubscribe(a);
    let b = bus.subscribe();
    assert_ne!(a, b);
    assert_eq!(bus.notify().observers, vec![b]);
}
