use wlroots::signal::{Notify, Signal, Subscription};

#[test]
fn new_signal_has_no_subscriber() {
    let signal = Signal::new(0x1000);
    assert_eq!(signal.handle(), 0x1000);
    assert!(!signal.is_null());
    assert_eq!(signal.subscriber_count(), 0);
    assert!(signal.subscribers().is_empty());
}

#[test]
fn register_appends_in_order() {
    let mut signal = Signal::new(0x1000);
    let first = signal.register(Notify::PointerButton, 7).expect("a valid signal takes a listener");
    let second = signal.register(Notify::PointerAxis, 7).expect("a valid signal takes a listener");
    assert_eq!(signal.subscriber_count(), 2);
    assert_eq!(first.signal(), 0x1000);
    assert_eq!(first.notify(), Notify::PointerButton);
    assert_eq!(first.payload(), 7);
    assert_eq!(second.notify(), Notify::PointerAxis);
    assert_eq!(signal.subscribers()[0], first);
    assert_eq!(signal.subscribers()[1], second);
    assert_eq!(signal.position(Notify::PointerAxis, 7), Some(1));
    assert_eq!(signal.position(Notify::PointerMotion, 7), None);
    assert!(signal.is_registered(Notify::PointerButton, 7));
    assert!(!signal.is_registered(Notify::PointerButton, 8));
}

#[test]
fn register_on_null_signal_gives_nothing() {
    let mut signal = Signal::new(0);
    assert!(signal.is_null());
    assert!(signal.register(Notify::InputAdd, 3).is_none());
    assert_eq!(signal.subscriber_count(), 0);
}

#[test]
fn register_then_deregister_restores_the_signal() {
    let mut signal = Signal::new(0x2000);
    let _kept = signal.register(Notify::InputAdd, 1).unwrap();
    let _other = signal.register(Notify::InputRemove, 1).unwrap();
    let before = signal.subscriber_count();
    let token = signal.register(Notify::OutputAdd, 1).unwrap();
    assert_eq!(signal.subscriber_count(), before + 1);
    signal.deregister(token);
    assert_eq!(signal.subscriber_count(), before);
    assert_eq!(signal.subscribers()[0].notify(), Notify::InputAdd);
    assert_eq!(signal.subscribers()[1].notify(), Notify::InputRemove);
}

#[test]
fn deregister_keeps_the_order_of_the_rest() {
    let mut signal = Signal::new(0x2000);
    let _a = signal.register(Notify::InputAdd, 1).unwrap();
    let b = signal.register(Notify::InputRemove, 1).unwrap();
    let _c = signal.register(Notify::OutputAdd, 1).unwrap();
    signal.deregister(b);
    assert_eq!(signal.subscriber_count(), 2);
    assert_eq!(signal.subscribers()[0].notify(), Notify::InputAdd);
    assert_eq!(signal.subscribers()[1].notify(), Notify::OutputAdd);
}

#[test]
fn deregister_of_a_foreign_token_changes_nothing() {
    let mut here = Signal::new(0x2000);
    let mut there = Signal::new(0x3000);
    let _mine = here.register(Notify::InputAdd, 1).unwrap();
    let foreign = there.register(Notify::InputAdd, 1).unwrap();
    here.deregister(foreign);
    assert_eq!(here.subscriber_count(), 1);
    assert_eq!(there.subscriber_count(), 1);
}

#[test]
fn subscription_holds_one_listener() {
    let subscription = Subscription::new(0x4000, Notify::PointerMotion, 9);
    assert_eq!(subscription.signal(), 0x4000);
    let listener = subscription.listener().as_ref().expect("registered");
    assert_eq!(listener.signal(), 0x4000);
    assert_eq!(listener.notify(), Notify::PointerMotion);
    assert_eq!(listener.payload(), 9);
}

#[test]
fn subscription_on_null_signal_has_no_listener() {
    let subscription = Subscription::new(0, Notify::PointerMotion, 9);
    assert!(subscription.listener().is_none());
    let signal = subscription.cancel();
    assert_eq!(signal.subscriber_count(), 0);
}

#[test]
fn cancel_leaves_no_subscriber() {
    let subscription = Subscription::new(0x4000, Notify::PointerMotion, 9);
    let signal = subscription.cancel();
    assert_eq!(signal.handle(), 0x4000);
    assert_eq!(signal.subscriber_count(), 0);
}
