use nats_bridge::subscription::{
    CancelSignal, SubscriptionAction, SubscriptionCore, SubscriptionEvent, SubscriptionState,
};

#[test]
fn cancel_twice_sends_the_signal_once() {
    let mut s = CancelSignal::new();
    assert!(!s.is_sent());
    assert!(s.cancel());
    assert!(s.is_sent());
    assert!(!s.cancel());
    assert!(s.is_sent());
}

#[test]
fn shutdown_issues_one_unsubscribe_then_drains_and_ends() {
    let mut c = SubscriptionCore::new();
    assert_eq!(c.on_event(SubscriptionEvent::MessageReady), SubscriptionAction::Deliver);
    assert_eq!(c.on_event(SubscriptionEvent::ShutdownSignal), SubscriptionAction::Unsubscribe);
    assert_eq!(c.state(), SubscriptionState::Unsubscribing);
    assert_eq!(c.on_event(SubscriptionEvent::ShutdownSignal), SubscriptionAction::Continue);
    assert_eq!(c.on_event(SubscriptionEvent::MessageReady), SubscriptionAction::Deliver);
    assert_eq!(c.on_event(SubscriptionEvent::StreamEnded), SubscriptionAction::End);
    assert!(c.is_closed());
    assert_eq!(c.on_event(SubscriptionEvent::MessageReady), SubscriptionAction::End);
    assert_eq!(c.on_event(SubscriptionEvent::ShutdownSignal), SubscriptionAction::End);
    assert_eq!(c.on_event(SubscriptionEvent::Delete), SubscriptionAction::End);
}

#[test]
fn delete_of_active_subscription_unsubscribes() {
    let mut c = SubscriptionCore::new();
    assert_eq!(c.on_event(SubscriptionEvent::Delete), SubscriptionAction::Unsubscribe);
    assert!(c.is_closed());
}

#[test]
fn delete_after_shutdown_does_not_unsubscribe_again() {
    let mut c = SubscriptionCore::new();
    assert_eq!(c.on_event(SubscriptionEvent::ShutdownSignal), SubscriptionAction::Unsubscribe);
    assert_eq!(c.on_event(SubscriptionEvent::Delete), SubscriptionAction::Continue);
    assert!(c.is_closed());
}

#[test]
fn stream_end_without_shutdown_issues_no_unsubscribe() {
    let mut c = SubscriptionCore::new();
    assert_eq!(c.on_event(SubscriptionEvent::StreamEnded), SubscriptionAction::End);
    assert_eq!(c.on_event(SubscriptionEvent::ShutdownSignal), SubscriptionAction::End);
}

// Two token clones share one signal: only the first cancel reaches the
// subscription, which then unsubscribes once.
#[test]
fn cancel_from_two_clones_unsubscribes_once() {
    let mut signal = CancelSignal::new();
    let mut core = SubscriptionCore::new();
    let mut unsubscribes = 0;
    for _token in 0..2 {
        if signal.cancel() {
            if core.on_event(SubscriptionEvent::ShutdownSignal) == SubscriptionAction::Unsubscribe {
                unsubscribes += 1;
            }
        }
    }
    assert_eq!(unsubscribes, 1);
    assert_eq!(core.on_event(SubscriptionEvent::StreamEnded), SubscriptionAction::End);
    assert_eq!(core.on_event(SubscriptionEvent::MessageReady), SubscriptionAction::End);
}
