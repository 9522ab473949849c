use tiny_shop::relay::{
    pause_after_tick, Delivery, DispatchError, LoggingDispatcher, PassAction, RelayPause, SourcePass,
    MAX_DISPATCH_ATTEMPTS,
};
use tiny_shop::shared::{now_ms, DomainEvent, NewEvent};

#[test]
fn all_delivered_are_published_in_order() {
    let mut pass = SourcePass::new(2);
    assert_eq!(pass.next_event(), Some(0));
    assert_eq!(pass.record(1, Delivery::Delivered), PassAction::Continue);
    assert_eq!(pass.next_event(), Some(1));
    assert_eq!(pass.record(2, Delivery::Delivered), PassAction::Continue);
    assert_eq!(pass.next_event(), None);
    assert_eq!(pass.delivered(), &vec![1, 2]);
    assert_eq!(pass.delivered_count(), 2);
    assert!(!pass.is_halted());
}

#[test]
fn transient_failure_stops_the_source() {
    let mut pass = SourcePass::new(3);
    assert_eq!(pass.record(1, Delivery::Delivered), PassAction::Continue);
    assert_eq!(pass.record(2, Delivery::Failed { attempts: 3 }), PassAction::Halt);
    assert!(pass.is_halted());
    // The third event is not dispatched in this pass.
    assert_eq!(pass.next_event(), None);
    assert_eq!(pass.delivered(), &vec![1]);
    assert!(pass.dead_lettered().is_empty());
}

#[test]
fn poisoned_event_is_dead_lettered_and_the_queue_moves_on() {
    let mut pass = SourcePass::new(4);
    assert_eq!(
        pass.record(1, Delivery::Failed { attempts: MAX_DISPATCH_ATTEMPTS }),
        PassAction::DeadLetter
    );
    assert_eq!(pass.record(2, Delivery::Delivered), PassAction::Continue);
    assert_eq!(pass.record(3, Delivery::Failed { attempts: MAX_DISPATCH_ATTEMPTS - 1 }), PassAction::Halt);
    assert_eq!(pass.next_event(), None);
    assert_eq!(pass.dead_lettered(), &vec![1]);
    assert_eq!(pass.delivered(), &vec![2]);
    assert_eq!(pass.delivered_count(), 1);
}

#[test]
fn relay_loop_pauses() {
    assert_eq!(pause_after_tick(Some(0)), RelayPause::Sleep);
    assert_eq!(pause_after_tick(Some(5)), RelayPause::Yield);
    assert_eq!(pause_after_tick(None), RelayPause::Sleep);
}

#[test]
fn dispatch_error_text_and_default_consumer() {
    assert_eq!(DispatchError("timeout".to_string()).message(), "dispatch error: timeout");
    let ev = DomainEvent {
        id: 1,
        aggregate: "product".to_string(),
        aggregate_id: "p1".to_string(),
        event_type: "E".to_string(),
        payload: "{}".to_string(),
        created_at: 0,
    };
    assert!(LoggingDispatcher.dispatch("product", &ev).is_ok());
}

#[test]
fn new_event_and_clock() {
    let ev = NewEvent::new("product", "p1", "ProductPublished", "{\"x\":1}".to_string());
    assert_eq!(ev.aggregate, "product");
    assert_eq!(ev.aggregate_id, "p1");
    assert_eq!(ev.event_type, "ProductPublished");
    assert_eq!(ev.payload, "{\"x\":1}");
    assert!(now_ms() > 1_600_000_000_000);
}

#[test]
fn empty_source_dispatches_nothing() {
    let pass = SourcePass::new(0);
    assert_eq!(pass.next_event(), None);
    assert_eq!(pass.delivered_count(), 0);
}
