//! Tests for event routing.

use rsdrav::event::Event;
use rsdrav::event::EventResult;
use rsdrav::event::KeyCode;
use rsdrav::event::KeyEvent;
use rsdrav::event::KeyModifiers;
use rsdrav::event_router::EventHandler;
use rsdrav::event_router::EventPhase;
use rsdrav::event_router::EventRouter;
use rsdrav::event_router::EventRoutingContext;
use std::sync::atomic::AtomicUsize;
use std::sync::atomic::Ordering;
use std::sync::Arc;

#[test]
fn test_event_router_creation() {
    let router = EventRouter::new();
    assert_eq!(router.next_id, 1);
}

#[test]
fn test_component_registration() {
    let mut router = EventRouter::new();

    let root = router.register(None);
    let child1 = router.register(Some(root));
    let child2 = router.register(Some(root));

    assert_eq!(root, 1);
    assert_eq!(child1, 2);
    assert_eq!(child2, 3);
}

#[test]
fn test_capture_phase() {
    let mut router = EventRouter::new();
    let root = router.register(None);
    let child = router.register(Some(root));

    router.add_handler(
        root,
        EventHandler::new(EventPhase::Capture, |_: &Event, _: &EventRoutingContext| {
            EventResult::Ignored
        }),
    );

    let event = Event::Key(KeyEvent {
        code: KeyCode::Char('a'),
        modifiers: KeyModifiers::empty(),
    });

    let result = router.route(&event, child);
    assert_eq!(result, EventResult::Ignored);
}

#[test]
fn test_stop_propagation() {
    let mut router = EventRouter::new();
    let root = router.register(None);
    let child = router.register(Some(root));

    router.add_handler(
        root,
        EventHandler::new(EventPhase::Capture, |_: &Event, _: &EventRoutingContext| {
            EventResult::Consumed
        }),
    );

    router.add_handler(
        child,
        EventHandler::new(EventPhase::Target, |_: &Event, _: &EventRoutingContext| {
            panic!("This handler should not be called!");
        }),
    );

    let event = Event::Key(KeyEvent {
        code: KeyCode::Char('a'),
        modifiers: KeyModifiers::empty(),
    });

    let result = router.route(&event, child);
    assert_eq!(result, EventResult::Consumed);
}

#[test]
fn test_bubble_phase() {
    let mut router = EventRouter::new();
    let root = router.register(None);
    let child = router.register(Some(root));

    router.add_handler(
        root,
        EventHandler::new(EventPhase::Bubble, |_: &Event, _: &EventRoutingContext| {
            EventResult::Handled
        }),
    );

    let event = Event::Key(KeyEvent {
        code: KeyCode::Char('a'),
        modifiers: KeyModifiers::empty(),
    });

    router.route(&event, child);
}

#[test]
fn handled_in_bubble_reports_handled() {
    // a handler that reports the event handled marks the default action
    // prevented, so the routed result is Handled
    let mut router = EventRouter::new();
    let root = router.register(None);
    let child = router.register(Some(root));

    router.add_handler(
        root,
        EventHandler::new(EventPhase::Bubble, |_: &Event, _: &EventRoutingContext| {
            EventResult::Handled
        }),
    );

    let event = Event::Key(KeyEvent {
        code: KeyCode::Char('x'),
        modifiers: KeyModifiers::empty(),
    });
    assert_eq!(router.route(&event, child), EventResult::Handled);
}

#[test]
fn capture_runs_before_target_and_bubble_after() {
    let mut router = EventRouter::new();
    let root = router.register(None);
    let child = router.register(Some(root));

    let log = Arc::new(AtomicUsize::new(0));

    // capture must run first: records 1 when the log is empty
    let l1 = log.clone();
    router.add_handler(
        root,
        EventHandler::new(
            EventPhase::Capture,
            move |_: &Event, _: &EventRoutingContext| {
                let _ = l1.compare_exchange(0, 1, Ordering::SeqCst, Ordering::SeqCst);
                EventResult::Ignored
            },
        ),
    );
    // target runs second: 1 becomes 2
    let l2 = log.clone();
    router.add_handler(
        child,
        EventHandler::new(
            EventPhase::Target,
            move |_: &Event, _: &EventRoutingContext| {
                let _ = l2.compare_exchange(1, 2, Ordering::SeqCst, Ordering::SeqCst);
                EventResult::Ignored
            },
        ),
    );
    // bubble runs last: 2 becomes 3
    let l3 = log.clone();
    router.add_handler(
        root,
        EventHandler::new(
            EventPhase::Bubble,
            move |_: &Event, _: &EventRoutingContext| {
                let _ = l3.compare_exchange(2, 3, Ordering::SeqCst, Ordering::SeqCst);
                EventResult::Ignored
            },
        ),
    );

    let event = Event::Key(KeyEvent {
        code: KeyCode::Char('a'),
        modifiers: KeyModifiers::empty(),
    });
    router.route(&event, child);
    assert_eq!(log.load(Ordering::SeqCst), 3);
}

#[test]
fn unregister_drops_handlers_and_links() {
    let mut router = EventRouter::new();
    let root = router.register(None);
    let child = router.register(Some(root));

    router.add_handler(
        child,
        EventHandler::new(EventPhase::Target, |_: &Event, _: &EventRoutingContext| {
            EventResult::Handled
        }),
    );
    router.unregister(child);

    let event = Event::Key(KeyEvent {
        code: KeyCode::Char('a'),
        modifiers: KeyModifiers::empty(),
    });
    assert_eq!(router.route(&event, child), EventResult::Ignored);
}

#[test]
fn handlers_elsewhere_leave_the_event_ignored() {
    // a handler on a sibling is not on the target's ancestry, so routing
    // to the target runs nothing
    let mut router = EventRouter::new();
    let root = router.register(None);
    let sibling = router.register(Some(root));
    let target = router.register(Some(root));

    router.add_handler(
        sibling,
        EventHandler::new(EventPhase::Target, |_: &Event, _: &EventRoutingContext| {
            EventResult::Consumed
        }),
    );

    let event = Event::Key(KeyEvent {
        code: KeyCode::Char('a'),
        modifiers: KeyModifiers::empty(),
    });
    assert_eq!(router.route(&event, target), EventResult::Ignored);
}
