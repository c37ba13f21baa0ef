//! Tests for the focus manager.

use rsdrav::focus::ComponentId;
use rsdrav::focus::FocusManager;

#[test]
fn test_focus_manager_creation() {
    let mgr = FocusManager::new();
    assert_eq!(mgr.current(), None);
    assert_eq!(mgr.count(), 0);
}

#[test]
fn test_register_component() {
    let mut mgr = FocusManager::new();
    let id = ComponentId::new(1);

    mgr.register(id, 0, true);
    assert_eq!(mgr.count(), 1);
    assert_eq!(mgr.current(), Some(id));
}

#[test]
fn test_focus_next() {
    let mut mgr = FocusManager::new();
    let id1 = ComponentId::new(1);
    let id2 = ComponentId::new(2);
    let id3 = ComponentId::new(3);

    mgr.register(id1, 0, true);
    mgr.register(id2, 1, true);
    mgr.register(id3, 2, true);

    assert_eq!(mgr.current(), Some(id1));

    mgr.focus_next();
    assert_eq!(mgr.current(), Some(id2));

    mgr.focus_next();
    assert_eq!(mgr.current(), Some(id3));

    mgr.focus_next();
    assert_eq!(mgr.current(), Some(id1));
}

#[test]
fn test_focus_prev() {
    let mut mgr = FocusManager::new();
    let id1 = ComponentId::new(1);
    let id2 = ComponentId::new(2);
    let id3 = ComponentId::new(3);

    mgr.register(id1, 0, true);
    mgr.register(id2, 1, true);
    mgr.register(id3, 2, true);

    assert_eq!(mgr.current(), Some(id1));

    mgr.focus_prev();
    assert_eq!(mgr.current(), Some(id3));

    mgr.focus_prev();
    assert_eq!(mgr.current(), Some(id2));

    mgr.focus_prev();
    assert_eq!(mgr.current(), Some(id1));
}

#[test]
fn test_skip_non_focusable() {
    let mut mgr = FocusManager::new();
    let id1 = ComponentId::new(1);
    let id2 = ComponentId::new(2);
    let id3 = ComponentId::new(3);

    mgr.register(id1, 0, true);
    mgr.register(id2, 1, false);
    mgr.register(id3, 2, true);

    assert_eq!(mgr.current(), Some(id1));

    mgr.focus_next();
    assert_eq!(mgr.current(), Some(id3));

    mgr.focus_prev();
    assert_eq!(mgr.current(), Some(id1));
}

#[test]
fn test_explicit_focus() {
    let mut mgr = FocusManager::new();
    let id1 = ComponentId::new(1);
    let id2 = ComponentId::new(2);

    mgr.register(id1, 0, true);
    mgr.register(id2, 1, true);

    assert!(mgr.focus(id2));
    assert_eq!(mgr.current(), Some(id2));
}

#[test]
fn test_unregister() {
    let mut mgr = FocusManager::new();
    let id1 = ComponentId::new(1);
    let id2 = ComponentId::new(2);

    mgr.register(id1, 0, true);
    mgr.register(id2, 1, true);

    mgr.focus(id1);
    mgr.unregister(id1);

    assert_eq!(mgr.count(), 1);
    assert_eq!(mgr.current(), Some(id2));
}

#[test]
fn test_is_focused() {
    let mut mgr = FocusManager::new();
    let id1 = ComponentId::new(1);
    let id2 = ComponentId::new(2);

    mgr.register(id1, 0, true);
    mgr.register(id2, 1, true);

    assert!(mgr.is_focused(id1));
    assert!(!mgr.is_focused(id2));

    mgr.focus_next();
    assert!(!mgr.is_focused(id1));
    assert!(mgr.is_focused(id2));
}

#[test]
fn test_tab_order_respected() {
    let mut mgr = FocusManager::new();
    let id1 = ComponentId::new(1);
    let id2 = ComponentId::new(2);
    let id3 = ComponentId::new(3);

    mgr.register(id3, 2, true);
    mgr.register(id1, 0, true);
    mgr.register(id2, 1, true);

    mgr.focus(id1);
    assert_eq!(mgr.current(), Some(id1));

    mgr.focus_next();
    assert_eq!(mgr.current(), Some(id2));
    mgr.focus_next();
    assert_eq!(mgr.current(), Some(id3));
}

#[test]
fn focus_test_clear() {
    let mut mgr = FocusManager::new();
    let id = ComponentId::new(1);

    mgr.register(id, 0, true);
    assert_eq!(mgr.current(), Some(id));

    mgr.clear();
    assert_eq!(mgr.current(), None);
    assert_eq!(mgr.count(), 1);
}

#[test]
fn test_new_id() {
    let mut mgr = FocusManager::new();

    let id1 = mgr.new_id();
    let id2 = mgr.new_id();
    let id3 = mgr.new_id();

    assert_ne!(id1, id2);
    assert_ne!(id2, id3);
    assert_ne!(id1, id3);
}

#[test]
fn focus_cycle_returns_after_focusable_count_steps() {
    // cycling through the focusable entries comes back to the start after
    // exactly as many steps as there are focusable entries
    let mut mgr = FocusManager::new();
    mgr.register(ComponentId::new(1), 0, true);
    mgr.register(ComponentId::new(2), 1, false);
    mgr.register(ComponentId::new(3), 2, true);
    mgr.register(ComponentId::new(4), 3, true);

    let start = mgr.current();
    assert_eq!(start, Some(ComponentId::new(1)));
    let k = mgr.focusable_count();
    assert_eq!(k, 3);
    for _ in 0..k {
        mgr.focus_next();
    }
    assert_eq!(mgr.current(), start);
}

#[test]
fn focus_on_non_focusable_fails() {
    let mut mgr = FocusManager::new();
    mgr.register(ComponentId::new(1), 0, false);
    assert!(!mgr.focus(ComponentId::new(1)));
    assert!(!mgr.focus(ComponentId::new(9)));
    assert_eq!(mgr.current(), None);
}

#[test]
fn reregistering_replaces_the_entry() {
    let mut mgr = FocusManager::new();
    let id = ComponentId::new(5);
    mgr.register(id, 0, true);
    mgr.register(id, 7, false);
    assert_eq!(mgr.count(), 1);
    assert!(!mgr.focus(id));
}

#[test]
fn clear_all_removes_registrations() {
    let mut mgr = FocusManager::new();
    mgr.register(ComponentId::new(1), 0, true);
    mgr.register(ComponentId::new(2), 1, true);
    mgr.clear_all();
    assert_eq!(mgr.count(), 0);
    assert_eq!(mgr.current(), None);
    assert_eq!(mgr.focusable_count(), 0);
}
