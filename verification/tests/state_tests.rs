//! Tests for signals, derived values and the store.

use std::sync::atomic::AtomicBool;
use std::sync::atomic::AtomicU64;
use std::sync::atomic::Ordering;
use std::sync::Arc;

use rsdrav::state::Derived;
use rsdrav::state::Signal;
use rsdrav::state::Store;

#[test]
fn test_signal_basics() {
    let sig = Signal::new(42);
    assert_eq!(sig.get(), 42);

    sig.set(100);
    assert_eq!(sig.get(), 100);
}

#[test]
fn test_signal_update() {
    let sig = Signal::new(0);
    sig.update(|val: i32| val + 10);
    assert_eq!(sig.get(), 10);

    sig.update(|val: i32| val * 2);
    assert_eq!(sig.get(), 20);
}

#[test]
fn test_signal_subscription() {
    let sig = Signal::new(0);
    let notified = Arc::new(AtomicBool::new(false));

    let n = notified.clone();
    let _sub = sig.subscribe(move |val: &i32| {
        if *val == 42 {
            n.store(true, Ordering::SeqCst);
        }
    });

    sig.set(42);
    assert!(notified.load(Ordering::SeqCst));
}

#[test]
fn test_subscription_cleanup() {
    let sig = Signal::new(0);

    {
        let _sub = sig.subscribe(|_: &i32| {});
    }

    sig.set(1);
    sig.set(2);
}

#[test]
fn test_multiple_subscribers() {
    let sig = Signal::new(0);
    let count1 = Arc::new(AtomicU64::new(0));
    let count2 = Arc::new(AtomicU64::new(0));

    let c1 = count1.clone();
    let _sub1 = sig.subscribe(move |_: &i32| {
        c1.fetch_add(1, Ordering::SeqCst);
    });

    let c2 = count2.clone();
    let _sub2 = sig.subscribe(move |_: &i32| {
        c2.fetch_add(1, Ordering::SeqCst);
    });

    sig.set(1);
    sig.set(2);

    assert_eq!(count1.load(Ordering::SeqCst), 2);
    assert_eq!(count2.load(Ordering::SeqCst), 2);
}

#[test]
fn test_signal_version() {
    let sig = Signal::new(0);
    let v1 = sig.version();

    sig.set(1);
    let v2 = sig.version();
    assert!(v2 > v1);

    sig.update(|val: i32| val + 1);
    let v3 = sig.version();
    assert!(v3 > v2);
}

#[test]
fn dropped_subscriber_is_never_invoked_again() {
    let sig = Signal::new(0);
    let count = Arc::new(AtomicU64::new(0));

    let c = count.clone();
    let sub = sig.subscribe(move |_: &i32| {
        c.fetch_add(1, Ordering::SeqCst);
    });

    sig.set(1);
    assert_eq!(count.load(Ordering::SeqCst), 1);

    drop(sub);
    sig.set(2);
    sig.set(3);
    assert_eq!(count.load(Ordering::SeqCst), 1);
}

#[test]
fn version_advances_once_per_mutation() {
    let sig = Signal::new(7u8);
    assert_eq!(sig.version(), 0);
    sig.set(8);
    assert_eq!(sig.version(), 1);
    sig.set(9);
    assert_eq!(sig.version(), 2);
    sig.update(|v: u8| v);
    assert_eq!(sig.version(), 3);
}

#[test]
fn clones_share_one_cell() {
    let a = Signal::new(5);
    let b = a.clone();
    b.set(11);
    assert_eq!(a.get(), 11);
    assert_eq!(a.version(), b.version());
}

#[test]
fn test_derived_basic() {
    let a = Signal::new(2);
    let b = Signal::new(3);

    let sum = {
        let a = a.clone();
        let b = b.clone();
        Derived::new(move || a.get() + b.get())
    };

    assert_eq!(sum.get(), 5);

    a.set(10);
    sum.invalidate();
    assert_eq!(sum.get(), 13);

    b.set(7);
    sum.invalidate();
    assert_eq!(sum.get(), 17);
}

#[test]
fn test_derived_caching() {
    let compute_count = Arc::new(AtomicU64::new(0));

    let cc = compute_count.clone();
    let derived = Derived::new(move || {
        cc.fetch_add(1, Ordering::SeqCst);
        42
    });

    assert_eq!(derived.get(), 42);
    assert_eq!(compute_count.load(Ordering::SeqCst), 1);

    assert_eq!(derived.get(), 42);
    assert_eq!(derived.get(), 42);
    assert_eq!(compute_count.load(Ordering::SeqCst), 1);

    derived.invalidate();
    assert_eq!(derived.get(), 42);
    assert_eq!(compute_count.load(Ordering::SeqCst), 2);
}

#[test]
fn test_derived_chain() {
    let x = Signal::new(5);

    let doubled = {
        let x = x.clone();
        Derived::new(move || x.get() * 2)
    };

    let squared = {
        let doubled = doubled.clone();
        Derived::new(move || {
            let val = doubled.get();
            val * val
        })
    };

    assert_eq!(squared.get(), 100);

    x.set(3);
    doubled.invalidate();
    squared.invalidate();
    assert_eq!(squared.get(), 36);
}

#[test]
fn derived_from_two_sources() {
    // a derived over sources (2, 3) computes 5 once, serves the cache, and
    // recomputes only after an invalidate
    let a = Signal::new(2);
    let b = Signal::new(3);
    let calls = Arc::new(AtomicU64::new(0));

    let sum = {
        let a = a.clone();
        let b = b.clone();
        let c = calls.clone();
        Derived::new(move || {
            c.fetch_add(1, Ordering::SeqCst);
            a.get() + b.get()
        })
    };

    assert_eq!(sum.get(), 5);
    assert_eq!(calls.load(Ordering::SeqCst), 1);

    assert_eq!(sum.get(), 5);
    assert_eq!(calls.load(Ordering::SeqCst), 1);

    sum.invalidate();
    assert_eq!(sum.get(), 5);
    assert_eq!(calls.load(Ordering::SeqCst), 2);

    a.set(10);
    sum.invalidate();
    assert_eq!(sum.get(), 13);
    assert_eq!(calls.load(Ordering::SeqCst), 3);
}

#[test]
fn test_store_basic() {
    let store = Store::new();

    let sig = store.get_or_create("count", 0);
    assert_eq!(sig.get(), 0);

    sig.set(42);

    let sig2 = store.get_or_create("count", 999);
    assert_eq!(sig2.get(), 42);
}

#[test]
fn test_store_set() {
    let store = Store::new();

    store.set("name", "Alice".to_string());

    let sig: Signal<String> = store.get("name").unwrap();
    assert_eq!(sig.get(), "Alice");
}

#[test]
fn test_store_get_nonexistent() {
    let store = Store::new();
    let sig: Option<Signal<i32>> = store.get("nope");
    assert!(sig.is_none());
}

#[test]
#[should_panic(expected = "wrong type")]
fn test_store_type_mismatch() {
    let store = Store::new();

    store.set("value", 42_i32);

    let _: Signal<String> = store.get_or_create("value", "nope".to_string());
}

#[test]
fn test_store_contains_remove() {
    let store = Store::new();

    assert!(!store.contains("test"));

    store.set("test", 123);
    assert!(store.contains("test"));

    store.remove("test");
    assert!(!store.contains("test"));
}

#[test]
fn test_store_clear() {
    let store = Store::new();

    store.set("a", 1);
    store.set("b", 2);
    store.set("c", 3);

    assert!(store.contains("a"));
    assert!(store.contains("b"));

    store.clear();

    assert!(!store.contains("a"));
    assert!(!store.contains("b"));
    assert!(!store.contains("c"));
}
