//! The shared store: a process-local map from string keys to type-erased
//! signals.
//!
//! Values are signals erased behind `Any`.  Asking for a key under a
//! different element type than it was bound with is a programmer error and
//! fails fast with a diagnostic naming the key.

use std::sync::Arc;
use vstd::prelude::*;
use vstd::rwlock::RwLock;

use crate::state::signal::Signal;
use crate::sync::arc_clone;

verus! {

/// A signal with its element type erased; opaque to verification.
#[verifier::external_body]
pub struct AnySignal {
    inner: Arc<dyn std::any::Any + Send + Sync>,
}

/// Relies on `Arc::new`: wraps a signal for type-erased storage.
#[verifier::external_body]
fn any_erase<T: Clone + Send + Sync + 'static>(sig: Signal<T>) -> AnySignal {
    AnySignal { inner: Arc::new(sig) }
}

/// Relies on `Any::downcast_ref`: a reference to the stored signal when the
/// requested element type matches the one the key was bound with, and
/// nothing otherwise.
#[verifier::external_body]
fn any_downcast_ref<'a, T: Clone + Send + Sync + 'static>(a: &'a AnySignal) -> Option<
    &'a Signal<T>,
> {
    a.inner.downcast_ref::<Signal<T>>()
}

/// Relies on `Result::unwrap` to fail fast with a panic: binding a store
/// key to one element type and reading it at another is a programmer
/// error, and the diagnostic names the key.  Deliberately diverging: this
/// call panics on every input and never actually returns a `T`, so its
/// (empty) contract holds vacuously; each caller returns the value
/// immediately, so no verified code runs after it.  The mismatch cannot
/// be ruled out by a precondition, because the element type is erased.
#[verifier::external_body]
fn fail_type_mismatch<T>(key: &str) -> T {
    let msg = format!("Store key '{}' exists but has wrong type", key);
    Err::<T, String>(msg).unwrap()
}

/// Relies on `Vec::push`: appends the entry at the end.  The standard push
/// specification does not instantiate at this opaque element type, so the
/// facts callers need are restated here.
#[verifier::external_body]
fn push_entry(v: &mut Vec<(String, AnySignal)>, e: (String, AnySignal))
    ensures
        final(v)@.len() == old(v)@.len() + 1,
        forall|k: int| 0 <= k < old(v)@.len() ==> final(v)@[k] == old(v)@[k],
        final(v)@[old(v)@.len() as int].0 == e.0,
        final(v)@[old(v)@.len() as int].0@ == e.0@,
{
    v.push(e);
}

/// Whether some entry carries the key.
pub open spec fn table_has_key(t: Seq<(String, AnySignal)>, key: Seq<char>) -> bool {
    exists|i: int| 0 <= i < t.len() && t[i].0@ == key
}

/// Each key is bound at most once; the lock's invariant, which every
/// writer re-establishes before releasing the table.
pub open spec fn table_keys_unique(t: Vec<(String, AnySignal)>) -> bool {
    forall|i: int, j: int| 0 <= i < j < t@.len() ==> t@[i].0@ != t@[j].0@
}

/// A shared, type-erased map from string keys to signals.
pub struct Store {
    table: Arc<
        RwLock<Vec<(String, AnySignal)>, spec_fn(Vec<(String, AnySignal)>) -> bool>,
    >,
}

impl Store {
    #[verifier::type_invariant]
    spec fn wf(self) -> bool {
        forall|t: Vec<(String, AnySignal)>| (*self.table).inv(t) <==> table_keys_unique(t)
    }

    /// A fresh, empty store.
    pub fn new() -> Store {
        let table = RwLock::new(
            Vec::<(String, AnySignal)>::new(),
            Ghost(|t: Vec<(String, AnySignal)>| table_keys_unique(t)),
        );
        Store { table: Arc::new(table) }
    }

    /// The signal bound to `key`, created with `default_val` when the key
    /// is new.  A key bound to a different element type is a programmer
    /// error: the process fails fast with a diagnostic naming the key.
    #[verifier::loop_isolation(false)]
    pub fn get_or_create<T: Clone + Send + Sync + 'static>(&self, key: &str, default_val: T) -> Signal<T> {
        proof {
            use_type_invariant(self);
        }
        let (mut table, wh) = self.table.acquire_write();
        let mut i: usize = 0;
        let n = table.len();
        while i < n
            invariant
                0 <= i <= n,
                n == table@.len(),
                table_keys_unique(table),
                forall|k: int| 0 <= k < i ==> table@[k].0@ != key@,
            decreases n - i,
        {
            if str_equal(table[i].0.as_str(), key) {
                match any_downcast_ref::<T>(&table[i].1) {
                    Some(sig) => {
                        let out = sig.clone();
                        wh.release_write(table);
                        return out;
                    },
                    None => {
                        wh.release_write(table);
                        return fail_type_mismatch(key);
                    },
                }
            }
            i = i + 1;
        }
        let sig = Signal::new(default_val);
        let out = sig.clone();
        let ghost pre = table@;
        push_entry(&mut table, (key.to_owned(), any_erase(sig)));
        proof {
            assert(table@[table@.len() - 1].0@ == key@);
            assert forall|a: int, b: int|
                0 <= a < b < table@.len() implies table@[a].0@ != table@[b].0@ by {
                if b == table@.len() - 1 {
                    assert(table@[a].0 == pre[a].0);
                    assert(pre[a].0@ != key@);
                }
            }
            assert(table_keys_unique(table));
        }
        wh.release_write(table);
        out
    }

    /// The signal bound to `key` at the requested element type, or nothing
    /// when the key is unbound or bound at another type.
    #[verifier::loop_isolation(false)]
    pub fn get<T: Clone + Send + Sync + 'static>(&self, key: &str) -> Option<Signal<T>> {
        proof {
            use_type_invariant(self);
        }
        let h = self.table.acquire_read();
        let table = h.borrow();
        let mut i: usize = 0;
        let n = table.len();
        while i < n
            invariant
                0 <= i <= n,
                n == table@.len(),
            decreases n - i,
        {
            if str_equal(table[i].0.as_str(), key) {
                let r = match any_downcast_ref::<T>(&table[i].1) {
                    Some(sig) => Some(sig.clone()),
                    None => None,
                };
                h.release_read();
                return r;
            }
            i = i + 1;
        }
        h.release_read();
        None
    }

    /// Bind `key` to `value`: the keyed signal is created when absent, then
    /// set, notifying its subscribers.
    pub fn set<T: Clone + Send + Sync + 'static>(&self, key: &str, value: T) {
        let sig = self.get_or_create(key, value.clone());
        sig.set(value);
    }

    /// Whether the key is bound.
    #[verifier::loop_isolation(false)]
    pub fn contains(&self, key: &str) -> bool {
        proof {
            use_type_invariant(self);
        }
        let h = self.table.acquire_read();
        let n = h.borrow().len();
        let mut i: usize = 0;
        while i < n
            invariant
                0 <= i <= n,
                n == h@.len(),
            decreases n - i,
        {
            if str_equal(h.borrow()[i].0.as_str(), key) {
                h.release_read();
                return true;
            }
            i = i + 1;
        }
        h.release_read();
        false
    }

    /// Unbind the key; reports whether it was bound.
    #[verifier::loop_isolation(false)]
    pub fn remove(&self, key: &str) -> bool {
        proof {
            use_type_invariant(self);
        }
        let (mut table, wh) = self.table.acquire_write();
        let mut i: usize = 0;
        while i < table.len()
            invariant
                0 <= i <= table@.len(),
                table_keys_unique(table),
            decreases table@.len() - i,
        {
            if str_equal(table[i].0.as_str(), key) {
                let ghost pre = table@;
                let entry = table.remove(i);
                proof {
                    assert forall|a: int, b: int|
                        0 <= a < b < table@.len() implies table@[a].0@ != table@[b].0@ by {
                        assert(table@ == pre.remove(i as int));
                        let pa = if a < i {
                            a
                        } else {
                            a + 1
                        };
                        let pb = if b < i {
                            b
                        } else {
                            b + 1
                        };
                        assert(table@[a].0 == pre[pa].0);
                        assert(table@[b].0 == pre[pb].0);
                    }
                    assert(table_keys_unique(table));
                }
                wh.release_write(table);
                return true;
            }
            i = i + 1;
        }
        wh.release_write(table);
        false
    }

    /// Unbind every key.
    pub fn clear(&self) {
        proof {
            use_type_invariant(self);
        }
        let (table, wh) = self.table.acquire_write();
        let empty: Vec<(String, AnySignal)> = Vec::new();
        proof {
            assert(table_keys_unique(empty));
        }
        wh.release_write(empty);
    }
}

impl Clone for Store {
    /// Another handle to the same table.
    fn clone(&self) -> Store {
        proof {
            use_type_invariant(self);
        }
        Store { table: arc_clone(&self.table) }
    }
}

impl Default for Store {
    fn default() -> Store {
        Store::new()
    }
}

/// String equality by characters.
pub fn str_equal(a: &str, b: &str) -> (r: bool)
    ensures
        r == (a@ == b@),
{
    let sa = a.to_owned();
    let sb = b.to_owned();
    sa == sb
}

} // verus!
