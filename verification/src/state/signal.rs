//! The reactive cell: a shared, versioned value with weakly-held
//! subscribers.
//!
//! Every mutation writes the value, then advances the version counter, then
//! walks the subscriber list.  Subscribers are held by weak reference: a
//! subscription lives exactly as long as its handle, and dead entries are
//! reaped during the next notification walk.

use std::sync::Arc;
use vstd::prelude::*;
use vstd::rwlock::RwLock;

use crate::sync::arc_clone;

verus! {

/// The value and its version, the state guarded by the signal's lock.
pub struct SignalState<T> {
    pub value: T,
    pub version: u64,
}

/// One mutation: the value is replaced and the version advances by one,
/// wrapping only at the top of the counter's range.
pub open spec fn spec_signal_step<T>(st: SignalState<T>, v: T) -> SignalState<T> {
    SignalState {
        value: v,
        version: if st.version < u64::MAX {
            (st.version + 1) as u64
        } else {
            0u64
        },
    }
}

/// Version monotonicity: across two mutations in program order the version
/// strictly increases, as long as the counter stays below its wrap point.
/// A signal would have to be mutated 2^64 times before that point.
pub proof fn lemma_version_monotonic<T>(
    s0: SignalState<T>,
    s1: SignalState<T>,
    s2: SignalState<T>,
    v1: T,
    v2: T,
)
    requires
        s1 == spec_signal_step(s0, v1),
        s2 == spec_signal_step(s1, v2),
        s0.version + 2 <= u64::MAX,
    ensures
        s0.version < s1.version < s2.version,
{
}

/// A weak reference to one subscriber's callback; opaque to verification.
#[verifier::external_body]
#[verifier::reject_recursive_types(T)]
pub struct ListenerRef<T> {
    cb: std::sync::Weak<dyn Fn(&T) + Send + Sync>,
}

/// A subscription handle: it owns the callback, so the callback stays alive
/// exactly as long as the handle does.
#[verifier::external_body]
#[verifier::reject_recursive_types(T)]
pub struct Subscription<T> {
    cb: Arc<dyn Fn(&T) + Send + Sync>,
}

/// Relies on `Arc::new` and `Arc::downgrade`: the handle keeps the callback
/// alive, the listener only observes it weakly.
#[verifier::external_body]
fn listener_make<T, F: Fn(&T) + Send + Sync + 'static>(f: F) -> (r: (
    ListenerRef<T>,
    Subscription<T>,
))
{
    let strong: Arc<dyn Fn(&T) + Send + Sync> = Arc::new(f);
    let weak = Arc::downgrade(&strong);
    (ListenerRef { cb: weak }, Subscription { cb: strong })
}

/// Relies on `Weak::upgrade` and the subscriber's own callback: when the
/// subscription handle is still alive the callback runs exactly once with
/// the new value and `true` comes back; when the handle has been dropped
/// nothing runs and `false` comes back.
#[verifier::external_body]
fn listener_invoke<T>(l: &ListenerRef<T>, v: &T) -> bool {
    match l.cb.upgrade() {
        Some(f) => {
            f(v);
            true
        },
        None => false,
    }
}

/// The subscribers that survive a walk: exactly the entries whose liveness
/// flag is set.
pub open spec fn filter_alive<T>(s: Seq<ListenerRef<T>>, alive: Seq<bool>) -> Seq<ListenerRef<T>>
    decreases s.len(),
{
    if s.len() == 0 {
        Seq::empty()
    } else {
        let front = filter_alive(s.drop_last(), alive.drop_last());
        if alive.len() > 0 && alive.last() {
            front.push(s.last())
        } else {
            front
        }
    }
}

/// How many liveness flags are set.
pub open spec fn count_true(flags: Seq<bool>) -> int
    decreases flags.len(),
{
    if flags.len() == 0 {
        0
    } else {
        count_true(flags.drop_last()) + (if flags.last() {
            1int
        } else {
            0int
        })
    }
}

/// Notification count law: one walk polls each subscriber once — the flag
/// sequence carries exactly one flag per entry — and keeps exactly the
/// live ones, so the number of callback invocations in a walk equals the
/// number of entries found alive, one invocation per surviving
/// subscriber; a dropped subscriber contributes no flag that is set and
/// is never invoked again.
pub proof fn lemma_notify_counts<T>(s: Seq<ListenerRef<T>>, flags: Seq<bool>)
    requires
        s.len() == flags.len(),
    ensures
        filter_alive(s, flags).len() == count_true(flags),
    decreases s.len(),
{
    if s.len() > 0 {
        lemma_notify_counts(s.drop_last(), flags.drop_last());
    }
}

/// Walk the subscriber list for one mutation.  Every entry is polled
/// exactly once, in order — the returned flag sequence carries exactly one
/// flag per entry — so a surviving subscriber is invoked exactly once per
/// mutation, and a dead one is dropped without being invoked.
#[verifier::loop_isolation(false)]
pub fn notify_walk<T>(entries: Vec<ListenerRef<T>>, v: &T) -> (r: (
    Vec<ListenerRef<T>>,
    Ghost<Seq<bool>>,
))
    ensures
        r.1@.len() == entries@.len(),
        r.0@ == filter_alive(entries@, r.1@),
{
    let ghost all = entries@;
    let mut kept: Vec<ListenerRef<T>> = Vec::new();
    let ghost mut flags: Seq<bool> = Seq::empty();
    let mut rest = entries;
    proof {
        assert(all.skip(0) =~= all);
        assert(filter_alive(Seq::<ListenerRef<T>>::empty(), Seq::<bool>::empty())
            =~= Seq::<ListenerRef<T>>::empty());
        lemma_filter_alive_append(all, Seq::empty(), Seq::empty(), kept@);
    }
    while rest.len() > 0
        invariant
            flags.len() + rest@.len() == all.len(),
            all.skip(flags.len() as int) == rest@,
            kept@ == filter_alive(all.take(flags.len() as int), flags),
        decreases rest@.len(),
    {
        let ghost prefix = all.take(flags.len() as int);
        let ghost pre_flags = flags;
        let ghost pre_kept = kept@;
        let e = rest.remove(0);
        let alive = listener_invoke(&e, v);
        proof {
            assert(all.skip(pre_flags.len() as int)[0] == all[pre_flags.len() as int]);
        }
        if alive {
            kept.push(e);
        }
        proof {
            flags = pre_flags.push(alive);
            assert(all.take(flags.len() as int) =~= prefix.push(
                all[pre_flags.len() as int],
            ));
            lemma_filter_alive_push(prefix, pre_flags, all[pre_flags.len() as int], alive);
            if alive {
                assert(kept@ =~= pre_kept.push(all[pre_flags.len() as int]));
            }
            assert(all.skip(flags.len() as int) =~= rest@);
        }
    }
    proof {
        assert(all.take(flags.len() as int) =~= all);
    }
    (kept, Ghost(flags))
}

/// Filtering a sequence extended by one element appends the element exactly
/// when its flag is set.
proof fn lemma_filter_alive_push<T>(s: Seq<ListenerRef<T>>, flags: Seq<bool>, e: ListenerRef<T>, a: bool)
    requires
        s.len() == flags.len(),
    ensures
        a ==> filter_alive(s.push(e), flags.push(a)) == filter_alive(s, flags).push(e),
        !a ==> filter_alive(s.push(e), flags.push(a)) == filter_alive(s, flags),
{
    assert(s.push(e).drop_last() =~= s);
    assert(flags.push(a).drop_last() =~= flags);
    assert(s.push(e).last() == e);
    assert(flags.push(a).last() == a);
}

/// Base case helper: filtering nothing yields nothing.
proof fn lemma_filter_alive_append<T>(
    all: Seq<ListenerRef<T>>,
    s: Seq<ListenerRef<T>>,
    flags: Seq<bool>,
    kept: Seq<ListenerRef<T>>,
)
    requires
        s.len() == 0,
        flags.len() == 0,
        kept.len() == 0,
    ensures
        kept == filter_alive(s, flags),
{
    assert(filter_alive(s, flags) =~= Seq::<ListenerRef<T>>::empty());
    assert(kept =~= Seq::<ListenerRef<T>>::empty());
}

/// A reactive value: shared handles over one versioned cell and one
/// subscriber table.
#[verifier::reject_recursive_types(T)]
pub struct Signal<T> {
    cell: Arc<RwLock<SignalState<T>, spec_fn(SignalState<T>) -> bool>>,
    subs: Arc<RwLock<Vec<ListenerRef<T>>, spec_fn(Vec<ListenerRef<T>>) -> bool>>,
}

impl<T> Signal<T> {
    #[verifier::type_invariant]
    spec fn wf(self) -> bool {
        (forall|s: SignalState<T>| (*self.cell).inv(s)) && (forall|v: Vec<ListenerRef<T>>|
            (*self.subs).inv(v))
    }
}

impl<T: Clone + Send + Sync + 'static> Signal<T> {
    /// A fresh signal holding `initial` at version 0, with no subscribers.
    pub fn new(initial: T) -> Signal<T> {
        let cell = RwLock::new(
            SignalState { value: initial, version: 0 },
            Ghost(|s: SignalState<T>| true),
        );
        let subs = RwLock::new(
            Vec::<ListenerRef<T>>::new(),
            Ghost(|v: Vec<ListenerRef<T>>| true),
        );
        Signal { cell: Arc::new(cell), subs: Arc::new(subs) }
    }

    /// A clone of the current value.
    pub fn get(&self) -> T {
        proof {
            use_type_invariant(self);
        }
        let h = self.cell.acquire_read();
        let v = h.borrow().value.clone();
        h.release_read();
        v
    }

    /// Replace the value: the value is written, then the version advances,
    /// then every surviving subscriber is notified exactly once.
    pub fn set(&self, new_val: T) {
        proof {
            use_type_invariant(self);
        }
        let (st, wh) = self.cell.acquire_write();
        let next = SignalState {
            value: new_val.clone(),
            version: if st.version < u64::MAX {
                st.version + 1
            } else {
                0
            },
        };
        wh.release_write(next);
        self.notify(&new_val);
    }

    /// Apply `f` to the current value, then behave as `set`.
    pub fn update<F: FnOnce(T) -> T>(&self, f: F)
        requires
            forall|x: T| f.requires((x,)),
    {
        proof {
            use_type_invariant(self);
        }
        let (st, wh) = self.cell.acquire_write();
        let new_val = f(st.value);
        let next = SignalState {
            value: new_val.clone(),
            version: if st.version < u64::MAX {
                st.version + 1
            } else {
                0
            },
        };
        wh.release_write(next);
        self.notify(&new_val);
    }

    /// The current version; it advances with every mutation.
    pub fn version(&self) -> u64 {
        proof {
            use_type_invariant(self);
        }
        let h = self.cell.acquire_read();
        let v = h.borrow().version;
        h.release_read();
        v
    }

    /// Register a callback.  It is held weakly here and strongly by the
    /// returned handle: once the handle is dropped, the next notification
    /// walk reaps the entry and the callback is never run again.
    pub fn subscribe<F: Fn(&T) + Send + Sync + 'static>(&self, callback: F) -> Subscription<T> {
        proof {
            use_type_invariant(self);
        }
        let (listener, handle) = listener_make(callback);
        let (mut table, wh) = self.subs.acquire_write();
        push_listener(&mut table, listener);
        wh.release_write(table);
        handle
    }

    /// One notification walk over the subscriber table.
    fn notify(&self, v: &T) {
        proof {
            use_type_invariant(self);
        }
        let (table, wh) = self.subs.acquire_write();
        let (kept, _flags) = notify_walk(table, v);
        wh.release_write(kept);
    }
}

impl<T> Clone for Signal<T> {
    /// Another handle to the same cell and subscriber table.
    fn clone(&self) -> Signal<T> {
        proof {
            use_type_invariant(self);
        }
        Signal { cell: arc_clone(&self.cell), subs: arc_clone(&self.subs) }
    }
}

/// Relies on `Vec::push`: appends the element at the end.  The standard
/// push specification does not instantiate at this opaque element type, so
/// the length facts are restated here.
#[verifier::external_body]
fn push_listener<T>(v: &mut Vec<ListenerRef<T>>, l: ListenerRef<T>)
    ensures
        final(v)@.len() == old(v)@.len() + 1,
{
    v.push(l);
}

} // verus!
