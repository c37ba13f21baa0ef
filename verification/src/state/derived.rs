//! Lazily cached derived values.
//!
//! A derived value wraps a pure computation.  `get` serves the cached
//! result while the cache was written at the current dependency version;
//! `invalidate` bumps that version, so the next `get` recomputes once and
//! caches again.  Dependency tracking is explicit: callers invalidate after
//! mutating a source.

use std::sync::Arc;
use vstd::prelude::*;
use vstd::rwlock::RwLock;

use crate::sync::arc_clone;

verus! {

/// The cache and the dependency version, the state guarded by the lock.
pub struct DerivedState<T> {
    /// The last computed value and the dependency version it was computed
    /// at.
    pub cached: Option<(T, u64)>,
    /// Advanced by `invalidate`; the cache is fresh only at this version.
    pub deps_version: u64,
}

/// Whether the cache serves a `get` without recomputation.
pub open spec fn cache_hit<T>(st: DerivedState<T>) -> bool {
    match st.cached {
        Some(p) => p.1 == st.deps_version,
        None => false,
    }
}

/// The state after a miss recomputed `v`.
pub open spec fn after_recompute<T>(st: DerivedState<T>, v: T) -> DerivedState<T> {
    DerivedState { cached: Some((v, st.deps_version)), deps_version: st.deps_version }
}

/// The state after one `invalidate`.
pub open spec fn after_invalidate<T>(st: DerivedState<T>) -> DerivedState<T> {
    DerivedState {
        cached: st.cached,
        deps_version: if st.deps_version < u64::MAX {
            (st.deps_version + 1) as u64
        } else {
            0u64
        },
    }
}

/// Cache-hit law: between two successive `invalidate` calls the computation
/// runs at most once.  After one recomputation the cache is fresh, so every
/// further `get` before the next `invalidate` is a hit and does not run the
/// computation again.
pub proof fn lemma_cache_hit_after_recompute<T>(st: DerivedState<T>, v: T)
    ensures
        cache_hit(after_recompute(st, v)),
{
}

/// An `invalidate` makes the cache stale again, so the next `get` after it
/// recomputes exactly once.
pub proof fn lemma_invalidate_staleness<T>(st: DerivedState<T>)
    requires
        st.deps_version < u64::MAX,
        match st.cached {
            Some(p) => p.1 <= st.deps_version,
            None => true,
        },
    ensures
        !cache_hit(after_invalidate(st)),
{
}

/// A lazily cached computation shared across clones.
#[verifier::reject_recursive_types(T)]
pub struct Derived<T, F: Fn() -> T> {
    compute: Arc<F>,
    state: Arc<RwLock<DerivedState<T>, spec_fn(DerivedState<T>) -> bool>>,
}

impl<T, F: Fn() -> T> Derived<T, F> {
    #[verifier::type_invariant]
    spec fn wf(self) -> bool {
        (forall|s: DerivedState<T>| (*self.state).inv(s)) && (forall|i: ()|
            (*self.compute).requires(i))
    }
}

impl<T: Clone + Send + Sync + 'static, F: Fn() -> T> Derived<T, F> {
    /// Store the computation; nothing is evaluated yet.
    pub fn new(compute: F) -> Derived<T, F>
        requires
            forall|i: ()| compute.requires(i),
    {
        let state = RwLock::new(
            DerivedState { cached: None, deps_version: 0 },
            Ghost(|s: DerivedState<T>| true),
        );
        Derived { compute: Arc::new(compute), state: Arc::new(state) }
    }

    /// The current value: the cache when it is fresh at the current
    /// dependency version, otherwise one recomputation whose result is
    /// cached at that version and returned.
    pub fn get(&self) -> T {
        proof {
            use_type_invariant(self);
        }
        let (st, wh) = self.state.acquire_write();
        let deps_version = st.deps_version;
        match st.cached {
            Some(pair) => {
                if pair.1 == deps_version {
                    let out = pair.0.clone();
                    wh.release_write(DerivedState { cached: Some(pair), deps_version });
                    return out;
                }
                let v = (self.compute)();
                let next = DerivedState { cached: Some((v.clone(), deps_version)), deps_version };
                wh.release_write(next);
                v
            },
            None => {
                let v = (self.compute)();
                let next = DerivedState { cached: Some((v.clone(), deps_version)), deps_version };
                wh.release_write(next);
                v
            },
        }
    }

    /// Mark the dependencies changed: the cache goes stale and the next
    /// `get` recomputes.
    pub fn invalidate(&self) {
        proof {
            use_type_invariant(self);
        }
        let (st, wh) = self.state.acquire_write();
        let next = DerivedState {
            cached: st.cached,
            deps_version: if st.deps_version < u64::MAX {
                st.deps_version + 1
            } else {
                0
            },
        };
        wh.release_write(next);
    }
}

impl<T, F: Fn() -> T> Clone for Derived<T, F> {
    /// Another handle to the same cache and computation.
    fn clone(&self) -> Derived<T, F> {
        proof {
            use_type_invariant(self);
        }
        Derived { compute: arc_clone(&self.compute), state: arc_clone(&self.state) }
    }
}

} // verus!
