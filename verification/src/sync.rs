//! Shared-ownership helpers.

use std::sync::Arc;
use vstd::prelude::*;

verus! {

/// Relies on `Arc::clone`: the returned handle shares the same allocation,
/// so in specification terms it carries the same value.
#[verifier::external_body]
pub fn arc_clone<T: ?Sized>(v: &Arc<T>) -> (r: Arc<T>)
    ensures
        r == *v,
{
    Arc::clone(v)
}

} // verus!
