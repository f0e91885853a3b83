//! Shared, reference-counted handles.

use vstd::prelude::*;

use std::sync::Arc;

verus! {

/// Relies on `Arc::clone`: the new handle points to the same value.
#[verifier::external_body]
pub(crate) fn share<T: ?Sized>(a: &Arc<T>) -> (r: Arc<T>)
    ensures
        r == *a,
{
    Arc::clone(a)
}

/// Relies on `Option::clone` over `Arc::clone`: an absent handle stays
/// absent, a present one is shared.
#[verifier::external_body]
pub(crate) fn share_opt<T: ?Sized>(a: &Option<Arc<T>>) -> (r: Option<Arc<T>>)
    ensures
        r == *a,
{
    a.clone()
}

} // verus!
