//! Resources shared by the services: the tracing and metrics core and the
//! cache.
use std::sync::Arc;
use vstd::prelude::*;

verus! {

/// What every service of the application shares.
pub struct SharedResources<M, C> {
    pub tracing_metrics: Arc<M>,
    pub cache_store: Arc<C>,
}

/// `Arc::clone`: another handle on the same shared value.
#[verifier::external_body]
pub(crate) fn share<T>(a: &Arc<T>) -> (r: Arc<T>)
    ensures
        r == *a,
{
    Arc::clone(a)
}

} // verus!
