//! Shared handles.

use std::sync::Arc;
use vstd::prelude::*;

verus! {

/// `Arc::clone` makes another handle to the same allocation. A handle is as
/// its referent to the verifier, so the new handle equals the old one.
#[verifier::external_body]
pub(crate) fn share<T>(handle: &Arc<T>) -> (shared: Arc<T>)
    ensures
        shared == *handle,
{
    Arc::clone(handle)
}

} // verus!
