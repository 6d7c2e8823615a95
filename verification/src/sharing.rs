//! Shared ownership of immutable values.

use vstd::prelude::*;
use std::sync::Arc;

verus! {

/// `Arc::clone`: another handle to the same value. The value itself is not
/// copied, so the new handle stands for exactly what the old one does.
#[verifier::external_body]
pub(crate) fn share<T>(handle: &Arc<T>) -> (shared: Arc<T>)
    ensures
        shared == *handle,
{
    Arc::clone(handle)
}

} // verus!
