//! Buffers that a gesture and its worker thread both hold.

use std::sync::Arc;

use vstd::prelude::*;

verus! {

/// Another handle to the same value, by `std::sync::Arc`'s `clone`: the standard
/// library documents that it makes one more pointer to the same allocation, so
/// both handles give the same value.
#[verifier::external_body]
pub(crate) fn share<T>(handle: &Arc<T>) -> (r: Arc<T>)
    ensures
        r == *handle,
{
    Arc::clone(handle)
}

} // verus!
