//! Shared handles.
use std::sync::Arc;
use vstd::prelude::*;

verus! {

/// Another handle to the value behind `handle`.
///
/// Calls `Arc::clone`, which returns a second pointer to the same allocation:
/// the value behind the copy is the value behind `handle`.
#[verifier::external_body]
pub(crate) fn share<T>(handle: &Arc<T>) -> (copy: Arc<T>)
    ensures
        copy == *handle,
{
    Arc::clone(handle)
}

} // verus!
