//! Specifications of standard-library functions that `vstd` leaves without one.
use std::sync::Arc;
use vstd::prelude::*;

verus! {

/// `str`'s equality compares the two strings character by character, so it
/// holds exactly when their views are equal.
pub assume_specification[ <str as PartialEq>::eq ](a: &str, b: &str) -> (r: bool)
    ensures
        r == (a@ == b@),
;

/// `Arc::clone`: another handle to the same value.
#[verifier::external_body]
pub(crate) fn share<T>(handle: &Arc<T>) -> (shared: Arc<T>)
    ensures
        shared == *handle,
{
    Arc::clone(handle)
}

} // verus!
