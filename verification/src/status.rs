//! Status codes reported by the native engine.

use vstd::prelude::*;

verus! {

/// The status with which the native engine reports a completed computation.
pub const SUCCESS: u32 = 0;

/// The status with which the native engine rejects a scalar parameter that
/// lies outside the range it declares for it.
pub const BAD_PARAM: u32 = 2;

/// Whether `status` reports a completed computation.
pub open spec fn succeeded(status: u32) -> bool {
    status == SUCCESS
}

/// Tells a completed computation from a failed one.
pub fn is_success(status: u32) -> (done: bool)
    ensures
        done == succeeded(status),
{
    status == SUCCESS
}

} // verus!
