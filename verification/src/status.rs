//! The status-code protocol: the closed set of integers that operations with
//! a status channel report.

use vstd::prelude::*;

verus! {

/// The operation did what was asked.
pub const BLS_SUCCESS: i32 = 0;

/// A required handle or pointer was null.
pub const BLS_ERROR_INVALID_INPUT: i32 = -1;

/// The signature check was carried out and the signature was rejected.
pub const BLS_ERROR_SIGNATURE_VERIFICATION_FAILED: i32 = -2;

/// Memory could not be acquired. Reserved: no operation reports it yet.
pub const BLS_ERROR_MEMORY_ALLOCATION_FAILED: i32 = -3;

/// Memory could not be released. Reserved: no operation reports it yet.
pub const BLS_ERROR_MEMORY_DEALLOCATION_FAILED: i32 = -4;

/// The status that stands for a verdict of the pairing check.
pub open spec fn status_of_verdict(valid: bool) -> i32 {
    if valid {
        BLS_SUCCESS
    } else {
        BLS_ERROR_SIGNATURE_VERIFICATION_FAILED
    }
}

/// Turns the verdict of the pairing check into the status that a
/// verification reports.
pub fn verification_status(valid: bool) -> (status: i32)
    ensures
        status == status_of_verdict(valid),
        status == BLS_SUCCESS <==> valid,
        status == BLS_ERROR_SIGNATURE_VERIFICATION_FAILED <==> !valid,
        status != BLS_ERROR_INVALID_INPUT,
{
    if valid {
        BLS_SUCCESS
    } else {
        BLS_ERROR_SIGNATURE_VERIFICATION_FAILED
    }
}

/// A verdict is reported as success exactly when the signature was accepted
/// and as a verification failure exactly when it was rejected; it is never
/// reported as invalid input, so a rejected signature cannot be mistaken for
/// a malformed call.
pub proof fn lemma_verdict_is_never_invalid_input(valid: bool)
    ensures
        status_of_verdict(valid) == BLS_SUCCESS <==> valid,
        status_of_verdict(valid) == BLS_ERROR_SIGNATURE_VERIFICATION_FAILED <==> !valid,
        status_of_verdict(valid) != BLS_ERROR_INVALID_INPUT,
        status_of_verdict(valid) != BLS_ERROR_MEMORY_ALLOCATION_FAILED,
        status_of_verdict(valid) != BLS_ERROR_MEMORY_DEALLOCATION_FAILED,
{
}

} // verus!
