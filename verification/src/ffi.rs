//! Status codes of the C-compatible boundary.
//!
//! Every entry point of the foreign-function layer writes a numeric status
//! into a caller-supplied slot instead of raising anything across the
//! boundary: zero reports success, a non-zero value reports failure.

use vstd::prelude::*;

verus! {

/// Status written for an operation that succeeded.
pub const FFI_STATUS_OK: u32 = 0;

/// Status written for an operation that failed.
pub const FFI_STATUS_ERROR: u32 = 999;

/// The status code the boundary reports for an operation's outcome: zero on
/// success, the generic failure code otherwise.
pub fn ffi_status_code(success: bool) -> (code: u32)
    ensures
        success <==> code == FFI_STATUS_OK,
        !success ==> code == FFI_STATUS_ERROR,
{
    if success {
        FFI_STATUS_OK
    } else {
        FFI_STATUS_ERROR
    }
}

} // verus!
