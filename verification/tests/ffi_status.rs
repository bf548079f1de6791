//! Status codes written at the C-compatible boundary.

use clgeom::ffi::{ffi_status_code, FFI_STATUS_ERROR, FFI_STATUS_OK};

#[test]
fn success_reports_zero() {
    assert_eq!(ffi_status_code(true), 0);
    assert_eq!(FFI_STATUS_OK, 0);
}

#[test]
fn failure_reports_the_generic_code() {
    assert_eq!(ffi_status_code(false), 999);
    assert_eq!(FFI_STATUS_ERROR, 999);
}
