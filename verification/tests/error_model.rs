//! The uniform error value: construction, rendering, wrapping, and the
//! message composed for native device-API failures.

use clgeom::decimal::usize_to_string;
use clgeom::errors::{
    convert_std_error, ocl_error_message, rewrap_ocl_result, ClgeomError, ToClgeomError,
};

struct FakeNativeError {
    text: String,
}

impl ToClgeomError for FakeNativeError {
    fn to_clgeom_error(&self, op: &str) -> ClgeomError {
        ClgeomError::new(&ocl_error_message(op, None, None, &self.text))
    }
}

#[test]
fn new_error_carries_message_and_no_cause() {
    let e = ClgeomError::new("boom");
    assert_eq!(e.message, "boom");
    assert!(e.cause.is_none());
}

#[test]
fn display_string_without_cause_ends_with_newline() {
    let e = ClgeomError::new("boom");
    assert_eq!(e.display_string(), "boom\n");
}

#[test]
fn display_string_renders_the_cause_chain() {
    let inner = ClgeomError::new("inner");
    let outer = ClgeomError { message: String::from("outer"), cause: Some(Box::new(inner)) };
    assert_eq!(outer.display_string(), "outer\ncaused by\ninner\n");
}

#[test]
fn convert_std_error_wraps_the_cause() {
    let cause = ClgeomError::new("disk on fire");
    let err = convert_std_error::<u32>(cause, "reading data").unwrap_err();
    assert_eq!(err.message, "Error while reading data.");
    assert_eq!(err.cause.unwrap().message, "disk on fire");
}

#[test]
fn rewrap_passes_ok_through() {
    let r: Result<u32, FakeNativeError> = Ok(7);
    assert_eq!(rewrap_ocl_result(r, "creating buffer").unwrap(), 7);
}

#[test]
fn rewrap_converts_the_error() {
    let r: Result<u32, FakeNativeError> =
        Err(FakeNativeError { text: String::from("native detail") });
    let err = rewrap_ocl_result(r, "building OpenCL program").unwrap_err();
    assert_eq!(
        err.message,
        "OpenCL error while building OpenCL program.\nOpenCL status: [NONE]\nError message: \nCaused by: native detail\n"
    );
}

#[test]
fn ocl_message_without_status_or_cause() {
    assert_eq!(
        ocl_error_message("building OpenCL program", None, None, ""),
        "OpenCL error while building OpenCL program.\nOpenCL status: [NONE]\nError message: \nCaused by: \n"
    );
}

#[test]
fn ocl_message_with_status_and_cause() {
    assert_eq!(
        ocl_error_message("creating buffer", Some("-61"), Some("out of resources"), "alloc failed"),
        "OpenCL error while creating buffer.\nOpenCL status: -61\nError message: Caused by:\nout of resources\nCaused by: alloc failed\n"
    );
}

#[test]
fn decimal_rendering_matches_std() {
    assert_eq!(usize_to_string(0), "0");
    assert_eq!(usize_to_string(7), "7");
    assert_eq!(usize_to_string(42), "42");
    assert_eq!(usize_to_string(1009), "1009");
    assert_eq!(usize_to_string(usize::MAX), format!("{}", usize::MAX));
}
