//! Host-side dispatch logic for OpenCL geometry kernels.
//!
//! The crate covers the pure core of a compute-dispatch layer: the uniform
//! error model, generation of kernel source from the closed set of kernel
//! templates, the device-enumeration snapshot with its positional indexing,
//! planning of kernel executions, reshaping of point data into triangles,
//! and the status codes of the C-compatible boundary.

pub mod compile;
pub mod context;
pub mod decimal;
pub mod errors;
pub mod ffi;
pub mod mesh;
