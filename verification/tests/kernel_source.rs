//! Kernel source generation: the closed set, the generated text, and the
//! rejection of unknown names.

use clgeom::compile::{get_source, kernel_for_name, kernel_source, Kernel};

#[test]
fn get_translate() {
    let name = "translate";
    let expected = "__kernel void translate(__global float4 *A, const float4 B) {\n    int i = get_global_id(0);\n    A[i] += B;\n}";
    assert_eq!(get_source(name).unwrap(), expected);
}

#[test]
fn get_scale() {
    let expected = "__kernel void scale(__global float4 *A, const float4 B) {\n    int i = get_global_id(0);\n    A[i] *= B;\n}";
    assert_eq!(get_source("scale").unwrap(), expected);
}

#[test]
fn get_add() {
    let expected = "__kernel void add(__global float4 *A, __global const float4 *B) {\n    int i = get_global_id(0);\n    A[i] += B[i];\n}";
    assert_eq!(get_source("add").unwrap(), expected);
}

#[test]
fn get_sub() {
    let expected = "__kernel void sub(__global float4 *A, __global const float4 *B) {\n    int i = get_global_id(0);\n    A[i] -= B[i];\n}";
    assert_eq!(get_source("sub").unwrap(), expected);
}

#[test]
fn get_mul() {
    let expected = "__kernel void mul(__global float4 *A, __global const float4 *B) {\n    int i = get_global_id(0);\n    A[i] *= B[i];\n}";
    assert_eq!(get_source("mul").unwrap(), expected);
}

#[test]
fn get_div() {
    let expected = "__kernel void div(__global float4 *A, __global const float4 *B) {\n    int i = get_global_id(0);\n    A[i] /= B[i];\n}";
    assert_eq!(get_source("div").unwrap(), expected);
}

#[test]
fn generation_is_deterministic() {
    let first = get_source("add").unwrap();
    let second = get_source("add").unwrap();
    assert_eq!(first, second);
    let direct = kernel_source(Kernel::Add);
    assert_eq!(first, direct);
}

#[test]
fn unknown_name_is_rejected() {
    let err = get_source("frobnicate").unwrap_err();
    assert_eq!(err.message, "Unknown function: frobnicate");
    assert!(err.message.contains("frobnicate"));
    assert!(err.cause.is_none());
}

#[test]
fn lookup_covers_the_closed_set() {
    assert_eq!(kernel_for_name("add"), Some(Kernel::Add));
    assert_eq!(kernel_for_name("sub"), Some(Kernel::Sub));
    assert_eq!(kernel_for_name("mul"), Some(Kernel::Mul));
    assert_eq!(kernel_for_name("div"), Some(Kernel::Div));
    assert_eq!(kernel_for_name("translate"), Some(Kernel::Translate));
    assert_eq!(kernel_for_name("scale"), Some(Kernel::Scale));
    assert_eq!(kernel_for_name("ADD"), None);
    assert_eq!(kernel_for_name(""), None);
}

#[test]
fn every_source_carries_its_tokens() {
    let cases = [
        ("add", "+="),
        ("sub", "-="),
        ("mul", "*="),
        ("div", "/="),
        ("translate", "+="),
        ("scale", "*="),
    ];
    for (name, op) in cases {
        let src = get_source(name).unwrap();
        assert!(src.contains(name));
        assert!(src.contains(op));
        assert_eq!(src.matches("float4").count(), 2);
    }
}
