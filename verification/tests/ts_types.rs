use wasm_utils::model::{FirstArg, ReturnModel, TypeShape};
use wasm_utils::ts_types::{async_return_to_ts, rust_type_to_ts, sync_return_to_ts};

fn path(name: &str) -> TypeShape {
    TypeShape::Path { last: Some(name.to_string()), angle: None }
}

fn generic(name: &str, inner: TypeShape) -> TypeShape {
    TypeShape::Path { last: Some(name.to_string()), angle: Some(FirstArg::Type(Box::new(inner))) }
}

#[test]
fn primitives_map() {
    assert_eq!(rust_type_to_ts(&TypeShape::Unit), "void");
    assert_eq!(rust_type_to_ts(&path("JsValue")), "any");
    assert_eq!(rust_type_to_ts(&path("bool")), "boolean");
    assert_eq!(rust_type_to_ts(&path("String")), "string");
    assert_eq!(rust_type_to_ts(&path("str")), "string");
    for n in ["u8", "u16", "u32", "i8", "i16", "i32", "f32", "f64", "usize", "isize"] {
        assert_eq!(rust_type_to_ts(&path(n)), "number", "{n}");
    }
    for n in ["u64", "i64", "u128", "i128"] {
        assert_eq!(rust_type_to_ts(&path(n)), "bigint", "{n}");
    }
}

#[test]
fn js_sys_types_map() {
    assert_eq!(rust_type_to_ts(&path("Uint8Array")), "Uint8Array");
    assert_eq!(rust_type_to_ts(&path("Float64Array")), "Float64Array");
    assert_eq!(rust_type_to_ts(&path("Array")), "Array<any>");
    assert_eq!(rust_type_to_ts(&path("Map")), "Map<any, any>");
    assert_eq!(rust_type_to_ts(&path("Set")), "Set<any>");
    assert_eq!(rust_type_to_ts(&path("Promise")), "Promise<any>");
    assert_eq!(rust_type_to_ts(&path("Object")), "object");
    assert_eq!(rust_type_to_ts(&path("Function")), "Function");
    assert_eq!(rust_type_to_ts(&path("MyStruct")), "MyStruct");
}

#[test]
fn wrappers_map() {
    assert_eq!(rust_type_to_ts(&generic("Option", path("String"))), "string | null");
    assert_eq!(rust_type_to_ts(&path("Option")), "any | null");
    assert_eq!(rust_type_to_ts(&generic("Result", path("Uint8Array"))), "Uint8Array");
    assert_eq!(rust_type_to_ts(&path("Result")), "any");
    assert_eq!(rust_type_to_ts(&generic("Vec", path("u8"))), "Array<number>");
    assert_eq!(rust_type_to_ts(&generic("Vec", path("String"))), "Array<string>");
    assert_eq!(rust_type_to_ts(&path("Vec")), "Array<any>");
    let missing = TypeShape::Path { last: Some("Vec".to_string()), angle: Some(FirstArg::Missing) };
    assert_eq!(rust_type_to_ts(&missing), "Array<any>");
    let lifetime = TypeShape::Path { last: Some("Option".to_string()), angle: Some(FirstArg::NotAType) };
    assert_eq!(rust_type_to_ts(&lifetime), "any | null");
    assert_eq!(rust_type_to_ts(&generic("Option", generic("Vec", generic("Option", path("bool"))))), "Array<boolean | null> | null");
}

#[test]
fn references_slices_and_others() {
    assert_eq!(rust_type_to_ts(&TypeShape::Reference(Box::new(path("str")))), "string");
    assert_eq!(rust_type_to_ts(&TypeShape::Slice(Box::new(path("u8")))), "Array<number>");
    assert_eq!(rust_type_to_ts(&TypeShape::Slice(Box::new(path("JsValue")))), "Array<any>");
    assert_eq!(rust_type_to_ts(&TypeShape::Other), "any");
    assert_eq!(rust_type_to_ts(&TypeShape::Path { last: None, angle: None }), "any");
}

#[test]
fn law_reference_and_vec_slice_agree() {
    for t in [path("u32"), path("String"), generic("Option", path("i64")), TypeShape::Unit] {
        let plain = rust_type_to_ts(&t);
        let by_ref = rust_type_to_ts(&TypeShape::Reference(Box::new(t.clone())));
        assert_eq!(plain, by_ref);
        let v = rust_type_to_ts(&generic("Vec", t.clone()));
        let s = rust_type_to_ts(&TypeShape::Slice(Box::new(t)));
        assert_eq!(v, s);
        assert_eq!(v, format!("Array<{plain}>"));
    }
}

#[test]
fn return_types() {
    assert_eq!(async_return_to_ts(&generic("Result", TypeShape::Unit)), "Promise<void>");
    assert_eq!(async_return_to_ts(&generic("Result", path("Uint8Array"))), "Promise<Uint8Array>");
    assert_eq!(sync_return_to_ts(&ReturnModel::Default), "void");
    assert_eq!(sync_return_to_ts(&ReturnModel::Type { text: "()".to_string(), shape: TypeShape::Unit }), "void");
    assert_eq!(sync_return_to_ts(&ReturnModel::Type { text: "u64".to_string(), shape: path("u64") }), "bigint");
}
