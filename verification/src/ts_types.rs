//! Mapping from Rust types to TypeScript types, for generated interfaces.
use vstd::prelude::*;
use crate::model::{FirstArg, ReturnModel, TypeShape};
use crate::strings::str_eq;

verus! {

/// The TypeScript name of a type whose last path segment is `name`, for the
/// names that map to a fixed TypeScript type.
pub open spec fn fixed_ts(name: Seq<char>) -> Option<Seq<char>> {
    if name == "JsValue"@ {
        Some("any"@)
    } else if name == "bool"@ {
        Some("boolean"@)
    } else if name == "String"@ || name == "str"@ {
        Some("string"@)
    } else if name == "u8"@ || name == "u16"@ || name == "u32"@ || name == "i8"@
        || name == "i16"@ || name == "i32"@ || name == "f32"@ || name == "f64"@
        || name == "usize"@ || name == "isize"@ {
        Some("number"@)
    } else if name == "u64"@ || name == "i64"@ || name == "u128"@ || name == "i128"@ {
        Some("bigint"@)
    } else if name == "Uint8Array"@ {
        Some("Uint8Array"@)
    } else if name == "Uint16Array"@ {
        Some("Uint16Array"@)
    } else if name == "Uint32Array"@ {
        Some("Uint32Array"@)
    } else if name == "Int8Array"@ {
        Some("Int8Array"@)
    } else if name == "Int16Array"@ {
        Some("Int16Array"@)
    } else if name == "Int32Array"@ {
        Some("Int32Array"@)
    } else if name == "Float32Array"@ {
        Some("Float32Array"@)
    } else if name == "Float64Array"@ {
        Some("Float64Array"@)
    } else if name == "Array"@ {
        Some("Array<any>"@)
    } else if name == "ArrayBuffer"@ {
        Some("ArrayBuffer"@)
    } else if name == "Function"@ {
        Some("Function"@)
    } else if name == "Map"@ {
        Some("Map<any, any>"@)
    } else if name == "Set"@ {
        Some("Set<any>"@)
    } else if name == "Promise"@ {
        Some("Promise<any>"@)
    } else if name == "Object"@ {
        Some("object"@)
    } else {
        None
    }
}

/// The TypeScript type for a Rust type.
///
/// `()` is `void`; `Option<T>` is `T | null`; `Result<T, E>` is `T`;
/// `Vec<T>` and `[T]` are `Array<T>`; `&T` is `T`; known primitive and
/// `js_sys` names map to their TypeScript counterparts; any other path type
/// keeps its last segment's name; everything else is `any`.
pub open spec fn ts_of(t: TypeShape) -> Seq<char>
    decreases t,
{
    match t {
        TypeShape::Unit => "void"@,
        TypeShape::Path { last, angle } => match last {
            None => "any"@,
            Some(name) => {
                if name@ == "Option"@ {
                    match angle {
                        Some(FirstArg::Type(inner)) => ts_of(*inner) + " | null"@,
                        _ => "any | null"@,
                    }
                } else if name@ == "Result"@ {
                    match angle {
                        Some(FirstArg::Type(ok)) => ts_of(*ok),
                        _ => "any"@,
                    }
                } else if name@ == "Vec"@ {
                    match angle {
                        Some(FirstArg::Type(inner)) => "Array<"@ + ts_of(*inner) + ">"@,
                        _ => "Array<any>"@,
                    }
                } else {
                    match fixed_ts(name@) {
                        Some(s) => s,
                        None => name@,
                    }
                }
            },
        },
        TypeShape::Reference(inner) => ts_of(*inner),
        TypeShape::Slice(inner) => "Array<"@ + ts_of(*inner) + ">"@,
        TypeShape::Other => "any"@,
    }
}

/// The TypeScript type of an `async` method's result: `Promise<T>`.
pub open spec fn async_ts_of(t: TypeShape) -> Seq<char> {
    "Promise<"@ + ts_of(t) + ">"@
}

/// The TypeScript type of a synchronous method's result.
pub open spec fn sync_ts_of(ret: ReturnModel) -> Seq<char> {
    match ret {
        ReturnModel::Default => "void"@,
        ReturnModel::Type { shape, .. } => ts_of(shape),
    }
}

fn fixed_ts_exec(name: &str) -> (r: Option<String>)
    ensures
        r is Some == fixed_ts(name@) is Some,
        r matches Some(s) ==> s@ == fixed_ts(name@)->0,
{
    if str_eq(name, "JsValue") {
        Some(String::from_str("any"))
    } else if str_eq(name, "bool") {
        Some(String::from_str("boolean"))
    } else if str_eq(name, "String") || str_eq(name, "str") {
        Some(String::from_str("string"))
    } else if str_eq(name, "u8") || str_eq(name, "u16") || str_eq(name, "u32") || str_eq(name, "i8")
        || str_eq(name, "i16") || str_eq(name, "i32") || str_eq(name, "f32") || str_eq(name, "f64")
        || str_eq(name, "usize") || str_eq(name, "isize") {
        Some(String::from_str("number"))
    } else if str_eq(name, "u64") || str_eq(name, "i64") || str_eq(name, "u128") || str_eq(name, "i128") {
        Some(String::from_str("bigint"))
    } else if str_eq(name, "Uint8Array") {
        Some(String::from_str("Uint8Array"))
    } else if str_eq(name, "Uint16Array") {
        Some(String::from_str("Uint16Array"))
    } else if str_eq(name, "Uint32Array") {
        Some(String::from_str("Uint32Array"))
    } else if str_eq(name, "Int8Array") {
        Some(String::from_str("Int8Array"))
    } else if str_eq(name, "Int16Array") {
        Some(String::from_str("Int16Array"))
    } else if str_eq(name, "Int32Array") {
        Some(String::from_str("Int32Array"))
    } else if str_eq(name, "Float32Array") {
        Some(String::from_str("Float32Array"))
    } else if str_eq(name, "Float64Array") {
        Some(String::from_str("Float64Array"))
    } else if str_eq(name, "Array") {
        Some(String::from_str("Array<any>"))
    } else if str_eq(name, "ArrayBuffer") {
        Some(String::from_str("ArrayBuffer"))
    } else if str_eq(name, "Function") {
        Some(String::from_str("Function"))
    } else if str_eq(name, "Map") {
        Some(String::from_str("Map<any, any>"))
    } else if str_eq(name, "Set") {
        Some(String::from_str("Set<any>"))
    } else if str_eq(name, "Promise") {
        Some(String::from_str("Promise<any>"))
    } else if str_eq(name, "Object") {
        Some(String::from_str("object"))
    } else {
        None
    }
}

/// Maps a Rust type to its TypeScript representation; types that cannot be
/// mapped become `any`.
pub fn rust_type_to_ts(ty: &TypeShape) -> (r: String)
    ensures
        r@ == ts_of(*ty),
    decreases ty,
{
    match ty {
        TypeShape::Unit => String::from_str("void"),
        TypeShape::Path { last, angle } => match last {
            None => String::from_str("any"),
            Some(name) => {
                if str_eq(name.as_str(), "Option") {
                    match angle {
                        Some(FirstArg::Type(inner)) => {
                            let inner_ts = rust_type_to_ts(inner);
                            inner_ts.concat(" | null")
                        },
                        _ => String::from_str("any | null"),
                    }
                } else if str_eq(name.as_str(), "Result") {
                    match angle {
                        Some(FirstArg::Type(ok)) => rust_type_to_ts(ok),
                        _ => String::from_str("any"),
                    }
                } else if str_eq(name.as_str(), "Vec") {
                    match angle {
                        Some(FirstArg::Type(inner)) => {
                            let inner_ts = rust_type_to_ts(inner);
                            if str_eq(inner_ts.as_str(), "number") {
                                proof {
                                    reveal_strlit("number");
                                    reveal_strlit("Array<number>");
                                    reveal_strlit("Array<");
                                    reveal_strlit(">");
                                    assert("Array<number>"@ =~= "Array<"@ + "number"@ + ">"@);
                                }
                                String::from_str("Array<number>")
                            } else {
                                let r = String::from_str("Array<");
                                let r = r.concat(inner_ts.as_str());
                                r.concat(">")
                            }
                        },
                        _ => String::from_str("Array<any>"),
                    }
                } else {
                    match fixed_ts_exec(name.as_str()) {
                        Some(s) => s,
                        None => name.clone(),
                    }
                }
            },
        },
        TypeShape::Reference(inner) => rust_type_to_ts(inner),
        TypeShape::Slice(inner) => {
            let inner_ts = rust_type_to_ts(inner);
            let r = String::from_str("Array<");
            let r = r.concat(inner_ts.as_str());
            r.concat(">")
        },
        TypeShape::Other => String::from_str("any"),
    }
}

/// Maps the return type of an `async` method: `Promise<T_ts>`, where the
/// promise's rejection stands for the error type.
pub fn async_return_to_ts(ty: &TypeShape) -> (r: String)
    ensures
        r@ == async_ts_of(*ty),
{
    let inner = rust_type_to_ts(ty);
    let r = String::from_str("Promise<");
    let r = r.concat(inner.as_str());
    r.concat(">")
}

/// Maps the return type of a synchronous method; no return type is `void`.
pub fn sync_return_to_ts(ret: &ReturnModel) -> (r: String)
    ensures
        r@ == sync_ts_of(*ret),
{
    match ret {
        ReturnModel::Default => String::from_str("void"),
        ReturnModel::Type { shape, .. } => rust_type_to_ts(shape),
    }
}

/// A reference `&T` maps to the same TypeScript type as `T`.
pub proof fn lemma_reference_is_transparent(t: TypeShape)
    ensures
        ts_of(TypeShape::Reference(Box::new(t))) == ts_of(t),
{
}

/// `Vec<T>` and `[T]` map to the same TypeScript type, `Array<T_ts>`.
pub proof fn lemma_vec_and_slice_agree(vec_name: String, t: TypeShape)
    requires
        vec_name@ == "Vec"@,
    ensures
        ts_of(TypeShape::Path { last: Some(vec_name), angle: Some(FirstArg::Type(Box::new(t))) })
            == ts_of(TypeShape::Slice(Box::new(t))),
        ts_of(TypeShape::Slice(Box::new(t))) == "Array<"@ + ts_of(t) + ">"@,
{
    reveal_strlit("Vec");
    reveal_strlit("Option");
    reveal_strlit("Result");
    assert("Vec"@.len() == 3);
    assert("Option"@.len() == 6);
    assert(vec_name@ != "Option"@);
    assert(vec_name@ != "Result"@);
    assert(vec_name@ == "Vec"@);
}

/// `Option<T>` maps to `T_ts | null`.
pub proof fn lemma_option_is_nullable(option_name: String, t: TypeShape)
    requires
        option_name@ == "Option"@,
    ensures
        ts_of(TypeShape::Path { last: Some(option_name), angle: Some(FirstArg::Type(Box::new(t))) })
            == ts_of(t) + " | null"@,
{
}

/// `Result<T, E>` maps to the TypeScript type of `T`: the error type does not
/// appear in TypeScript.
pub proof fn lemma_result_is_ok_type(result_name: String, t: TypeShape)
    requires
        result_name@ == "Result"@,
    ensures
        ts_of(TypeShape::Path { last: Some(result_name), angle: Some(FirstArg::Type(Box::new(t))) })
            == ts_of(t),
{
    reveal_strlit("Option");
    reveal_strlit("Result");
    assert("Result"@[0] == 'R');
    assert("Option"@[0] == 'O');
}

/// An `async` method returning `Result<T, E>` maps to `Promise<T_ts>`; with
/// `T = ()` this is `Promise<void>`.
pub proof fn lemma_async_result_is_promise(result_name: String, t: TypeShape)
    requires
        result_name@ == "Result"@,
    ensures
        async_ts_of(TypeShape::Path { last: Some(result_name), angle: Some(FirstArg::Type(Box::new(t))) })
            == "Promise<"@ + ts_of(t) + ">"@,
        t is Unit ==> async_ts_of(TypeShape::Path { last: Some(result_name), angle: Some(FirstArg::Type(Box::new(t))) })
            == "Promise<void>"@,
{
    reveal_strlit("Option");
    reveal_strlit("Result");
    assert("Result"@[0] == 'R');
    assert("Option"@[0] == 'O');
    reveal_strlit("Promise<");
    reveal_strlit("void");
    reveal_strlit(">");
    reveal_strlit("Promise<void>");
    assert("Promise<void>"@ =~= "Promise<"@ + "void"@ + ">"@);
}

/// A method without a return type and one returning `()` both map to `void`.
pub proof fn lemma_unit_return_is_void(text: String)
    ensures
        sync_ts_of(ReturnModel::Default) == "void"@,
        sync_ts_of(ReturnModel::Type { text, shape: TypeShape::Unit }) == "void"@,
{
}


/// The `js_sys` typed arrays, `ArrayBuffer` and `Function` keep their
/// names in TypeScript.
pub proof fn lemma_js_sys_names_are_kept(name: String)
    requires
        name@ == "Uint8Array"@ ||
            name@ == "Uint16Array"@ ||
            name@ == "Uint32Array"@ ||
            name@ == "Int8Array"@ ||
            name@ == "Int16Array"@ ||
            name@ == "Int32Array"@ ||
            name@ == "Float32Array"@ ||
            name@ == "Float64Array"@ ||
            name@ == "ArrayBuffer"@ ||
            name@ == "Function"@,
    ensures
        ts_of(TypeShape::Path { last: Some(name), angle: None }) == name@,
{
    reveal_strlit("Array");
    reveal_strlit("ArrayBuffer");
    reveal_strlit("Float32Array");
    reveal_strlit("Float64Array");
    reveal_strlit("Function");
    reveal_strlit("Int16Array");
    reveal_strlit("Int32Array");
    reveal_strlit("Int8Array");
    reveal_strlit("JsValue");
    reveal_strlit("Option");
    reveal_strlit("Result");
    reveal_strlit("String");
    reveal_strlit("Uint16Array");
    reveal_strlit("Uint32Array");
    reveal_strlit("Uint8Array");
    reveal_strlit("Vec");
    reveal_strlit("bool");
    reveal_strlit("f32");
    reveal_strlit("f64");
    reveal_strlit("i128");
    reveal_strlit("i16");
    reveal_strlit("i32");
    reveal_strlit("i64");
    reveal_strlit("i8");
    reveal_strlit("isize");
    reveal_strlit("str");
    reveal_strlit("u128");
    reveal_strlit("u16");
    reveal_strlit("u32");
    reveal_strlit("u64");
    reveal_strlit("u8");
    reveal_strlit("usize");
    assert("Option"@.len() == 6);
    assert("Uint8Array"@.len() == 10);
    assert("Result"@.len() == 6);
    assert("Vec"@.len() == 3);
    assert("JsValue"@.len() == 7);
    assert("bool"@.len() == 4);
    assert("String"@.len() == 6);
    assert("str"@.len() == 3);
    assert("u8"@.len() == 2);
    assert("u16"@.len() == 3);
    assert("u32"@.len() == 3);
    assert("i8"@.len() == 2);
    assert("i16"@.len() == 3);
    assert("i32"@.len() == 3);
    assert("f32"@.len() == 3);
    assert("f64"@.len() == 3);
    assert("usize"@.len() == 5);
    assert("isize"@.len() == 5);
    assert("u64"@.len() == 3);
    assert("i64"@.len() == 3);
    assert("u128"@.len() == 4);
    assert("i128"@.len() == 4);
    assert("Uint16Array"@.len() == 11);
    assert("Uint32Array"@.len() == 11);
    assert("Uint32Array"@[4] == '3');
    assert("Uint16Array"@[4] == '1');
    assert("Int8Array"@.len() == 9);
    assert("Int16Array"@.len() == 10);
    assert("Int16Array"@[0] == 'I');
    assert("Uint8Array"@[0] == 'U');
    assert("Int32Array"@.len() == 10);
    assert("Int32Array"@[0] == 'I');
    assert("Int32Array"@[3] == '3');
    assert("Int16Array"@[3] == '1');
    assert("Float32Array"@.len() == 12);
    assert("Float64Array"@.len() == 12);
    assert("Float64Array"@[5] == '6');
    assert("Float32Array"@[5] == '3');
    assert("ArrayBuffer"@.len() == 11);
    assert("ArrayBuffer"@[0] == 'A');
    assert("Uint16Array"@[0] == 'U');
    assert("Uint32Array"@[0] == 'U');
    assert("Array"@.len() == 5);
    assert("Function"@.len() == 8);
}

/// Integers of at most 32 bits, `usize`, `isize` and the floats are
/// TypeScript `number`s.
pub proof fn lemma_small_numbers_are_number(name: String)
    requires
        name@ == "u8"@ ||
            name@ == "u16"@ ||
            name@ == "u32"@ ||
            name@ == "i8"@ ||
            name@ == "i16"@ ||
            name@ == "i32"@ ||
            name@ == "f32"@ ||
            name@ == "f64"@ ||
            name@ == "usize"@ ||
            name@ == "isize"@,
    ensures
        ts_of(TypeShape::Path { last: Some(name), angle: None }) == "number"@,
{
    reveal_strlit("JsValue");
    reveal_strlit("Option");
    reveal_strlit("Result");
    reveal_strlit("String");
    reveal_strlit("Vec");
    reveal_strlit("bool");
    reveal_strlit("f32");
    reveal_strlit("f64");
    reveal_strlit("i16");
    reveal_strlit("i32");
    reveal_strlit("i8");
    reveal_strlit("isize");
    reveal_strlit("number");
    reveal_strlit("str");
    reveal_strlit("u16");
    reveal_strlit("u32");
    reveal_strlit("u8");
    reveal_strlit("usize");
    assert("Option"@.len() == 6);
    assert("u8"@.len() == 2);
    assert("Result"@.len() == 6);
    assert("Vec"@.len() == 3);
    assert("JsValue"@.len() == 7);
    assert("bool"@.len() == 4);
    assert("String"@.len() == 6);
    assert("str"@.len() == 3);
    assert("u16"@.len() == 3);
    assert("u16"@[0] == 'u');
    assert("Vec"@[0] == 'V');
    assert("str"@[0] == 's');
    assert("u32"@.len() == 3);
    assert("u32"@[0] == 'u');
    assert("i8"@.len() == 2);
    assert("i16"@.len() == 3);
    assert("i16"@[0] == 'i');
    assert("i32"@.len() == 3);
    assert("i32"@[0] == 'i');
    assert("f32"@.len() == 3);
    assert("f32"@[0] == 'f');
    assert("f64"@.len() == 3);
    assert("f64"@[0] == 'f');
    assert("usize"@.len() == 5);
    assert("isize"@.len() == 5);
}

/// 64- and 128-bit integers are TypeScript `bigint`s.
pub proof fn lemma_wide_integers_are_bigint(name: String)
    requires
        name@ == "u64"@ ||
            name@ == "i64"@ ||
            name@ == "u128"@ ||
            name@ == "i128"@,
    ensures
        ts_of(TypeShape::Path { last: Some(name), angle: None }) == "bigint"@,
{
    reveal_strlit("JsValue");
    reveal_strlit("Option");
    reveal_strlit("Result");
    reveal_strlit("String");
    reveal_strlit("Vec");
    reveal_strlit("bigint");
    reveal_strlit("bool");
    reveal_strlit("f32");
    reveal_strlit("f64");
    reveal_strlit("i128");
    reveal_strlit("i16");
    reveal_strlit("i32");
    reveal_strlit("i64");
    reveal_strlit("i8");
    reveal_strlit("isize");
    reveal_strlit("str");
    reveal_strlit("u128");
    reveal_strlit("u16");
    reveal_strlit("u32");
    reveal_strlit("u64");
    reveal_strlit("u8");
    reveal_strlit("usize");
    assert("Option"@.len() == 6);
    assert("u64"@.len() == 3);
    assert("Result"@.len() == 6);
    assert("u64"@[0] == 'u');
    assert("Vec"@[0] == 'V');
    assert("JsValue"@.len() == 7);
    assert("bool"@.len() == 4);
    assert("String"@.len() == 6);
    assert("str"@[0] == 's');
    assert("u8"@.len() == 2);
    assert("u64"@[1] == '6');
    assert("u16"@[1] == '1');
    assert("u32"@[1] == '3');
    assert("i8"@.len() == 2);
    assert("i16"@[0] == 'i');
    assert("i32"@[0] == 'i');
    assert("f32"@[0] == 'f');
    assert("f64"@[0] == 'f');
    assert("usize"@.len() == 5);
    assert("isize"@.len() == 5);
    assert("i64"@.len() == 3);
    assert("i64"@[0] == 'i');
    assert("u16"@[0] == 'u');
    assert("u32"@[0] == 'u');
    assert("i64"@[1] == '6');
    assert("i16"@[1] == '1');
    assert("i32"@[1] == '3');
    assert("u128"@.len() == 4);
    assert("Vec"@.len() == 3);
    assert("u128"@[0] == 'u');
    assert("bool"@[0] == 'b');
    assert("str"@.len() == 3);
    assert("u16"@.len() == 3);
    assert("u32"@.len() == 3);
    assert("i16"@.len() == 3);
    assert("i32"@.len() == 3);
    assert("f32"@.len() == 3);
    assert("f64"@.len() == 3);
    assert("i128"@.len() == 4);
    assert("i128"@[0] == 'i');
}

/// `String` and `str` are TypeScript `string`s.
pub proof fn lemma_strings_are_string(name: String)
    requires
        name@ == "String"@ ||
            name@ == "str"@,
    ensures
        ts_of(TypeShape::Path { last: Some(name), angle: None }) == "string"@,
{
    reveal_strlit("JsValue");
    reveal_strlit("Option");
    reveal_strlit("Result");
    reveal_strlit("String");
    reveal_strlit("Vec");
    reveal_strlit("bool");
    reveal_strlit("str");
    reveal_strlit("string");
    assert("String"@[0] == 'S');
    assert("Option"@[0] == 'O');
    assert("Result"@[0] == 'R');
    assert("Vec"@.len() == 3);
    assert("String"@.len() == 6);
    assert("JsValue"@.len() == 7);
    assert("bool"@.len() == 4);
    assert("Option"@.len() == 6);
    assert("str"@.len() == 3);
    assert("Result"@.len() == 6);
    assert("str"@[0] == 's');
    assert("Vec"@[0] == 'V');
}

/// `bool` is the TypeScript `boolean`.
pub proof fn lemma_bool_is_boolean(name: String)
    requires
        name@ == "bool"@,
    ensures
        ts_of(TypeShape::Path { last: Some(name), angle: None }) == "boolean"@,
{
    reveal_strlit("JsValue");
    reveal_strlit("Option");
    reveal_strlit("Result");
    reveal_strlit("Vec");
    reveal_strlit("bool");
    reveal_strlit("boolean");
    assert("Option"@.len() == 6);
    assert("bool"@.len() == 4);
    assert("Result"@.len() == 6);
    assert("Vec"@.len() == 3);
    assert("JsValue"@.len() == 7);
}

/// `JsValue` is TypeScript `any`.
pub proof fn lemma_js_value_is_any(name: String)
    requires
        name@ == "JsValue"@,
    ensures
        ts_of(TypeShape::Path { last: Some(name), angle: None }) == "any"@,
{
    reveal_strlit("JsValue");
    reveal_strlit("Option");
    reveal_strlit("Result");
    reveal_strlit("Vec");
    reveal_strlit("any");
    assert("Option"@.len() == 6);
    assert("JsValue"@.len() == 7);
    assert("Result"@.len() == 6);
    assert("Vec"@.len() == 3);
}

/// `Object` is the TypeScript `object`.
pub proof fn lemma_object_is_object(name: String)
    requires
        name@ == "Object"@,
    ensures
        ts_of(TypeShape::Path { last: Some(name), angle: None }) == "object"@,
{
    reveal_strlit("Array");
    reveal_strlit("ArrayBuffer");
    reveal_strlit("Float32Array");
    reveal_strlit("Float64Array");
    reveal_strlit("Function");
    reveal_strlit("Int16Array");
    reveal_strlit("Int32Array");
    reveal_strlit("Int8Array");
    reveal_strlit("JsValue");
    reveal_strlit("Map");
    reveal_strlit("Object");
    reveal_strlit("Option");
    reveal_strlit("Promise");
    reveal_strlit("Result");
    reveal_strlit("Set");
    reveal_strlit("String");
    reveal_strlit("Uint16Array");
    reveal_strlit("Uint32Array");
    reveal_strlit("Uint8Array");
    reveal_strlit("Vec");
    reveal_strlit("bool");
    reveal_strlit("f32");
    reveal_strlit("f64");
    reveal_strlit("i128");
    reveal_strlit("i16");
    reveal_strlit("i32");
    reveal_strlit("i64");
    reveal_strlit("i8");
    reveal_strlit("isize");
    reveal_strlit("object");
    reveal_strlit("str");
    reveal_strlit("u128");
    reveal_strlit("u16");
    reveal_strlit("u32");
    reveal_strlit("u64");
    reveal_strlit("u8");
    reveal_strlit("usize");
    assert("Object"@[1] == 'b');
    assert("Option"@[1] == 'p');
    assert("Object"@[0] == 'O');
    assert("Result"@[0] == 'R');
    assert("Vec"@.len() == 3);
    assert("Object"@.len() == 6);
    assert("JsValue"@.len() == 7);
    assert("bool"@.len() == 4);
    assert("String"@[0] == 'S');
    assert("str"@.len() == 3);
    assert("u8"@.len() == 2);
    assert("u16"@.len() == 3);
    assert("u32"@.len() == 3);
    assert("i8"@.len() == 2);
    assert("i16"@.len() == 3);
    assert("i32"@.len() == 3);
    assert("f32"@.len() == 3);
    assert("f64"@.len() == 3);
    assert("usize"@.len() == 5);
    assert("isize"@.len() == 5);
    assert("u64"@.len() == 3);
    assert("i64"@.len() == 3);
    assert("u128"@.len() == 4);
    assert("i128"@.len() == 4);
    assert("Uint8Array"@.len() == 10);
    assert("Uint16Array"@.len() == 11);
    assert("Uint32Array"@.len() == 11);
    assert("Int8Array"@.len() == 9);
    assert("Int16Array"@.len() == 10);
    assert("Int32Array"@.len() == 10);
    assert("Float32Array"@.len() == 12);
    assert("Float64Array"@.len() == 12);
    assert("Array"@.len() == 5);
    assert("ArrayBuffer"@.len() == 11);
    assert("Function"@.len() == 8);
    assert("Map"@.len() == 3);
    assert("Set"@.len() == 3);
    assert("Promise"@.len() == 7);
}

/// A plain JS `Array` is `Array<any>`.
pub proof fn lemma_untyped_array_is_any_array(name: String)
    requires
        name@ == "Array"@,
    ensures
        ts_of(TypeShape::Path { last: Some(name), angle: None }) == "Array<any>"@,
{
    reveal_strlit("Array");
    reveal_strlit("Array<any>");
    reveal_strlit("Float32Array");
    reveal_strlit("Float64Array");
    reveal_strlit("Int16Array");
    reveal_strlit("Int32Array");
    reveal_strlit("Int8Array");
    reveal_strlit("JsValue");
    reveal_strlit("Option");
    reveal_strlit("Result");
    reveal_strlit("String");
    reveal_strlit("Uint16Array");
    reveal_strlit("Uint32Array");
    reveal_strlit("Uint8Array");
    reveal_strlit("Vec");
    reveal_strlit("bool");
    reveal_strlit("f32");
    reveal_strlit("f64");
    reveal_strlit("i128");
    reveal_strlit("i16");
    reveal_strlit("i32");
    reveal_strlit("i64");
    reveal_strlit("i8");
    reveal_strlit("isize");
    reveal_strlit("str");
    reveal_strlit("u128");
    reveal_strlit("u16");
    reveal_strlit("u32");
    reveal_strlit("u64");
    reveal_strlit("u8");
    reveal_strlit("usize");
    assert("Option"@.len() == 6);
    assert("Array"@.len() == 5);
    assert("Result"@.len() == 6);
    assert("Vec"@.len() == 3);
    assert("JsValue"@.len() == 7);
    assert("bool"@.len() == 4);
    assert("String"@.len() == 6);
    assert("str"@.len() == 3);
    assert("u8"@.len() == 2);
    assert("u16"@.len() == 3);
    assert("u32"@.len() == 3);
    assert("i8"@.len() == 2);
    assert("i16"@.len() == 3);
    assert("i32"@.len() == 3);
    assert("f32"@.len() == 3);
    assert("f64"@.len() == 3);
    assert("Array"@[0] == 'A');
    assert("usize"@[0] == 'u');
    assert("isize"@[0] == 'i');
    assert("u64"@.len() == 3);
    assert("i64"@.len() == 3);
    assert("u128"@.len() == 4);
    assert("i128"@.len() == 4);
    assert("Uint8Array"@.len() == 10);
    assert("Uint16Array"@.len() == 11);
    assert("Uint32Array"@.len() == 11);
    assert("Int8Array"@.len() == 9);
    assert("Int16Array"@.len() == 10);
    assert("Int32Array"@.len() == 10);
    assert("Float32Array"@.len() == 12);
    assert("Float64Array"@.len() == 12);
}

/// A plain JS `Map` is `Map<any, any>`.
pub proof fn lemma_untyped_map_is_any_map(name: String)
    requires
        name@ == "Map"@,
    ensures
        ts_of(TypeShape::Path { last: Some(name), angle: None }) == "Map<any, any>"@,
{
    reveal_strlit("Array");
    reveal_strlit("ArrayBuffer");
    reveal_strlit("Float32Array");
    reveal_strlit("Float64Array");
    reveal_strlit("Function");
    reveal_strlit("Int16Array");
    reveal_strlit("Int32Array");
    reveal_strlit("Int8Array");
    reveal_strlit("JsValue");
    reveal_strlit("Map");
    reveal_strlit("Map<any, any>");
    reveal_strlit("Option");
    reveal_strlit("Result");
    reveal_strlit("String");
    reveal_strlit("Uint16Array");
    reveal_strlit("Uint32Array");
    reveal_strlit("Uint8Array");
    reveal_strlit("Vec");
    reveal_strlit("bool");
    reveal_strlit("f32");
    reveal_strlit("f64");
    reveal_strlit("i128");
    reveal_strlit("i16");
    reveal_strlit("i32");
    reveal_strlit("i64");
    reveal_strlit("i8");
    reveal_strlit("isize");
    reveal_strlit("str");
    reveal_strlit("u128");
    reveal_strlit("u16");
    reveal_strlit("u32");
    reveal_strlit("u64");
    reveal_strlit("u8");
    reveal_strlit("usize");
    assert("Option"@.len() == 6);
    assert("Map"@.len() == 3);
    assert("Result"@.len() == 6);
    assert("Map"@[0] == 'M');
    assert("Vec"@[0] == 'V');
    assert("JsValue"@.len() == 7);
    assert("bool"@.len() == 4);
    assert("String"@.len() == 6);
    assert("str"@[0] == 's');
    assert("u8"@.len() == 2);
    assert("u16"@[0] == 'u');
    assert("u32"@[0] == 'u');
    assert("i8"@.len() == 2);
    assert("i16"@[0] == 'i');
    assert("i32"@[0] == 'i');
    assert("f32"@[0] == 'f');
    assert("f64"@[0] == 'f');
    assert("usize"@.len() == 5);
    assert("isize"@.len() == 5);
    assert("u64"@[0] == 'u');
    assert("i64"@[0] == 'i');
    assert("u128"@.len() == 4);
    assert("i128"@.len() == 4);
    assert("Uint8Array"@.len() == 10);
    assert("Uint16Array"@.len() == 11);
    assert("Uint32Array"@.len() == 11);
    assert("Int8Array"@.len() == 9);
    assert("Int16Array"@.len() == 10);
    assert("Int32Array"@.len() == 10);
    assert("Float32Array"@.len() == 12);
    assert("Float64Array"@.len() == 12);
    assert("Array"@.len() == 5);
    assert("ArrayBuffer"@.len() == 11);
    assert("Function"@.len() == 8);
}

/// A plain JS `Set` is `Set<any>`.
pub proof fn lemma_untyped_set_is_any_set(name: String)
    requires
        name@ == "Set"@,
    ensures
        ts_of(TypeShape::Path { last: Some(name), angle: None }) == "Set<any>"@,
{
    reveal_strlit("Array");
    reveal_strlit("ArrayBuffer");
    reveal_strlit("Float32Array");
    reveal_strlit("Float64Array");
    reveal_strlit("Function");
    reveal_strlit("Int16Array");
    reveal_strlit("Int32Array");
    reveal_strlit("Int8Array");
    reveal_strlit("JsValue");
    reveal_strlit("Map");
    reveal_strlit("Option");
    reveal_strlit("Result");
    reveal_strlit("Set");
    reveal_strlit("Set<any>");
    reveal_strlit("String");
    reveal_strlit("Uint16Array");
    reveal_strlit("Uint32Array");
    reveal_strlit("Uint8Array");
    reveal_strlit("Vec");
    reveal_strlit("bool");
    reveal_strlit("f32");
    reveal_strlit("f64");
    reveal_strlit("i128");
    reveal_strlit("i16");
    reveal_strlit("i32");
    reveal_strlit("i64");
    reveal_strlit("i8");
    reveal_strlit("isize");
    reveal_strlit("str");
    reveal_strlit("u128");
    reveal_strlit("u16");
    reveal_strlit("u32");
    reveal_strlit("u64");
    reveal_strlit("u8");
    reveal_strlit("usize");
    assert("Option"@.len() == 6);
    assert("Set"@.len() == 3);
    assert("Result"@.len() == 6);
    assert("Set"@[0] == 'S');
    assert("Vec"@[0] == 'V');
    assert("JsValue"@.len() == 7);
    assert("bool"@.len() == 4);
    assert("String"@.len() == 6);
    assert("str"@[0] == 's');
    assert("u8"@.len() == 2);
    assert("u16"@[0] == 'u');
    assert("u32"@[0] == 'u');
    assert("i8"@.len() == 2);
    assert("i16"@[0] == 'i');
    assert("i32"@[0] == 'i');
    assert("f32"@[0] == 'f');
    assert("f64"@[0] == 'f');
    assert("usize"@.len() == 5);
    assert("isize"@.len() == 5);
    assert("u64"@[0] == 'u');
    assert("i64"@[0] == 'i');
    assert("u128"@.len() == 4);
    assert("i128"@.len() == 4);
    assert("Uint8Array"@.len() == 10);
    assert("Uint16Array"@.len() == 11);
    assert("Uint32Array"@.len() == 11);
    assert("Int8Array"@.len() == 9);
    assert("Int16Array"@.len() == 10);
    assert("Int32Array"@.len() == 10);
    assert("Float32Array"@.len() == 12);
    assert("Float64Array"@.len() == 12);
    assert("Array"@.len() == 5);
    assert("ArrayBuffer"@.len() == 11);
    assert("Function"@.len() == 8);
    assert("Map"@[0] == 'M');
}

/// A plain JS `Promise` is `Promise<any>`.
pub proof fn lemma_untyped_promise_is_any_promise(name: String)
    requires
        name@ == "Promise"@,
    ensures
        ts_of(TypeShape::Path { last: Some(name), angle: None }) == "Promise<any>"@,
{
    reveal_strlit("Array");
    reveal_strlit("ArrayBuffer");
    reveal_strlit("Float32Array");
    reveal_strlit("Float64Array");
    reveal_strlit("Function");
    reveal_strlit("Int16Array");
    reveal_strlit("Int32Array");
    reveal_strlit("Int8Array");
    reveal_strlit("JsValue");
    reveal_strlit("Map");
    reveal_strlit("Option");
    reveal_strlit("Promise");
    reveal_strlit("Promise<any>");
    reveal_strlit("Result");
    reveal_strlit("Set");
    reveal_strlit("String");
    reveal_strlit("Uint16Array");
    reveal_strlit("Uint32Array");
    reveal_strlit("Uint8Array");
    reveal_strlit("Vec");
    reveal_strlit("bool");
    reveal_strlit("f32");
    reveal_strlit("f64");
    reveal_strlit("i128");
    reveal_strlit("i16");
    reveal_strlit("i32");
    reveal_strlit("i64");
    reveal_strlit("i8");
    reveal_strlit("isize");
    reveal_strlit("str");
    reveal_strlit("u128");
    reveal_strlit("u16");
    reveal_strlit("u32");
    reveal_strlit("u64");
    reveal_strlit("u8");
    reveal_strlit("usize");
    assert("Option"@.len() == 6);
    assert("Promise"@.len() == 7);
    assert("Result"@.len() == 6);
    assert("Vec"@.len() == 3);
    assert("Promise"@[0] == 'P');
    assert("JsValue"@[0] == 'J');
    assert("bool"@.len() == 4);
    assert("String"@.len() == 6);
    assert("str"@.len() == 3);
    assert("u8"@.len() == 2);
    assert("u16"@.len() == 3);
    assert("u32"@.len() == 3);
    assert("i8"@.len() == 2);
    assert("i16"@.len() == 3);
    assert("i32"@.len() == 3);
    assert("f32"@.len() == 3);
    assert("f64"@.len() == 3);
    assert("usize"@.len() == 5);
    assert("isize"@.len() == 5);
    assert("u64"@.len() == 3);
    assert("i64"@.len() == 3);
    assert("u128"@.len() == 4);
    assert("i128"@.len() == 4);
    assert("Uint8Array"@.len() == 10);
    assert("Uint16Array"@.len() == 11);
    assert("Uint32Array"@.len() == 11);
    assert("Int8Array"@.len() == 9);
    assert("Int16Array"@.len() == 10);
    assert("Int32Array"@.len() == 10);
    assert("Float32Array"@.len() == 12);
    assert("Float64Array"@.len() == 12);
    assert("Array"@.len() == 5);
    assert("ArrayBuffer"@.len() == 11);
    assert("Function"@.len() == 8);
    assert("Map"@.len() == 3);
    assert("Set"@.len() == 3);
}


/// Any other path type keeps the name of its last segment in TypeScript,
/// whatever its generic arguments.
pub proof fn lemma_other_names_are_kept(name: String, angle: Option<FirstArg>)
    requires
        name@ != "Option"@,
        name@ != "Result"@,
        name@ != "Vec"@,
        name@ != "JsValue"@,
        name@ != "bool"@,
        name@ != "String"@,
        name@ != "str"@,
        name@ != "u8"@,
        name@ != "u16"@,
        name@ != "u32"@,
        name@ != "i8"@,
        name@ != "i16"@,
        name@ != "i32"@,
        name@ != "f32"@,
        name@ != "f64"@,
        name@ != "usize"@,
        name@ != "isize"@,
        name@ != "u64"@,
        name@ != "i64"@,
        name@ != "u128"@,
        name@ != "i128"@,
        name@ != "Uint8Array"@,
        name@ != "Uint16Array"@,
        name@ != "Uint32Array"@,
        name@ != "Int8Array"@,
        name@ != "Int16Array"@,
        name@ != "Int32Array"@,
        name@ != "Float32Array"@,
        name@ != "Float64Array"@,
        name@ != "Array"@,
        name@ != "ArrayBuffer"@,
        name@ != "Function"@,
        name@ != "Map"@,
        name@ != "Set"@,
        name@ != "Promise"@,
        name@ != "Object"@,
    ensures
        ts_of(TypeShape::Path { last: Some(name), angle }) == name@,
{
}

} // verus!
