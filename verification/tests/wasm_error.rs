use wasm_utils::model::{ArgToken, AttrForm, AttrModel};
use wasm_utils::naming::strip_wasm_prefix;
use wasm_utils::wasm_error::{derive_wasm_error, wasm_error_impl, DeriveModel, WasmErrorAttrError};

fn norm(text: &str) -> String {
    text.parse::<proc_macro2::TokenStream>().expect("expansion must be valid tokens").to_string()
}

fn plain_attr(name: &str, text: &str) -> AttrModel {
    AttrModel { form: AttrForm::List, name: Some(name.to_string()), args: None, tokens: vec![], text: text.to_string() }
}

fn arg_token(tt: proc_macro2::TokenTree) -> ArgToken {
    match tt {
        proc_macro2::TokenTree::Ident(i) => ArgToken::Ident(i.to_string()),
        proc_macro2::TokenTree::Punct(p) => ArgToken::Punct { ch: p.as_char(), joint: p.spacing() == proc_macro2::Spacing::Joint },
        proc_macro2::TokenTree::Literal(l) => match syn::Lit::new(l) {
            syn::Lit::Str(s) => ArgToken::StrLit(s.value()),
            syn::Lit::Int(_) | syn::Lit::Float(_) => ArgToken::NumLit,
            _ => ArgToken::OtherLit,
        },
        proc_macro2::TokenTree::Group(_) => ArgToken::Group,
    }
}

/// `#[wasm_error(<contents>)]`.
fn wasm_error_list(contents: &str) -> AttrModel {
    let tokens: proc_macro2::TokenStream = contents.parse().expect("tokens");
    AttrModel {
        form: AttrForm::List,
        name: Some("wasm_error".to_string()),
        args: None,
        tokens: tokens.into_iter().map(arg_token).collect(),
        text: format!("#[wasm_error({contents})]"),
    }
}

fn js_name_attr(value: &str) -> AttrModel {
    wasm_error_list(&format!("js_name = {value:?}"))
}

fn derive(ident: &str, impl_generics: &str, ty_generics: &str, where_predicates: &[&str], attrs: Vec<AttrModel>) -> DeriveModel {
    DeriveModel {
        ident: ident.to_string(),
        impl_generics: impl_generics.to_string(),
        ty_generics: ty_generics.to_string(),
        where_predicates: where_predicates.iter().map(|w| w.to_string()).collect(),
        attrs,
    }
}

fn debug_attr() -> AttrModel {
    plain_attr("derive", "#[derive(Debug)]")
}

fn expand(d: DeriveModel) -> String {
    norm(&wasm_error_impl(&d).expect("macro expansion failed"))
}

fn expand_err(d: DeriveModel) -> String {
    match wasm_error_impl(&d) {
        Ok(_) => panic!("expected macro expansion to fail"),
        Err(e) => e.message(),
    }
}

#[test]
fn struct_strips_wasm_prefix() {
    let output = expand(derive("WasmHydrationError", "", "", &[], vec![debug_attr()]));
    assert!(
        output.contains("From < WasmHydrationError > for :: wasm_bindgen :: JsValue")
            || output.contains("From<WasmHydrationError> for ::wasm_bindgen::JsValue"),
        "must generate From<WasmHydrationError> for JsValue.\nOutput: {output}",
    );
    assert!(
        output.contains(r#"set_name ("HydrationError")"#) || output.contains(r#"set_name("HydrationError")"#),
        "must strip Wasm prefix for JS error name.\nOutput: {output}",
    );
}

#[test]
fn struct_without_wasm_prefix() {
    let output = expand(derive("ConnectError", "", "", &[], vec![debug_attr()]));
    assert!(
        output.contains(r#"set_name ("ConnectError")"#) || output.contains(r#"set_name("ConnectError")"#),
        "must use type name as-is when no Wasm prefix.\nOutput: {output}",
    );
}

#[test]
fn enum_generates_from_impl() {
    let output = expand(derive("WasmConnectError", "", "", &[], vec![debug_attr()]));
    assert!(
        output.contains("From < WasmConnectError > for :: wasm_bindgen :: JsValue")
            || output.contains("From<WasmConnectError> for ::wasm_bindgen::JsValue"),
        "must generate From impl for enums.\nOutput: {output}",
    );
    assert!(
        output.contains(r#"set_name ("ConnectError")"#) || output.contains(r#"set_name("ConnectError")"#),
        "must strip Wasm prefix for enum.\nOutput: {output}",
    );
}

#[test]
fn lib_js_name_override() {
    let output = expand(derive("WasmIoError", "", "", &[], vec![debug_attr(), js_name_attr("StorageFailure")]));
    assert!(
        output.contains(r#"set_name ("StorageFailure")"#) || output.contains(r#"set_name("StorageFailure")"#),
        "must use explicit js_name override.\nOutput: {output}",
    );
}

#[test]
fn uses_fully_qualified_paths() {
    let output = expand(derive("WasmFooError", "", "", &[], vec![debug_attr()]));
    assert!(
        output.contains(":: core :: convert :: From") || output.contains("::core::convert::From"),
        "From impl must use fully qualified ::core::convert::From.\nOutput: {output}",
    );
    assert!(
        output.contains(":: wasm_bindgen :: JsValue") || output.contains("::wasm_bindgen::JsValue"),
        "must use fully qualified ::wasm_bindgen::JsValue.\nOutput: {output}",
    );
    assert!(
        output.contains(":: js_sys :: Error :: new") || output.contains("::js_sys::Error::new"),
        "must use fully qualified ::js_sys::Error::new.\nOutput: {output}",
    );
    assert!(output.contains("to_string"), "must call .to_string() on the error.\nOutput: {output}");
    assert!(
        output.contains(":: core :: error :: Error") || output.contains("::core::error::Error"),
        "must require ::core::error::Error bound.\nOutput: {output}",
    );
}

#[test]
fn requires_error_bound() {
    let output = expand(derive("WasmFooError", "", "", &[], vec![debug_attr()]));
    assert!(
        output.contains("where WasmFooError : :: core :: error :: Error")
            || output.contains("where WasmFooError: ::core::error::Error")
            || output.contains("where WasmFooError : ::core::error::Error"),
        "must generate where clause requiring core::error::Error.\nOutput: {output}",
    );
}

#[test]
fn strip_wasm_prefix_with_prefix() {
    assert_eq!(strip_wasm_prefix("WasmFooError"), "FooError");
}

#[test]
fn strip_wasm_prefix_without_prefix() {
    assert_eq!(strip_wasm_prefix("ConnectError"), "ConnectError");
}

#[test]
fn strip_wasm_prefix_exact_wasm() {
    assert_eq!(strip_wasm_prefix("Wasm"), "");
}

#[test]
fn generics_are_preserved() {
    let output = expand(derive("WasmError", "<T>", "<T>", &[], vec![debug_attr()]));
    assert!(
        output.contains("< T >") || output.contains("<T>"),
        "generic parameters must appear in the impl.\nOutput: {output}",
    );
}

#[test]
fn strip_wasm_prefix_lowercase_wasm_unchanged() {
    assert_eq!(strip_wasm_prefix("wasmError"), "wasmError");
}

#[test]
fn strip_wasm_prefix_only_strips_leading() {
    assert_eq!(strip_wasm_prefix("MyWasmError"), "MyWasmError");
}

#[test]
fn js_name_override_on_enum() {
    let output = expand(derive("WasmMultiError", "", "", &[], vec![debug_attr(), js_name_attr("CustomEnumError")]));
    assert!(
        output.contains(r#"set_name ("CustomEnumError")"#) || output.contains(r#"set_name("CustomEnumError")"#),
        "js_name override must work on enums.\nOutput: {output}",
    );
}

#[test]
fn unit_struct() {
    let output = expand(derive("WasmUnitError", "", "", &[], vec![debug_attr()]));
    assert!(
        output.contains(r#"set_name ("UnitError")"#) || output.contains(r#"set_name("UnitError")"#),
        "must handle unit structs.\nOutput: {output}",
    );
}

#[test]
fn tuple_struct_single_field() {
    let output = expand(derive("WasmWrappedError", "", "", &[], vec![debug_attr()]));
    assert!(
        output.contains("From < WasmWrappedError >") || output.contains("From<WasmWrappedError>"),
        "must handle single-field tuple structs.\nOutput: {output}",
    );
}

#[test]
fn named_fields_struct() {
    let output = expand(derive("WasmDetailedError", "", "", &[], vec![debug_attr()]));
    assert!(
        output.contains(r#"set_name ("DetailedError")"#) || output.contains(r#"set_name("DetailedError")"#),
        "must handle structs with named fields.\nOutput: {output}",
    );
}

#[test]
fn enum_with_unit_variants() {
    let output = expand(derive("WasmSimpleError", "", "", &[], vec![debug_attr()]));
    assert!(
        output.contains(r#"set_name ("SimpleError")"#) || output.contains(r#"set_name("SimpleError")"#),
        "must handle enums with unit variants.\nOutput: {output}",
    );
}

#[test]
fn enum_with_mixed_variants() {
    let output = expand(derive("WasmMixedError", "", "", &[], vec![debug_attr()]));
    assert!(
        output.contains("From < WasmMixedError >") || output.contains("From<WasmMixedError>"),
        "must handle enums with mixed variant kinds.\nOutput: {output}",
    );
}

#[test]
fn generic_with_trait_bounds() {
    let output = expand(derive("WasmGenericError", "<T: core::fmt::Debug>", "<T>", &[], vec![debug_attr()]));
    assert!(
        output.contains("core :: fmt :: Debug") || output.contains("core::fmt::Debug"),
        "trait bounds on generics must be preserved.\nOutput: {output}",
    );
    assert!(
        output.contains(":: core :: error :: Error") || output.contains("::core::error::Error"),
        "Error bound must still be present.\nOutput: {output}",
    );
}

#[test]
fn generic_with_lifetime() {
    let output = expand(derive("WasmBorrowError", "<'a>", "<'a>", &[], vec![debug_attr()]));
    assert!(output.contains("'a"), "lifetime parameters must be preserved.\nOutput: {output}");
}

#[test]
fn multiple_generics() {
    let output = expand(derive("WasmPairError", "<A, B>", "<A, B>", &[], vec![debug_attr()]));
    let has_both = (output.contains("< A , B >") || output.contains("<A, B>"))
        && (output.contains("WasmPairError < A , B >") || output.contains("WasmPairError<A, B>"));
    assert!(has_both, "multiple generic parameters must all appear.\nOutput: {output}");
}

#[test]
fn generic_error_bound_appended_to_existing_where_clause() {
    let output = norm(&wasm_error_impl(&derive("WasmBoundedError", "<T>", "<T>", &["T: Clone"], vec![debug_attr()]))
        .expect("macro expansion failed"));
    assert!(
        output.contains(":: core :: error :: Error") || output.contains("::core::error::Error"),
        "Error bound must be appended even when where clause exists.\nOutput: {output}",
    );
    assert!(output.contains("Clone"), "existing where clause bounds must be preserved.\nOutput: {output}");
    let item: syn::ItemImpl = syn::parse_str(&output).expect("the extended impl must parse");
    let preds: Vec<String> = item
        .generics
        .where_clause
        .expect("where clause")
        .predicates
        .iter()
        .map(|p| quote::ToTokens::to_token_stream(p).to_string())
        .collect();
    assert_eq!(preds, vec!["T : Clone".to_string(), "WasmBoundedError < T > : :: core :: error :: Error".to_string()]);
}

#[test]
fn other_attributes_are_ignored() {
    let attrs = vec![
        plain_attr("derive", "#[derive(Debug, Clone)]"),
        plain_attr("allow", "#[allow(dead_code)]"),
        plain_attr("cfg", "#[cfg(target_arch = \"wasm32\")]"),
    ];
    let output = expand(derive("WasmAnnotatedError", "", "", &[], attrs));
    assert!(
        output.contains(r#"set_name ("AnnotatedError")"#) || output.contains(r#"set_name("AnnotatedError")"#),
        "non-wasm_error attributes must not interfere.\nOutput: {output}",
    );
}

#[test]
fn empty_wasm_error_attr_uses_default() {
    let output = expand(derive("WasmEmptyAttrError", "", "", &[], vec![debug_attr(), wasm_error_list("")]));
    assert!(
        output.contains(r#"set_name ("EmptyAttrError")"#) || output.contains(r#"set_name("EmptyAttrError")"#),
        "empty #[wasm_error()] must fall through to default prefix stripping.\nOutput: {output}",
    );
}

#[test]
fn error_on_unknown_attribute_key() {
    let attr = wasm_error_list("unknown_key = \"x\"");
    let err = expand_err(derive("WasmFooError", "", "", &[], vec![debug_attr(), attr]));
    assert!(err.contains("unknown attribute"), "must reject unknown attribute keys.\nError: {err}");
}

#[test]
fn error_on_non_string_js_name() {
    let attr = wasm_error_list("js_name = 42");
    let err = expand_err(derive("WasmFooError", "", "", &[], vec![debug_attr(), attr]));
    assert!(!err.is_empty(), "must reject non-string literal for js_name.\nError: {err}");
}

#[test]
fn error_on_bare_key_without_value() {
    let attr = wasm_error_list("js_name");
    let err = expand_err(derive("WasmFooError", "", "", &[], vec![debug_attr(), attr]));
    assert!(!err.is_empty(), "must reject bare key without `= \"value\"`.\nError: {err}");
}

// Hand-written counterparts of the error types that the derive is applied to.

#[derive(Debug)]
pub struct TimeoutError {
    ms: u64,
}

#[derive(Debug)]
pub struct PermissionError {
    resource: &'static str,
}

#[derive(Debug)]
pub enum WasmConnectError {
    Timeout(TimeoutError),
    Permission(PermissionError),
    Refused,
}

impl From<TimeoutError> for WasmConnectError {
    fn from(e: TimeoutError) -> Self {
        WasmConnectError::Timeout(e)
    }
}

impl From<PermissionError> for WasmConnectError {
    fn from(e: PermissionError) -> Self {
        WasmConnectError::Permission(e)
    }
}

#[test]
fn each_variant_constructs() {
    let a = WasmConnectError::from(TimeoutError { ms: 5000 });
    let b = WasmConnectError::from(PermissionError { resource: "/secret" });
    let c = WasmConnectError::Refused;
    assert!(matches!(a, WasmConnectError::Timeout(TimeoutError { ms: 5000 })));
    assert!(matches!(b, WasmConnectError::Permission(PermissionError { resource: "/secret" })));
    assert!(matches!(c, WasmConnectError::Refused));
    let output = norm(&derive_wasm_error(&derive("WasmConnectError", "", "", &[], vec![])));
    assert!(output.contains(r#"set_name ("ConnectError")"#), "Output: {output}");
}

#[derive(Debug)]
pub struct HydrationError {
    field: &'static str,
}

#[derive(Debug)]
pub struct WasmHydrationError(HydrationError);

impl From<HydrationError> for WasmHydrationError {
    fn from(e: HydrationError) -> Self {
        WasmHydrationError(e)
    }
}

#[test]
fn question_mark_chain() {
    fn inner() -> Result<(), HydrationError> {
        Err(HydrationError { field: "name" })
    }

    fn outer() -> Result<(), WasmHydrationError> {
        inner()?;
        Ok(())
    }

    let err = outer().unwrap_err();
    assert_eq!(err.0.field, "name");
    let output = norm(&derive_wasm_error(&derive("WasmHydrationError", "", "", &[], vec![])));
    assert!(output.contains(r#"set_name ("HydrationError")"#), "Output: {output}");
}

// Further cases.

#[test]
fn derive_reports_refusal_as_compile_error() {
    let attr = AttrModel { form: AttrForm::Path, name: Some("wasm_error".to_string()), args: None, tokens: vec![], text: "#[wasm_error]".to_string() };
    let output = norm(&derive_wasm_error(&derive("WasmFooError", "", "", &[], vec![attr])));
    assert!(output.starts_with(":: core :: compile_error !"), "Output: {output}");
    assert_eq!(
        wasm_error_impl(&derive("WasmFooError", "", "", &[], vec![AttrModel {
            form: AttrForm::Path,
            name: Some("wasm_error".to_string()),
            args: None,
            tokens: vec![],
            text: String::new(),
        }]))
        .unwrap_err(),
        WasmErrorAttrError::NoArguments
    );
    assert!(output.contains("expected attribute arguments in parentheses: #[wasm_error(...)]"), "Output: {output}");
    let name_value = AttrModel { form: AttrForm::NameValue, name: Some("wasm_error".to_string()), args: None, tokens: vec![], text: String::new() };
    let err = wasm_error_impl(&derive("WasmFooError", "", "", &[], vec![name_value])).unwrap_err();
    assert_eq!(err.message(), "expected parentheses: #[wasm_error(...)]");
}

#[test]
fn js_name_with_quotes_is_escaped() {
    let output = expand(derive("WasmFooError", "", "", &[], vec![js_name_attr("a\"b\\c\nd")]));
    assert!(output.contains(r#"set_name ("a\"b\\c\nd")"#), "Output: {output}");
}

#[test]
fn last_js_name_in_one_attribute_wins_and_first_attribute_wins() {
    let two = wasm_error_list("js_name = \"First\", js_name = \"Second\"");
    let output = expand(derive("WasmFooError", "", "", &[], vec![two, js_name_attr("Third")]));
    assert!(output.contains(r#"set_name ("Second")"#), "Output: {output}");
}

#[test]
fn missing_value_error_variant() {
    let attr = wasm_error_list("js_name(\"x\")");
    assert_eq!(
        wasm_error_impl(&derive("WasmFooError", "", "", &[], vec![attr])).unwrap_err(),
        WasmErrorAttrError::MissingValue
    );
}

#[test]
fn strip_twice_only_strips_once() {
    assert_eq!(strip_wasm_prefix("WasmWasmError"), "WasmError");
    assert_eq!(strip_wasm_prefix(""), "");
    assert_eq!(strip_wasm_prefix("Was"), "Was");
}
