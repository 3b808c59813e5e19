use wasm_utils::model::{AttrForm, AttrModel, ExprModel, ImplFnModel, ImplItemModel, ImplModel, MetaKind, MetaModel, ReturnModel, SigModel};
use wasm_utils::refgen::{parse_refgen_args, wasm_refgen, wasm_refgen_impl, RefgenArgs, RefgenArgsError, RefgenError, TokenModel};

fn norm(text: &str) -> String {
    text.parse::<proc_macro2::TokenStream>().expect("expansion must be valid tokens").to_string()
}

fn js_class_attr(value: &str) -> AttrModel {
    AttrModel {
        form: AttrForm::List,
        name: Some("wasm_bindgen".to_string()),
        args: Some(vec![MetaModel {
            key: Some("js_class".to_string()),
            kind: MetaKind::NameValue(ExprModel::StrLit(value.to_string())),
            text: format!("js_class = {value:?}"),
        }]),
        tokens: vec![],
        text: format!("#[wasm_bindgen(js_class = {value:?})]"),
    }
}

fn impl_block(ty: &str, attrs: Vec<AttrModel>, is_trait_impl: bool, items: Vec<ImplItemModel>) -> ImplModel {
    let attr_text: Vec<String> = attrs.iter().map(|a| a.text.clone()).collect();
    let head = if is_trait_impl {
        format!("{} impl SomeTrait for {ty}", attr_text.join(" "))
    } else {
        format!("{} impl {ty}", attr_text.join(" "))
    };
    ImplModel {
        is_trait_impl,
        head,
        inner_attrs: String::new(),
        attrs,
        self_ty: ty.to_string(),
        self_ty_last: Some(ty.to_string()),
        items,
    }
}

fn js_ref_tokens(name: &str) -> Vec<TokenModel> {
    vec![TokenModel::Ident("js_ref".to_string()), TokenModel::Punct('='), TokenModel::Ident(name.to_string())]
}

fn expand(js_ref: &str, item: ImplModel) -> String {
    norm(&wasm_refgen(&js_ref_tokens(js_ref), &item).expect("js_class is not raw"))
}

fn foo_block() -> ImplModel {
    impl_block("WasmFoo", vec![js_class_attr("Foo")], false, vec![])
}

#[test]
fn extern_type_has_js_name() {
    let output = expand("JsFoo", foo_block());
    assert!(
        output.contains("js_name = Foo"),
        "extern type declaration must include `js_name = Foo` so instanceof targets the correct JS class.\nOutput: {output}",
    );
}

#[test]
fn extern_type_has_typescript_type() {
    let output = expand("JsFoo", foo_block());
    assert!(output.contains("typescript_type = Foo"), "extern type declaration must include `typescript_type`.\nOutput: {output}");
}

#[test]
fn extern_type_js_name_matches_js_class() {
    let output = expand("JsCommitWithBlob", impl_block("WasmCommitWithBlob", vec![js_class_attr("CommitWithBlob")], false, vec![]));
    assert!(
        output.contains("js_name = CommitWithBlob"),
        "extern type `js_name` must match the `js_class` value, not the Rust ident.\nOutput: {output}",
    );
}

#[test]
fn generates_from_js_ref_impl() {
    let output = expand("JsFoo", foo_block());
    assert!(output.contains("FromJsRef"), "must generate a FromJsRef impl.\nOutput: {output}");
    assert!(output.contains("type JsRef = JsFoo"), "FromJsRef::JsRef must be the js_ref ident.\nOutput: {output}");
}

#[test]
fn generates_upcast_method() {
    let output = expand("JsFoo", foo_block());
    assert!(output.contains("__wasm_refgen_to_wasm_foo"), "must inject the upcast clone method.\nOutput: {output}");
    assert!(output.contains("__wasm_refgen_toWasmFoo"), "must generate the JS-side method tag.\nOutput: {output}");
}

#[test]
fn generates_from_impls() {
    let output = expand("JsFoo", foo_block());
    assert!(
        output.contains("From < WasmFoo > for JsFoo") || output.contains("From<WasmFoo> for JsFoo"),
        "must generate From<WasmFoo> for JsFoo.\nOutput: {output}",
    );
    assert!(
        output.contains("From < & JsFoo > for WasmFoo") || output.contains("From<&JsFoo> for WasmFoo"),
        "must generate From<&JsFoo> for WasmFoo.\nOutput: {output}",
    );
}

#[test]
fn lib_error_on_trait_impl() {
    let output = expand("JsFoo", impl_block("WasmFoo", vec![js_class_attr("Foo")], true, vec![]));
    assert!(output.contains("compile_error"), "trait impl must produce a compile error.\nOutput: {output}");
}

#[test]
fn error_on_missing_js_class() {
    let output = expand("JsFoo", impl_block("WasmFoo", vec![], false, vec![]));
    assert!(output.contains("compile_error"), "missing js_class must produce a compile error.\nOutput: {output}");
}

// Further cases.

fn upcast_item() -> ImplItemModel {
    ImplItemModel {
        text: "pub fn __wasm_refgen_to_wasm_foo(&self) -> Self { self.clone() }".to_string(),
        func: Some(ImplFnModel {
            is_pub: true,
            attrs: vec![],
            sig: SigModel {
                constness: false,
                is_async: false,
                unsafety: false,
                abi: String::new(),
                ident: "__wasm_refgen_to_wasm_foo".to_string(),
                generics: String::new(),
                inputs: vec![],
                trailing_comma: false,
                variadic: String::new(),
                output: ReturnModel::Default,
                where_clause: String::new(),
            },
        }),
    }
}

#[test]
fn upcast_method_is_not_injected_twice() {
    let output = expand("JsFoo", impl_block("WasmFoo", vec![js_class_attr("Foo")], false, vec![upcast_item()]));
    assert_eq!(output.matches("pub fn __wasm_refgen_to_wasm_foo (& self) -> Self").count(), 1, "Output: {output}");
    let fresh = expand("JsFoo", foo_block());
    assert_eq!(fresh.matches("pub fn __wasm_refgen_to_wasm_foo (& self) -> Self").count(), 1, "Output: {fresh}");
}

#[test]
fn js_class_as_bare_ident_is_accepted() {
    let attr = AttrModel {
        form: AttrForm::List,
        name: Some("wasm_bindgen".to_string()),
        args: Some(vec![MetaModel {
            key: Some("js_class".to_string()),
            kind: MetaKind::NameValue(ExprModel::Path { ident: Some("Bar".to_string()), last: Some("Bar".to_string()) }),
            text: "js_class = Bar".to_string(),
        }]),
        tokens: vec![],
        text: "#[wasm_bindgen(js_class = Bar)]".to_string(),
    };
    let output = expand("JsFoo", impl_block("WasmFoo", vec![attr], false, vec![]));
    assert!(output.contains("js_name = Bar , typescript_type = Bar"), "Output: {output}");
}

#[test]
fn invalid_js_class_is_refused() {
    let args = RefgenArgs { js_ref: "JsFoo".to_string() };
    match wasm_refgen_impl(&args, &impl_block("WasmFoo", vec![js_class_attr("not an ident")], false, vec![])) {
        Err(e) => {
            assert!(matches!(e, RefgenError::InvalidJsClass(ref s) if s == "not an ident"));
            assert_eq!(e.message(), "`not an ident` is not a valid Rust identifier");
        },
        Ok(o) => panic!("expected a refusal, got {o}"),
    }
}

#[test]
fn non_path_self_type_is_refused() {
    let mut block = foo_block();
    block.self_ty_last = None;
    let args = RefgenArgs { js_ref: "JsFoo".to_string() };
    assert!(matches!(wasm_refgen_impl(&args, &block), Err(RefgenError::NotSimpleType)));
}

#[test]
fn refgen_argument_parsing() {
    let ok = parse_refgen_args(&js_ref_tokens("JsFoo")).ok().expect("must parse");
    assert_eq!(ok.js_ref, "JsFoo");
    let mut with_comma = js_ref_tokens("JsA");
    with_comma.push(TokenModel::Punct(','));
    with_comma.extend(js_ref_tokens("JsB"));
    assert_eq!(parse_refgen_args(&with_comma).ok().expect("must parse").js_ref, "JsB");
    assert_eq!(parse_refgen_args(&vec![]).err(), Some(RefgenArgsError::MissingJsRef));
    let unknown = vec![TokenModel::Ident("ts".to_string()), TokenModel::Punct('='), TokenModel::Ident("X".to_string())];
    assert_eq!(parse_refgen_args(&unknown).err(), Some(RefgenArgsError::UnknownArg(0)));
    let no_eq = vec![TokenModel::Ident("js_ref".to_string()), TokenModel::Ident("X".to_string())];
    assert_eq!(parse_refgen_args(&no_eq).err(), Some(RefgenArgsError::ExpectedEq(1)));
    let keyword_value = vec![TokenModel::Ident("js_ref".to_string()), TokenModel::Punct('='), TokenModel::Ident("fn".to_string())];
    assert_eq!(parse_refgen_args(&keyword_value).err(), Some(RefgenArgsError::FoundKeyword(2, "fn".to_string())));
    let literal_key = vec![TokenModel::Other];
    assert_eq!(parse_refgen_args(&literal_key).err(), Some(RefgenArgsError::ExpectedIdent(0)));
    let output = norm(&wasm_refgen(&unknown, &foo_block()).expect("arguments are refused first"));
    assert!(output.contains("unknown arg; expected `js_ref` or `ts`"), "Output: {output}");
}

#[test]
fn raw_js_class_cannot_be_expanded() {
    let raw = impl_block("WasmFoo", vec![js_class_attr("r#Foo")], false, vec![]);
    assert!(wasm_refgen(&js_ref_tokens("JsFoo"), &raw).is_none());
    // A value that parses as an identifier only thanks to white space or a
    // comment around it cannot be made into one either.
    for padded in [" Foo", "Foo // x", "Foo/*x*/", "\tFoo\n"] {
        let block = impl_block("WasmFoo", vec![js_class_attr(padded)], false, vec![]);
        assert!(wasm_refgen(&js_ref_tokens("JsFoo"), &block).is_none(), "{padded:?}");
    }
    // A raw value that is not an identifier at all is refused as usual.
    let not_ident = impl_block("WasmFoo", vec![js_class_attr("r#1")], false, vec![]);
    let output = norm(&wasm_refgen(&js_ref_tokens("JsFoo"), &not_ident).expect("refused, not raw"));
    assert!(output.contains("`r#1` is not a valid Rust identifier"), "Output: {output}");
    // Bad arguments are reported before the block is looked at.
    let bad_args = vec![TokenModel::Other];
    let output = norm(&wasm_refgen(&bad_args, &raw).expect("arguments are refused first"));
    assert!(output.contains("expected identifier"), "Output: {output}");
}

#[test]
fn refgen_argument_messages_follow_the_parser() {
    let keyword = vec![TokenModel::Ident("js_ref".to_string()), TokenModel::Punct('='), TokenModel::Ident("fn".to_string())];
    assert_eq!(parse_refgen_args(&keyword).err().unwrap().message(), "expected identifier, found keyword `fn`");
    let no_value = vec![TokenModel::Ident("js_ref".to_string()), TokenModel::Punct('=')];
    let e = parse_refgen_args(&no_value).err().unwrap();
    assert_eq!(e, RefgenArgsError::EndExpectedIdent);
    assert_eq!(e.message(), "unexpected end of input, expected identifier");
    let no_eq = vec![TokenModel::Ident("js_ref".to_string())];
    let e = parse_refgen_args(&no_eq).err().unwrap();
    assert_eq!(e, RefgenArgsError::ExpectedEq(1));
    assert_eq!(e.message(), "expected `=`");
    let literal = vec![TokenModel::Other];
    assert_eq!(parse_refgen_args(&literal).err().unwrap().message(), "expected identifier");
}
