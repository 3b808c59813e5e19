use wasm_utils::js_trait::{
    js_trait, js_trait_impl, parse_js_trait_args, trait_has_raw_name, JsTraitArgs, JsTraitArgsError, JsTraitError, NameValueModel, TraitFnModel,
    TraitItemModel, TraitModel,
};
use wasm_utils::model::{AttrForm, ArgModel, AttrModel, ExprModel, FirstArg, MetaKind, MetaModel, ReturnModel, SigModel, TypeShape};

fn norm(text: &str) -> String {
    text.parse::<proc_macro2::TokenStream>().expect("expansion must be valid tokens").to_string()
}

fn path(name: &str) -> TypeShape {
    TypeShape::Path { last: Some(name.to_string()), angle: None }
}

fn result_of(ok: TypeShape) -> TypeShape {
    TypeShape::Path { last: Some("Result".to_string()), angle: Some(FirstArg::Type(Box::new(ok))) }
}

fn recv(mutable: bool) -> ArgModel {
    ArgModel::Receiver {
        reference: true,
        mutable,
        text: if mutable { "&mut self".to_string() } else { "&self".to_string() },
    }
}

fn typed(name: &str, ty: &str, shape: TypeShape) -> ArgModel {
    ArgModel::Typed {
        pat_text: name.to_string(),
        pat_ident: Some(name.to_string()),
        ty_text: ty.to_string(),
        ty: shape,
        text: format!("{name}: {ty}"),
    }
}

fn ret(text: &str, shape: TypeShape) -> ReturnModel {
    ReturnModel::Type { text: text.to_string(), shape }
}

fn sig(ident: &str, is_async: bool, inputs: Vec<ArgModel>, output: ReturnModel) -> SigModel {
    SigModel {
        constness: false,
        is_async,
        unsafety: false,
        abi: String::new(),
        ident: ident.to_string(),
        generics: String::new(),
        inputs,
        trailing_comma: false,
        variadic: String::new(),
        output,
        where_clause: String::new(),
    }
}

fn wb_attr(metas: Vec<(&str, MetaKind, &str)>) -> AttrModel {
    let texts: Vec<String> = metas.iter().map(|m| m.2.to_string()).collect();
    AttrModel {
        form: AttrForm::List,
        name: Some("wasm_bindgen".to_string()),
        args: Some(
            metas
                .into_iter()
                .map(|(k, kind, text)| MetaModel { key: Some(k.to_string()), kind, text: text.to_string() })
                .collect(),
        ),
        tokens: vec![],
        text: format!("#[wasm_bindgen({})]", texts.join(", ")),
    }
}

fn js_name(value: &str) -> AttrModel {
    wb_attr(vec![("js_name", MetaKind::NameValue(ExprModel::StrLit(value.to_string())), &format!("js_name = {value:?}"))])
}

fn func(attrs: Vec<AttrModel>, s: SigModel) -> TraitItemModel {
    TraitItemModel::Fn(TraitFnModel { attrs, sig: s })
}

fn tr(name: &str, has_generics: bool, items: Vec<TraitItemModel>) -> TraitModel {
    TraitModel {
        ident: name.to_string(),
        vis: "pub".to_string(),
        has_generics,
        attrs: vec![],
        supertraits: String::new(),
        items,
    }
}

fn ident_value(s: &str) -> ExprModel {
    ExprModel::Path { ident: Some(s.to_string()), last: Some(s.to_string()) }
}

fn args(js_type: &str, name: Option<&str>) -> Vec<NameValueModel> {
    let mut v = vec![NameValueModel { key: Some("js_type".to_string()), value: ident_value(js_type) }];
    if let Some(n) = name {
        v.push(NameValueModel { key: Some("js_name".to_string()), value: ident_value(n) });
    }
    v
}

fn expand(js_type: &str, name: Option<&str>, t: TraitModel) -> String {
    norm(&js_trait(&args(js_type, name), &t))
}

fn section(output: &str, start: &str, end: &str) -> String {
    let s = output.find(start).expect("start must be present");
    let e = output[s..].find(end).map(|i| i + s).unwrap_or(output.len());
    output[s..e].to_string()
}

fn js_put_sync() -> TraitItemModel {
    func(vec![], sig("js_put", false, vec![recv(false), typed("value", "u32", path("u32"))], ret("u32", path("u32"))))
}

fn js_save_async(with_value: bool) -> TraitItemModel {
    let mut inputs = vec![recv(false)];
    if with_value {
        inputs.push(typed("value", "u32", path("u32")));
    }
    func(vec![], sig("js_save", true, inputs, ret("Result<(), JsValue>", result_of(TypeShape::Unit))))
}

#[test]
fn generates_extern_type() {
    let t = tr("Transport", false, vec![func(vec![], sig("js_name", false, vec![recv(false)], ret("String", path("String"))))]);
    let output = expand("JsTransport", None, t);
    assert!(output.contains("type JsTransport"), "must generate extern type JsTransport.\nOutput: {output}");
    assert!(output.contains("typescript_type = \"Transport\""), "must set typescript_type to trait name.\nOutput: {output}");
}

#[test]
fn generates_typescript_interface() {
    let t = tr("Transport", false, vec![func(vec![js_name("getName")], sig("js_name", false, vec![recv(false)], ret("String", path("String"))))]);
    let output = expand("JsTransport", None, t);
    assert!(output.contains("export interface Transport"), "must generate TS interface named Transport.\nOutput: {output}");
    assert!(output.contains("getName"), "must use js_name in TS interface.\nOutput: {output}");
}

#[test]
fn js_trait_js_name_override() {
    let t = tr("Transport", false, vec![func(vec![], sig("js_name", false, vec![recv(false)], ret("String", path("String"))))]);
    let output = expand("JsTransport", Some("MyTransport"), t);
    assert!(output.contains("export interface MyTransport"), "must use js_name override for TS interface.\nOutput: {output}");
    assert!(output.contains("typescript_type = \"MyTransport\""), "must use js_name override for typescript_type.\nOutput: {output}");
}

#[test]
fn generates_trait_without_wasm_bindgen_attrs() {
    let t = tr(
        "Foo",
        false,
        vec![func(vec![js_name("put")], sig("js_put", false, vec![recv(false), typed("value", "u32", path("u32"))], ret("u32", path("u32"))))],
    );
    let output = expand("JsFoo", None, t);
    assert!(output.contains("pub trait Foo"), "must emit the Rust trait.\nOutput: {output}");
    let trait_section = section(&output, "pub trait Foo", "impl Foo for JsFoo");
    assert!(!trait_section.contains("wasm_bindgen"), "trait must not contain wasm_bindgen attrs.\nTrait section: {trait_section}");
}

#[test]
fn generates_impl_for_extern_type() {
    let output = expand("JsFoo", None, tr("Foo", false, vec![js_put_sync()]));
    assert!(output.contains("impl Foo for JsFoo"), "must generate impl Trait for ExternType.\nOutput: {output}");
}

#[test]
fn extern_fns_prefixed() {
    let output = expand("JsFoo", None, tr("Foo", false, vec![js_put_sync()]));
    assert!(output.contains("__wasm_trait_js_put"), "extern fns must be prefixed with __wasm_trait_.\nOutput: {output}");
}

#[test]
fn async_method_returns_promise_in_extern() {
    let output = expand("JsFoo", None, tr("Foo", false, vec![js_save_async(true)]));
    let extern_section = section(&output, "extern \"C\"", "pub trait");
    assert!(extern_section.contains("Promise"), "async extern fns must return Promise.\nExtern: {extern_section}");
}

#[test]
fn async_method_uses_rpitit_in_trait() {
    let output = expand("JsFoo", None, tr("Foo", false, vec![js_save_async(true)]));
    let trait_section = section(&output, "pub trait Foo", "impl Foo for JsFoo");
    assert!(trait_section.contains("Future"), "async trait methods must use RPITIT.\nTrait: {trait_section}");
    assert!(!trait_section.contains("async"), "trait must not have async keyword.\nTrait: {trait_section}");
}

#[test]
fn async_impl_wraps_with_jsfuture() {
    let output = expand("JsFoo", None, tr("Foo", false, vec![js_save_async(true)]));
    let impl_section = section(&output, "impl Foo for JsFoo", "\u{0}");
    assert!(impl_section.contains("JsFuture"), "async impl must use JsFuture.\nImpl: {impl_section}");
    assert!(impl_section.contains("unchecked_into"), "async impl must use unchecked_into for Err arm.\nImpl: {impl_section}");
}

#[test]
fn unit_ok_type_discards_value() {
    let output = expand("JsFoo", None, tr("Foo", false, vec![js_save_async(false)]));
    let impl_section = section(&output, "impl Foo for JsFoo", "\u{0}");
    assert!(
        impl_section.contains("Ok (())") || impl_section.contains("Ok(())"),
        "() Ok type must discard value with Ok(()).\nImpl: {impl_section}",
    );
}

#[test]
fn static_method_no_this() {
    let t = tr("Foo", false, vec![func(vec![], sig("js_create", false, vec![typed("name", "String", path("String"))], ret("u32", path("u32"))))]);
    let output = expand("JsFoo", None, t);
    let extern_section = section(&output, "extern \"C\"", "pub trait");
    assert!(!extern_section.contains("this"), "static methods must not have `this` parameter.\nExtern: {extern_section}");
    assert!(!extern_section.contains("method"), "static methods must not have `method` attr.\nExtern: {extern_section}");
}

#[test]
fn error_on_generic_trait() {
    let t = tr("Foo", true, vec![func(vec![], sig("js_put", false, vec![recv(false), typed("value", "T", path("T"))], ReturnModel::Default))]);
    let output = expand("JsFoo", None, t);
    assert!(output.contains("compile_error"), "generic traits must produce a compile error.\nOutput: {output}");
}

#[test]
fn error_on_async_without_result() {
    let t = tr("Foo", false, vec![func(vec![], sig("js_save", true, vec![recv(false), typed("value", "u32", path("u32"))], ret("u32", path("u32"))))]);
    let output = expand("JsFoo", None, t);
    assert!(output.contains("compile_error"), "async without Result must produce a compile error.\nOutput: {output}");
}

#[test]
fn error_on_mut_self() {
    let t = tr("Foo", false, vec![func(vec![], sig("js_put", false, vec![recv(true), typed("value", "u32", path("u32"))], ReturnModel::Default))]);
    let output = expand("JsFoo", None, t);
    assert!(output.contains("compile_error"), "&mut self must produce a compile error.\nOutput: {output}");
}

#[test]
fn ts_maps_precise_types() {
    let t = tr(
        "Foo",
        false,
        vec![func(
            vec![js_name("save")],
            sig(
                "js_save",
                true,
                vec![recv(false), typed("bytes", "Uint8Array", path("Uint8Array"))],
                ret("Result<Uint8Array, JsValue>", result_of(path("Uint8Array"))),
            ),
        )],
    );
    let output = expand("JsFoo", None, t);
    assert!(
        output.contains("Promise<Uint8Array>"),
        "async Result<Uint8Array, _> must map to Promise<Uint8Array> in TS.\nOutput: {output}",
    );
}

#[test]
fn ts_void_for_unit() {
    let t = tr(
        "Foo",
        false,
        vec![func(
            vec![js_name("send")],
            sig("js_send", true, vec![recv(false), typed("data", "u32", path("u32"))], ret("Result<(), JsValue>", result_of(TypeShape::Unit))),
        )],
    );
    let output = expand("JsFoo", None, t);
    assert!(output.contains("Promise<void>"), "async Result<(), _> must map to Promise<void> in TS.\nOutput: {output}");
}

#[test]
fn catch_forwarded_to_extern() {
    let attr = wb_attr(vec![
        ("catch", MetaKind::Path, "catch"),
        ("js_name", MetaKind::NameValue(ExprModel::StrLit("tryLoad".to_string())), "js_name = \"tryLoad\""),
    ]);
    let t = tr(
        "Foo",
        false,
        vec![func(
            vec![attr],
            sig("js_try_load", false, vec![recv(false), typed("key", "u32", path("u32"))], ret("Result<JsValue, JsValue>", result_of(path("JsValue")))),
        )],
    );
    let output = expand("JsFoo", None, t);
    let extern_section = section(&output, "extern \"C\"", "pub trait");
    assert!(extern_section.contains("catch"), "catch must be forwarded to extern fn.\nExtern: {extern_section}");
}

// Further cases.

#[test]
fn typescript_interface_text_is_exact() {
    let t = tr(
        "Storage",
        false,
        vec![
            func(
                vec![js_name("save")],
                sig(
                    "js_save",
                    true,
                    vec![recv(false), typed("key", "String", path("String")), typed("value", "JsValue", path("JsValue"))],
                    ret("Result<(), JsValue>", result_of(TypeShape::Unit)),
                ),
            ),
            func(vec![js_name("size")], sig("js_size", false, vec![recv(false)], ret("u32", path("u32")))),
            func(vec![], sig("js_close", false, vec![recv(false)], ReturnModel::Default)),
        ],
    );
    let output = expand("JsStorage", None, t);
    let expected = "\"export interface Storage {\\n    save(key: string, value: any): Promise<void>;\\n    size(): number;\\n    js_close(): void;\\n}\"";
    assert!(output.contains(expected), "Output: {output}");
    assert!(output.contains("const __WASM_TRAIT_TS_STORAGE : & str ="), "Output: {output}");
}

#[test]
fn extern_binding_shape() {
    let output = expand("JsFoo", None, tr("Foo", false, vec![js_save_async(true), js_put_sync()]));
    assert!(
        output.contains("# [wasm_bindgen (method)] fn __wasm_trait_js_save (this : & JsFoo , value : u32) -> :: js_sys :: Promise ;"),
        "Output: {output}"
    );
    assert!(
        output.contains("# [wasm_bindgen (method)] fn __wasm_trait_js_put (this : & JsFoo , value : u32) -> u32 ;"),
        "Output: {output}"
    );
    assert!(output.contains("fn js_put (& self , value : u32) -> u32 { __wasm_trait_js_put (self , value) }"), "Output: {output}");
}

#[test]
fn non_unit_ok_is_converted() {
    let t = tr(
        "Foo",
        false,
        vec![func(vec![], sig("js_load", true, vec![recv(false)], ret("Result<JsValue, JsValue>", result_of(path("JsValue")))))],
    );
    let output = expand("JsFoo", None, t);
    assert!(output.contains("Ok (__v) => :: core :: result :: Result :: Ok (:: wasm_bindgen :: JsCast :: unchecked_into (__v))"), "Output: {output}");
}

#[test]
fn associated_items_are_refused() {
    let a = js_trait_impl(&JsTraitArgs { js_type: "JsFoo".to_string(), js_name: None }, &tr("Foo", false, vec![js_put_sync(), TraitItemModel::Type]));
    assert_eq!(a.err(), Some(JsTraitError::AssocType(1)));
    let c = js_trait_impl(&JsTraitArgs { js_type: "JsFoo".to_string(), js_name: None }, &tr("Foo", false, vec![TraitItemModel::Const]));
    assert_eq!(c.err(), Some(JsTraitError::AssocConst(0)));
    assert_eq!(JsTraitError::AssocConst(0).message(), "js_trait does not support associated constants");
}

#[test]
fn by_value_self_is_refused() {
    let owned = ArgModel::Receiver { reference: false, mutable: false, text: "self".to_string() };
    let t = tr("Foo", false, vec![js_put_sync(), func(vec![], sig("js_take", false, vec![owned], ReturnModel::Default))]);
    let r = js_trait_impl(&JsTraitArgs { js_type: "JsFoo".to_string(), js_name: None }, &t);
    assert_eq!(r.err(), Some(JsTraitError::BadReceiver(1)));
}

#[test]
fn supertraits_are_kept() {
    let mut t = tr("Foo", false, vec![js_put_sync()]);
    t.supertraits = "Clone".to_string();
    let output = expand("JsFoo", None, t);
    assert!(output.contains("pub trait Foo : Clone {"), "Output: {output}");
}

#[test]
fn js_trait_argument_parsing() {
    let parsed = parse_js_trait_args(&args("JsFoo", Some("Bar"))).ok().expect("must parse");
    assert_eq!(parsed.js_type, "JsFoo");
    assert_eq!(parsed.js_name.as_deref(), Some("Bar"));
    let with_string = vec![
        NameValueModel { key: Some("js_name".to_string()), value: ExprModel::StrLit("Iface".to_string()) },
        NameValueModel { key: Some("js_type".to_string()), value: ident_value("JsX") },
    ];
    let parsed = parse_js_trait_args(&with_string).ok().expect("must parse");
    assert_eq!(parsed.js_name.as_deref(), Some("Iface"));
    let missing = vec![NameValueModel { key: Some("js_name".to_string()), value: ident_value("X") }];
    assert!(matches!(parse_js_trait_args(&missing), Err(JsTraitArgsError::MissingJsType)));
    let unknown = vec![NameValueModel { key: Some("other".to_string()), value: ident_value("X") }];
    match parse_js_trait_args(&unknown) {
        Err(e) => assert_eq!(e.message(), "unknown attribute `other`, expected `js_type` or `js_name`"),
        Ok(_) => panic!("must be refused"),
    }
    let bad_type = vec![NameValueModel { key: Some("js_type".to_string()), value: ExprModel::StrLit("JsX".to_string()) }];
    assert!(matches!(parse_js_trait_args(&bad_type), Err(JsTraitArgsError::JsTypeNotIdent(0))));
    let long_name = vec![NameValueModel {
        key: Some("js_name".to_string()),
        value: ExprModel::Path { ident: None, last: Some("B".to_string()) },
    }];
    assert!(matches!(parse_js_trait_args(&long_name), Err(JsTraitArgsError::JsNameNotIdent(0))));
    let lit_name = vec![NameValueModel { key: Some("js_name".to_string()), value: ExprModel::OtherLit }];
    assert!(matches!(parse_js_trait_args(&lit_name), Err(JsTraitArgsError::JsNameBadValue(0))));
    let no_key = vec![NameValueModel { key: None, value: ident_value("X") }];
    assert!(matches!(parse_js_trait_args(&no_key), Err(JsTraitArgsError::ExpectedIdentifier(0))));
    let output = norm(&js_trait(&missing, &tr("Foo", false, vec![])));
    assert!(output.contains("js_trait requires `js_type = Identifier`"), "Output: {output}");
}

#[test]
fn raw_names_are_detected() {
    let plain = tr("Storage", false, vec![func(vec![], sig("js_save", false, vec![recv(false)], ReturnModel::Default))]);
    assert!(!trait_has_raw_name(&plain));
    let raw_method = tr("Storage", false, vec![
        func(vec![], sig("js_save", false, vec![recv(false)], ReturnModel::Default)),
        func(vec![], sig("r#type", false, vec![recv(false)], ReturnModel::Default)),
    ]);
    assert!(trait_has_raw_name(&raw_method));
    assert!(trait_has_raw_name(&tr("r#Storage", false, vec![])));
}

#[test]
fn last_js_type_pair_wins() {
    let pairs = vec![
        NameValueModel { key: Some("js_type".to_string()), value: ident_value("JsFirst") },
        NameValueModel { key: Some("js_name".to_string()), value: ExprModel::StrLit("Iface".to_string()) },
        NameValueModel { key: Some("js_type".to_string()), value: ident_value("JsSecond") },
    ];
    let a = parse_js_trait_args(&pairs).ok().expect("accepted");
    assert_eq!(a.js_type, "JsSecond");
    assert_eq!(a.js_name.as_deref(), Some("Iface"));
    let only_type = parse_js_trait_args(&args("JsOnly", None)).ok().expect("accepted");
    assert_eq!(only_type.js_name, None);
    assert!(matches!(parse_js_trait_args(&vec![]), Err(JsTraitArgsError::MissingJsType)));
}
