use wasm_utils::attrs::{
    collect_wb_meta, extract_js_name_from_attrs, find_js_class, is_wasm_bindgen, meta_value_as_string, strip_wasm_bindgen,
};
use wasm_utils::method::{
    arg_names, arg_pats_and_types, has_self_receiver, is_pub, pat_ident_name, render_rpitit_signature, render_signature,
    to_rpitit_signature,
};
use wasm_utils::model::{AttrForm, ArgModel, AttrModel, ExprModel, ImplFnModel, MetaKind, MetaModel, ReturnModel, SigModel, TypeShape};
use wasm_utils::naming::{extern_fn_ident, is_raw_exec, js_interface_const_ident};
use wasm_utils::strings::string_literal;

fn norm(text: &str) -> String {
    text.parse::<proc_macro2::TokenStream>().expect("must be valid tokens").to_string()
}

fn meta(key: &str, kind: MetaKind, text: &str) -> MetaModel {
    MetaModel { key: Some(key.to_string()), kind, text: text.to_string() }
}

fn attr(name: &str, args: Option<Vec<MetaModel>>, text: &str) -> AttrModel {
    AttrModel { form: AttrForm::List, name: Some(name.to_string()), args, tokens: vec![], text: text.to_string() }
}

fn typed(name: &str, ty: &str) -> ArgModel {
    ArgModel::Typed {
        pat_text: name.to_string(),
        pat_ident: Some(name.to_string()),
        ty_text: ty.to_string(),
        ty: TypeShape::Path { last: Some(ty.to_string()), angle: None },
        text: format!("{name}: {ty}"),
    }
}

fn sig(is_async: bool, inputs: Vec<ArgModel>, output: ReturnModel) -> SigModel {
    SigModel {
        constness: false,
        is_async,
        unsafety: false,
        abi: String::new(),
        ident: "foo".to_string(),
        generics: String::new(),
        inputs,
        trailing_comma: false,
        variadic: String::new(),
        output,
        where_clause: String::new(),
    }
}

#[test]
fn wasm_bindgen_attrs_are_recognised_and_stripped() {
    let attrs = vec![
        attr("doc", None, "#[doc = \"x\"]"),
        attr("wasm_bindgen", Some(vec![meta("js_name", MetaKind::NameValue(ExprModel::StrLit("a".to_string())), "js_name = \"a\"")]), "#[wasm_bindgen(js_name = \"a\")]"),
        attr("inline", None, "#[inline]"),
    ];
    assert!(!is_wasm_bindgen(&attrs[0]));
    assert!(is_wasm_bindgen(&attrs[1]));
    let kept: Vec<String> = strip_wasm_bindgen(&attrs).iter().map(|a| a.text.clone()).collect();
    assert_eq!(kept, vec!["#[doc = \"x\"]".to_string(), "#[inline]".to_string()]);
    assert_eq!(extract_js_name_from_attrs(&attrs).as_deref(), Some("a"));
    assert_eq!(collect_wb_meta(&attrs), vec!["js_name = \"a\"".to_string()]);
}

#[test]
fn js_name_lookup_skips_non_strings_and_unparsed() {
    let attrs = vec![
        attr("wasm_bindgen", None, "#[wasm_bindgen = 1]"),
        attr("wasm_bindgen", Some(vec![meta("js_name", MetaKind::NameValue(ExprModel::OtherLit), "js_name = 1")]), ""),
        attr("other", Some(vec![meta("js_name", MetaKind::NameValue(ExprModel::StrLit("no".to_string())), "")]), ""),
        attr("wasm_bindgen", Some(vec![meta("catch", MetaKind::Path, "catch"), meta("js_name", MetaKind::NameValue(ExprModel::StrLit("yes".to_string())), "")]), ""),
    ];
    assert_eq!(extract_js_name_from_attrs(&attrs).as_deref(), Some("yes"));
    assert_eq!(extract_js_name_from_attrs(&vec![]), None);
}

#[test]
fn js_class_lookup() {
    let path_value = ExprModel::Path { ident: None, last: Some("Leaf".to_string()) };
    let attrs = vec![
        attr("wasm_bindgen", Some(vec![meta("js_class", MetaKind::NameValue(ExprModel::OtherLit), "")]), ""),
        attr("wasm_bindgen", Some(vec![meta("js_class", MetaKind::NameValue(path_value), "")]), ""),
    ];
    assert_eq!(find_js_class(&attrs).as_deref(), Some("Leaf"));
    assert_eq!(meta_value_as_string(&meta("k", MetaKind::Path, "k")), None);
}

#[test]
fn argument_helpers() {
    let receiver = ArgModel::Receiver { reference: true, mutable: false, text: "&self".to_string() };
    let s = sig(false, vec![receiver.clone(), typed("a", "u32"), typed("b", "String")], ReturnModel::Default);
    assert!(has_self_receiver(&s));
    assert_eq!(arg_names(&s), vec!["a".to_string(), "b".to_string()]);
    assert_eq!(arg_pats_and_types(&s).len(), 2);
    assert_eq!(pat_ident_name(&s.inputs[1]).as_deref(), Some("a"));
    assert_eq!(pat_ident_name(&receiver), None);
    let no_self = sig(false, vec![typed("a", "u32")], ReturnModel::Default);
    assert!(!has_self_receiver(&no_self));
    let f = ImplFnModel { is_pub: true, attrs: vec![], sig: no_self };
    assert!(is_pub(&f));
}

#[test]
fn rpitit_rewrite() {
    let receiver = ArgModel::Receiver { reference: true, mutable: false, text: "&self".to_string() };
    let s = sig(true, vec![receiver, typed("x", "T")], ReturnModel::Type { text: "R".to_string(), shape: TypeShape::Other });
    assert_eq!(norm(&render_signature(&s)), "async fn foo (& self , x : T) -> R");
    let r = to_rpitit_signature(&s);
    assert!(!r.is_async);
    let expected = "fn foo (& self , x : T) -> impl :: core :: future :: Future < Output = R > + '_";
    assert_eq!(norm(&render_signature(&r)), expected);
    assert_eq!(norm(&render_rpitit_signature(&s)), expected);
    let twice = to_rpitit_signature(&r);
    assert_eq!(render_signature(&twice), render_signature(&r));
    let unit = sig(true, vec![], ReturnModel::Default);
    assert_eq!(norm(&render_rpitit_signature(&unit)), "fn foo () -> impl :: core :: future :: Future < Output = () > + '_");
    let sync = sig(false, vec![typed("x", "T")], ReturnModel::Default);
    assert_eq!(render_rpitit_signature(&sync), render_signature(&sync));
}

#[test]
fn signature_qualifiers_and_variadic() {
    let mut s = sig(false, vec![typed("x", "i32")], ReturnModel::Default);
    s.unsafety = true;
    s.abi = "extern \"C\"".to_string();
    s.variadic = "...".to_string();
    s.generics = "<T>".to_string();
    s.where_clause = "where T: Copy".to_string();
    assert_eq!(norm(&render_signature(&s)), "unsafe extern \"C\" fn foo < T > (x : i32 , ...) where T : Copy");
    s.trailing_comma = true;
    assert_eq!(norm(&render_signature(&s)), "unsafe extern \"C\" fn foo < T > (x : i32 , ...) where T : Copy");
}

#[test]
fn names_and_literals() {
    assert_eq!(extern_fn_ident("js_send_bytes"), "__wasm_trait_js_send_bytes");
    assert_eq!(js_interface_const_ident("Transport"), "__JS_INTERFACE_TRANSPORT");
    assert_eq!(js_interface_const_ident("DocStorage"), "__JS_INTERFACE_DOC_STORAGE");
    assert_eq!(string_literal("a\"b\\c\n\r\t\0é"), "\"a\\\"b\\\\c\\n\\r\\t\\0é\"");
    let lit: proc_macro2::Literal = syn::parse_str::<syn::LitStr>(&string_literal("x\"y\nz")).map(|l| l.token()).unwrap();
    let parsed: syn::LitStr = syn::parse_str(&lit.to_string()).unwrap();
    assert_eq!(parsed.value(), "x\"y\nz");
}

#[test]
fn raw_identifiers_are_recognised() {
    assert!(is_raw_exec("r#type"));
    assert!(is_raw_exec("r#Foo"));
    assert!(!is_raw_exec("type"));
    assert!(!is_raw_exec("r"));
    assert!(!is_raw_exec("rust"));
    assert!(!is_raw_exec(""));
}

#[test]
fn argument_names_drop_binding_modes() {
    let receiver = ArgModel::Receiver { reference: true, mutable: false, text: "&self".to_string() };
    let mut value = typed("value", "JsValue");
    if let ArgModel::Typed { pat_text, text, .. } = &mut value {
        *pat_text = "mut value".to_string();
        *text = "mut value: JsValue".to_string();
    }
    let tuple = ArgModel::Typed {
        pat_text: "(a, b)".to_string(),
        pat_ident: None,
        ty_text: "(u32, u32)".to_string(),
        ty: TypeShape::Other,
        text: "(a, b): (u32, u32)".to_string(),
    };
    let s = sig(false, vec![receiver, typed("key", "JsValue"), value, tuple], ReturnModel::Default);
    assert_eq!(arg_names(&s), vec!["key".to_string(), "value".to_string(), "(a, b)".to_string()]);
}

#[test]
fn forwarded_metas_concatenate_in_order() {
    let attrs = vec![
        attr("doc", None, "#[doc = \"x\"]"),
        attr(
            "wasm_bindgen",
            Some(vec![
                meta("catch", MetaKind::Path, "catch"),
                meta("js_name", MetaKind::NameValue(ExprModel::StrLit("tryLoad".to_string())), "js_name = \"tryLoad\""),
            ]),
            "#[wasm_bindgen(catch, js_name = \"tryLoad\")]",
        ),
        attr("wasm_bindgen", None, "#[wasm_bindgen]"),
        attr("wasm_bindgen", Some(vec![meta("method", MetaKind::Path, "method")]), "#[wasm_bindgen(method)]"),
    ];
    assert_eq!(
        collect_wb_meta(&attrs),
        vec!["catch".to_string(), "js_name = \"tryLoad\"".to_string(), "method".to_string()]
    );
}

#[test]
fn js_class_is_first_usable_item() {
    let attrs = vec![
        attr("doc", None, "#[doc = \"x\"]"),
        attr(
            "wasm_bindgen",
            Some(vec![
                meta("js_name", MetaKind::NameValue(ExprModel::StrLit("Bar".to_string())), "js_name = \"Bar\""),
                meta("js_class", MetaKind::NameValue(ExprModel::StrLit("Foo".to_string())), "js_class = \"Foo\""),
            ]),
            "#[wasm_bindgen(js_name = \"Bar\", js_class = \"Foo\")]",
        ),
        attr(
            "wasm_bindgen",
            Some(vec![meta("js_class", MetaKind::NameValue(ExprModel::StrLit("Later".to_string())), "js_class = \"Later\"")]),
            "#[wasm_bindgen(js_class = \"Later\")]",
        ),
    ];
    assert_eq!(find_js_class(&attrs).as_deref(), Some("Foo"));
    assert_eq!(find_js_class(&vec![attr("doc", None, "#[doc = \"x\"]")]), None);
}
