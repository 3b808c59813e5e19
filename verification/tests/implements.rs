use wasm_utils::implements::{wasm_implements, wasm_implements_impl, ImplementsError, TraitPathModel};
use wasm_utils::model::{AttrForm, ArgModel, AttrModel, ExprModel, ImplFnModel, ImplItemModel, ImplModel, MetaKind, MetaModel, ReturnModel, SigModel, TypeShape};
use wasm_utils::naming::{tag_method_js_name, tag_method_rust_ident};

fn norm(text: &str) -> String {
    text.parse::<proc_macro2::TokenStream>().expect("expansion must be valid tokens").to_string()
}

fn path(name: &str) -> TypeShape {
    TypeShape::Path { last: Some(name.to_string()), angle: None }
}

fn recv() -> ArgModel {
    ArgModel::Receiver { reference: true, mutable: false, text: "&self".to_string() }
}

fn typed(name: &str, ty: &str) -> ArgModel {
    ArgModel::Typed {
        pat_text: name.to_string(),
        pat_ident: Some(name.to_string()),
        ty_text: ty.to_string(),
        ty: path(ty),
        text: format!("{name}: {ty}"),
    }
}

fn sig(ident: &str, is_async: bool, inputs: Vec<ArgModel>, out: Option<&str>) -> SigModel {
    SigModel {
        constness: false,
        is_async,
        unsafety: false,
        abi: String::new(),
        ident: ident.to_string(),
        generics: String::new(),
        inputs,
        trailing_comma: false,
        variadic: String::new(),
        output: match out {
            None => ReturnModel::Default,
            Some(t) => ReturnModel::Type { text: t.to_string(), shape: path(t) },
        },
        where_clause: String::new(),
    }
}

fn js_name_attr(value: &str) -> AttrModel {
    AttrModel {
        form: AttrForm::List,
        name: Some("wasm_bindgen".to_string()),
        args: Some(vec![MetaModel {
            key: Some("js_name".to_string()),
            kind: MetaKind::NameValue(ExprModel::StrLit(value.to_string())),
            text: format!("js_name = {value:?}"),
        }]),
        tokens: vec![],
        text: format!("#[wasm_bindgen(js_name = {value:?})]"),
    }
}

fn method(is_pub: bool, attrs: Vec<AttrModel>, s: SigModel, body: &str) -> ImplItemModel {
    let attr_text: Vec<String> = attrs.iter().map(|a| a.text.clone()).collect();
    let vis = if is_pub { "pub " } else { "" };
    let text = format!("{} {vis}{} {{ {body} }}", attr_text.join(" "), render(&s));
    ImplItemModel { text, func: Some(ImplFnModel { is_pub, attrs, sig: s }) }
}

fn render(s: &SigModel) -> String {
    wasm_utils::method::render_signature(s)
}

fn block(items: Vec<ImplItemModel>, is_trait_impl: bool) -> ImplModel {
    ImplModel {
        is_trait_impl,
        head: if is_trait_impl { "impl SomeTrait for WasmFoo".to_string() } else { "impl WasmFoo".to_string() },
        inner_attrs: String::new(),
        attrs: vec![],
        self_ty: "WasmFoo".to_string(),
        self_ty_last: Some("WasmFoo".to_string()),
        items,
    }
}

fn trait_path(text: &str) -> TraitPathModel {
    let last = text.rsplit("::").next().map(|s| s.to_string());
    let prefix = text[..text.len() - last.as_deref().unwrap_or("").len()].to_string();
    TraitPathModel { text: text.to_string(), last, prefix }
}

fn js_put(attrs: Vec<AttrModel>) -> ImplItemModel {
    method(true, attrs, sig("js_put", false, vec![recv(), typed("value", "u32")], Some("u32")), "value")
}

fn expand(path_text: &str, items: Vec<ImplItemModel>) -> String {
    norm(&wasm_implements(&trait_path(path_text), &block(items, false)))
}

fn witness(output: &str) -> String {
    let start = output.find("const _ : () =").expect("must have witness");
    output[start..].to_string()
}

#[test]
fn generates_tag_method() {
    let output = expand("Transport", vec![js_put(vec![])]);
    assert!(output.contains("__wasm_impl_transport"), "must inject the runtime tag method.\nOutput: {output}");
    assert!(output.contains("__wasm_impl_Transport"), "must generate the JS-side tag name.\nOutput: {output}");
}

#[test]
fn generates_witness_impl() {
    let output = expand("Transport", vec![js_put(vec![])]);
    assert!(output.contains("impl Transport for WasmFoo"), "must generate a witness trait impl.\nOutput: {output}");
    assert!(output.contains("const _ : () ="), "witness must be inside const _: ().\nOutput: {output}");
}

#[test]
fn witness_delegates_to_inherent_method() {
    let output = expand("Transport", vec![js_put(vec![])]);
    assert!(
        output.contains("WasmFoo :: js_put (self , value)")
            || output.contains("WasmFoo :: js_put(self, value)")
            || output.contains("WasmFoo::js_put(self, value)"),
        "witness must delegate to the inherent method.\nOutput: {output}",
    );
}

#[test]
fn strips_wasm_bindgen_attrs_from_witness() {
    let output = expand("Transport", vec![js_put(vec![js_name_attr("put")])]);
    let witness_section = witness(&output);
    assert!(!witness_section.contains("wasm_bindgen"), "witness must NOT contain wasm_bindgen attrs.\nWitness: {witness_section}");
}

#[test]
fn async_method_becomes_rpitit_in_witness() {
    let item = method(true, vec![], sig("js_send", true, vec![recv(), typed("data", "u32")], Some("u32")), "data");
    let output = expand("Transport", vec![item]);
    let witness_section = witness(&output);
    assert!(witness_section.contains("Future"), "async methods in witness must use RPITIT (impl Future).\nWitness: {witness_section}");
    assert!(!witness_section.contains("async"), "witness must NOT contain async keyword.\nWitness: {witness_section}");
}

#[test]
fn preserves_original_impl_block() {
    let output = expand("Transport", vec![js_put(vec![js_name_attr("put")])]);
    let impl_pos = output.find("impl WasmFoo").expect("must have original impl");
    let witness_pos = output.find("const _ : () =").expect("must have witness");
    assert!(impl_pos < witness_pos, "original impl must come before the witness.\nOutput: {output}");
}

#[test]
fn static_method_delegates_without_self() {
    let item = method(true, vec![], sig("js_create", false, vec![typed("name", "u32")], Some("u32")), "name");
    let output = expand("Factory", vec![item]);
    let witness_section = witness(&output);
    assert!(
        witness_section.contains("WasmFoo :: js_create (name)")
            || witness_section.contains("WasmFoo :: js_create(name)")
            || witness_section.contains("WasmFoo::js_create(name)"),
        "static methods must delegate without self.\nWitness: {witness_section}",
    );
}

#[test]
fn supports_module_path_trait() {
    let output = expand("my_module::Transport", vec![js_put(vec![])]);
    assert!(
        output.contains("impl my_module :: Transport for WasmFoo") || output.contains("impl my_module::Transport for WasmFoo"),
        "must support module-qualified trait paths.\nOutput: {output}",
    );
    assert!(output.contains("__wasm_impl_transport"), "tag must use the last segment of the trait path.\nOutput: {output}");
}

#[test]
fn wasm_implements_error_on_trait_impl() {
    let item = method(false, vec![], sig("js_put", false, vec![recv()], None), "");
    let output = norm(&wasm_implements(&trait_path("Transport"), &block(vec![item], true)));
    assert!(output.contains("compile_error"), "trait impl must produce a compile error.\nOutput: {output}");
}

#[test]
fn ignores_private_methods() {
    let private = method(false, vec![], sig("private_helper", false, vec![recv()], Some("u32")), "42");
    let output = expand("Transport", vec![js_put(vec![]), private]);
    let witness_section = witness(&output);
    assert!(!witness_section.contains("private_helper"), "witness must not include private methods.\nWitness: {witness_section}");
    assert!(witness_section.contains("js_put"), "witness must include public methods.\nWitness: {witness_section}");
}

// Further cases.

#[test]
fn tag_names() {
    assert_eq!(tag_method_rust_ident("Transport"), "__wasm_impl_transport");
    assert_eq!(tag_method_rust_ident("DocStorage"), "__wasm_impl_doc_storage");
    assert_eq!(tag_method_js_name("DocStorage"), "__wasm_impl_DocStorage");
}

#[test]
fn empty_path_is_refused() {
    let path = TraitPathModel { text: String::new(), last: None, prefix: String::new() };
    assert_eq!(wasm_implements_impl(&path, &block(vec![], false)).err(), Some(ImplementsError::EmptyPath));
    assert_eq!(ImplementsError::EmptyPath.message(), "#[wasm_implements] requires a trait path");
}

#[test]
fn tag_method_is_appended_to_block() {
    let output = expand("Transport", vec![js_put(vec![])]);
    assert!(
        output.contains("# [wasm_bindgen (js_name = \"__wasm_impl_Transport\")] pub fn __wasm_impl_transport (& self) -> bool { true }"),
        "Output: {output}"
    );
    let witness_pos = output.find("const _ : () =").unwrap();
    let tag_pos = output.find("pub fn __wasm_impl_transport").unwrap();
    assert!(tag_pos < witness_pos);
}
