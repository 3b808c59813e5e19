//! `#[js_trait(js_type = JsTransport)]` on a trait definition: a TypeScript
//! interface, a hidden constant listing the JS method names, an
//! `extern "C"` block binding the JS methods, the Rust trait
//! itself (without `#[wasm_bindgen]` attributes, `async fn` as
//! `impl Future`), and `impl Trait for JsType` delegating to the bindings.
use vstd::prelude::*;
use crate::attrs::{
    clean_attrs_text, ident_is, collect_wb_meta, extract_js_name_from_attrs, js_name_in_attrs, render_clean_attrs,
    wb_meta_texts,
};
use crate::method::{
    arg_names, arg_names_of, has_receiver, typed_args, has_self_receiver, output_text, render_rpitit_signature, rpitit_sig_text,
};
use crate::model::{ArgModel, AttrModel, ExprModel, FirstArg, ReturnModel, SigModel, TypeShape};
use crate::naming::{extern_fn_ident, extern_fn_name, is_raw, is_raw_exec, js_interface_const_ident, js_interface_const_name, shouty_snake_case_of, to_uppercase, uppercase_of};
use crate::strings::{compile_error_text, contains_text, lemma_contains_middle, lemma_join_first, starts_with, join, join_strings, render_compile_error, str_eq, str_lit, string_literal, views};
use crate::ts_types::{async_return_to_ts, async_ts_of, rust_type_to_ts, sync_return_to_ts, sync_ts_of, ts_of};

verus! {

/// Parsed arguments of `#[js_trait(js_type = JsTransport, js_name = Transport)]`.
pub struct JsTraitArgs {
    /// Required: Rust name of the generated extern type.
    pub js_type: String,
    /// Optional: JS/TS interface name; the trait name when absent.
    pub js_name: Option<String>,
}

/// One `key = value` pair of the argument list.
pub struct NameValueModel {
    /// The key when it is a single identifier.
    pub key: Option<String>,
    pub value: ExprModel,
}

/// Why the argument list of `#[js_trait(...)]` is refused, with the index
/// of the pair at fault.
pub enum JsTraitArgsError {
    /// A key that is not a single identifier.
    ExpectedIdentifier(usize),
    /// `js_type` whose value is not a single identifier.
    JsTypeNotIdent(usize),
    /// `js_name` whose value is a path of more than one identifier.
    JsNameNotIdent(usize),
    /// `js_name` whose value is neither an identifier nor a string literal.
    JsNameBadValue(usize),
    /// A key other than `js_type` and `js_name`.
    UnknownKey(usize, String),
    /// No `js_type`.
    MissingJsType,
}

/// The message of each refusal of the argument list.
pub open spec fn args_error_message(e: JsTraitArgsError) -> Seq<char> {
    match e {
        JsTraitArgsError::ExpectedIdentifier(_) => "expected identifier"@,
        JsTraitArgsError::JsTypeNotIdent(_) => "js_type must be a simple identifier"@,
        JsTraitArgsError::JsNameNotIdent(_) => "js_name must be a simple identifier"@,
        JsTraitArgsError::JsNameBadValue(_) => "js_name must be an identifier or string literal"@,
        JsTraitArgsError::UnknownKey(_, k) => "unknown attribute `"@ + k@ + "`, expected `js_type` or `js_name`"@,
        JsTraitArgsError::MissingJsType => "js_trait requires `js_type = Identifier`"@,
    }
}

impl JsTraitArgsError {
    /// The message reported for this refusal.
    pub fn message(&self) -> (r: String)
        ensures
            r@ == args_error_message(*self),
    {
        match self {
            JsTraitArgsError::ExpectedIdentifier(_) => String::from_str("expected identifier"),
            JsTraitArgsError::JsTypeNotIdent(_) => String::from_str("js_type must be a simple identifier"),
            JsTraitArgsError::JsNameNotIdent(_) => String::from_str("js_name must be a simple identifier"),
            JsTraitArgsError::JsNameBadValue(_) => String::from_str("js_name must be an identifier or string literal"),
            JsTraitArgsError::UnknownKey(_, k) => String::from_str("unknown attribute `").concat(k.as_str()).concat(
                "`, expected `js_type` or `js_name`",
            ),
            JsTraitArgsError::MissingJsType => String::from_str("js_trait requires `js_type = Identifier`"),
        }
    }
}

/// Reads the pairs from index `i` on; for a repeated key the last one counts.
pub open spec fn parse_pairs(
    ps: Seq<NameValueModel>,
    i: int,
    js_type: Option<String>,
    js_name: Option<String>,
) -> Result<JsTraitArgs, JsTraitArgsError>
    decreases ps.len() - i,
{
    if i < 0 || i >= ps.len() {
        match js_type {
            None => Err(JsTraitArgsError::MissingJsType),
            Some(t) => Ok(JsTraitArgs { js_type: t, js_name }),
        }
    } else {
        match ps[i].key {
            None => Err(JsTraitArgsError::ExpectedIdentifier(i as usize)),
            Some(k) => if k@ == "js_type"@ {
                match ps[i].value {
                    ExprModel::Path { ident: Some(id), .. } => parse_pairs(ps, i + 1, Some(id), js_name),
                    _ => Err(JsTraitArgsError::JsTypeNotIdent(i as usize)),
                }
            } else if k@ == "js_name"@ {
                match ps[i].value {
                    ExprModel::Path { ident: Some(id), .. } => parse_pairs(ps, i + 1, js_type, Some(id)),
                    ExprModel::Path { ident: None, .. } => Err(JsTraitArgsError::JsNameNotIdent(i as usize)),
                    ExprModel::StrLit(s) => parse_pairs(ps, i + 1, js_type, Some(s)),
                    _ => Err(JsTraitArgsError::JsNameBadValue(i as usize)),
                }
            } else {
                Err(JsTraitArgsError::UnknownKey(i as usize, k))
            },
        }
    }
}

/// Parses the `key = value` pairs of `#[js_trait(...)]`.
pub fn parse_js_trait_args(pairs: &Vec<NameValueModel>) -> (r: Result<JsTraitArgs, JsTraitArgsError>)
    ensures
        r == parse_pairs(pairs@, 0, None, None),
{
    let mut js_type: Option<String> = None;
    let mut js_name: Option<String> = None;
    let mut i: usize = 0;
    while i < pairs.len()
        invariant
            i <= pairs.len(),
            parse_pairs(pairs@, 0, None, None) == parse_pairs(pairs@, i as int, js_type, js_name),
        decreases pairs.len() - i,
    {
        let p = &pairs[i];
        match &p.key {
            None => {
                return Err(JsTraitArgsError::ExpectedIdentifier(i));
            },
            Some(k) => {
                if str_eq(k.as_str(), "js_type") {
                    match &p.value {
                        ExprModel::Path { ident: Some(id), .. } => {
                            js_type = Some(id.clone());
                        },
                        _ => {
                            return Err(JsTraitArgsError::JsTypeNotIdent(i));
                        },
                    }
                } else if str_eq(k.as_str(), "js_name") {
                    match &p.value {
                        ExprModel::Path { ident: Some(id), .. } => {
                            js_name = Some(id.clone());
                        },
                        ExprModel::Path { ident: None, .. } => {
                            return Err(JsTraitArgsError::JsNameNotIdent(i));
                        },
                        ExprModel::StrLit(s) => {
                            js_name = Some(s.clone());
                        },
                        _ => {
                            return Err(JsTraitArgsError::JsNameBadValue(i));
                        },
                    }
                } else {
                    return Err(JsTraitArgsError::UnknownKey(i, k.clone()));
                }
            },
        }
        i = i + 1;
    }
    match js_type {
        None => Err(JsTraitArgsError::MissingJsType),
        Some(t) => Ok(JsTraitArgs { js_type: t, js_name }),
    }
}

/// A method declared in the trait.
pub struct TraitFnModel {
    pub attrs: Vec<AttrModel>,
    pub sig: SigModel,
}

/// An item of the trait.
pub enum TraitItemModel {
    Fn(TraitFnModel),
    /// An associated type.
    Type,
    /// An associated constant.
    Const,
    /// Anything else (a macro invocation, ...).
    Other,
}

/// The trait definition.
pub struct TraitModel {
    pub ident: String,
    /// The visibility text (`pub`, `pub(crate)`), or empty.
    pub vis: String,
    /// Whether the trait has generic parameters.
    pub has_generics: bool,
    /// The trait's attributes.
    pub attrs: Vec<AttrModel>,
    /// The supertrait bounds text, or empty.
    pub supertraits: String,
    pub items: Vec<TraitItemModel>,
}

/// Why `#[js_trait]` refuses a trait, with the index of the item at fault.
#[derive(Debug, Clone, Copy, PartialEq, Eq, Structural)]
pub enum JsTraitError {
    Generic,
    AssocType(usize),
    AssocConst(usize),
    AsyncWithoutResult(usize),
    BadReceiver(usize),
}

/// The message of each refusal.
pub open spec fn js_trait_error_message(e: JsTraitError) -> Seq<char> {
    match e {
        JsTraitError::Generic => "js_trait does not support generic traits"@,
        JsTraitError::AssocType(_) => "js_trait does not support associated types"@,
        JsTraitError::AssocConst(_) => "js_trait does not support associated constants"@,
        JsTraitError::AsyncWithoutResult(_) => "js_trait async methods must return Result (JS promises can reject)"@,
        JsTraitError::BadReceiver(_) => "js_trait methods must use `&self` or no receiver"@,
    }
}

impl JsTraitError {
    /// The message reported for this refusal.
    pub fn message(&self) -> (r: String)
        ensures
            r@ == js_trait_error_message(*self),
    {
        match self {
            JsTraitError::Generic => String::from_str("js_trait does not support generic traits"),
            JsTraitError::AssocType(_) => String::from_str("js_trait does not support associated types"),
            JsTraitError::AssocConst(_) => String::from_str("js_trait does not support associated constants"),
            JsTraitError::AsyncWithoutResult(_) => String::from_str(
                "js_trait async methods must return Result (JS promises can reject)",
            ),
            JsTraitError::BadReceiver(_) => String::from_str("js_trait methods must use `&self` or no receiver"),
        }
    }
}

/// Whether a return type is a path type whose last segment is `Result`.
pub open spec fn returns_result(out: ReturnModel) -> bool {
    match out {
        ReturnModel::Type { shape: TypeShape::Path { last: Some(n), .. }, .. } => n@ == "Result"@,
        _ => false,
    }
}

/// Whether a receiver other than `&self` occurs (`self`, `&mut self`, `self: T`).
pub open spec fn bad_receiver(inputs: Seq<ArgModel>) -> bool {
    exists|j: int| 0 <= j < inputs.len() && (#[trigger] inputs[j] matches ArgModel::Receiver { reference, mutable, .. }
        && (!reference || mutable))
}

/// The first associated type or constant from item `i` on.
pub open spec fn assoc_error(items: Seq<TraitItemModel>, i: int) -> Option<JsTraitError>
    decreases items.len() - i,
{
    if i < 0 || i >= items.len() {
        None
    } else {
        match items[i] {
            TraitItemModel::Type => Some(JsTraitError::AssocType(i as usize)),
            TraitItemModel::Const => Some(JsTraitError::AssocConst(i as usize)),
            _ => assoc_error(items, i + 1),
        }
    }
}

/// The first `async` method not returning `Result`, from item `i` on.
pub open spec fn async_error(items: Seq<TraitItemModel>, i: int) -> Option<JsTraitError>
    decreases items.len() - i,
{
    if i < 0 || i >= items.len() {
        None
    } else {
        match items[i] {
            TraitItemModel::Fn(f) => if f.sig.is_async && !returns_result(f.sig.output) {
                Some(JsTraitError::AsyncWithoutResult(i as usize))
            } else {
                async_error(items, i + 1)
            },
            _ => async_error(items, i + 1),
        }
    }
}

/// The first method with a receiver other than `&self`, from item `i` on.
pub open spec fn receiver_error(items: Seq<TraitItemModel>, i: int) -> Option<JsTraitError>
    decreases items.len() - i,
{
    if i < 0 || i >= items.len() {
        None
    } else {
        match items[i] {
            TraitItemModel::Fn(f) => if bad_receiver(f.sig.inputs@) {
                Some(JsTraitError::BadReceiver(i as usize))
            } else {
                receiver_error(items, i + 1)
            },
            _ => receiver_error(items, i + 1),
        }
    }
}

/// Why a trait is refused, checked in this order: generic parameters, then
/// associated types and constants, then `async` methods without `Result`,
/// then receivers other than `&self`.
pub open spec fn validation_error(t: TraitModel) -> Option<JsTraitError> {
    if t.has_generics {
        Some(JsTraitError::Generic)
    } else if assoc_error(t.items@, 0) is Some {
        assoc_error(t.items@, 0)
    } else if async_error(t.items@, 0) is Some {
        async_error(t.items@, 0)
    } else {
        receiver_error(t.items@, 0)
    }
}

fn returns_result_exec(out: &ReturnModel) -> (r: bool)
    ensures
        r == returns_result(*out),
{
    match out {
        ReturnModel::Type { shape: TypeShape::Path { last: Some(n), .. }, .. } => str_eq(n.as_str(), "Result"),
        _ => false,
    }
}

fn bad_receiver_exec(sig: &SigModel) -> (r: bool)
    ensures
        r == bad_receiver(sig.inputs@),
{
    let mut j: usize = 0;
    while j < sig.inputs.len()
        invariant
            j <= sig.inputs.len(),
            forall|k: int| 0 <= k < j ==> !(#[trigger] sig.inputs@[k] matches ArgModel::Receiver { reference, mutable, .. }
                && (!reference || mutable)),
        decreases sig.inputs.len() - j,
    {
        if let ArgModel::Receiver { reference, mutable, .. } = &sig.inputs[j] {
            if !*reference || *mutable {
                return true;
            }
        }
        j = j + 1;
    }
    false
}

/// Checks a trait against what `#[js_trait]` supports.
pub fn validate_trait(t: &TraitModel) -> (r: Option<JsTraitError>)
    ensures
        r == validation_error(*t),
{
    if t.has_generics {
        return Some(JsTraitError::Generic);
    }
    let n = t.items.len();
    let mut i: usize = 0;
    while i < n
        invariant
            n == t.items@.len(),
            i <= n,
            !t.has_generics,
            assoc_error(t.items@, 0) == assoc_error(t.items@, i as int),
        decreases n - i,
    {
        match &t.items[i] {
            TraitItemModel::Type => {
                return Some(JsTraitError::AssocType(i));
            },
            TraitItemModel::Const => {
                return Some(JsTraitError::AssocConst(i));
            },
            _ => {},
        }
        i = i + 1;
    }
    let mut i: usize = 0;
    while i < n
        invariant
            n == t.items@.len(),
            i <= n,
            !t.has_generics,
            assoc_error(t.items@, 0) is None,
            async_error(t.items@, 0) == async_error(t.items@, i as int),
        decreases n - i,
    {
        if let TraitItemModel::Fn(f) = &t.items[i] {
            if f.sig.is_async && !returns_result_exec(&f.sig.output) {
                return Some(JsTraitError::AsyncWithoutResult(i));
            }
        }
        i = i + 1;
    }
    let mut i: usize = 0;
    while i < n
        invariant
            n == t.items@.len(),
            i <= n,
            !t.has_generics,
            assoc_error(t.items@, 0) is None,
            async_error(t.items@, 0) is None,
            receiver_error(t.items@, 0) == receiver_error(t.items@, i as int),
        decreases n - i,
    {
        if let TraitItemModel::Fn(f) = &t.items[i] {
            if bad_receiver_exec(&f.sig) {
                return Some(JsTraitError::BadReceiver(i));
            }
        }
        i = i + 1;
    }
    None
}

/// The trait's methods, in order.
pub open spec fn fns_of(items: Seq<TraitItemModel>) -> Seq<TraitFnModel>
    decreases items.len(),
{
    if items.len() == 0 {
        Seq::<TraitFnModel>::empty()
    } else {
        let rest = fns_of(items.drop_last());
        match items.last() {
            TraitItemModel::Fn(f) => rest.push(f),
            _ => rest,
        }
    }
}

/// One parameter of the TypeScript method: its name (`_` for patterns that
/// are not identifiers) and its TypeScript type.
pub open spec fn ts_param(a: ArgModel) -> Seq<char> {
    match a {
        ArgModel::Typed { pat_ident, ty, .. } => (match pat_ident {
            Some(id) => id@,
            None => "_"@,
        }) + ": "@ + ts_of(ty),
        ArgModel::Receiver { .. } => Seq::<char>::empty(),
    }
}

/// The parameters of the TypeScript method (receivers omitted).
pub open spec fn ts_params(inputs: Seq<ArgModel>) -> Seq<Seq<char>>
    decreases inputs.len(),
{
    if inputs.len() == 0 {
        Seq::<Seq<char>>::empty()
    } else {
        let rest = ts_params(inputs.drop_last());
        match inputs.last() {
            ArgModel::Typed { .. } => rest.push(ts_param(inputs.last())),
            ArgModel::Receiver { .. } => rest,
        }
    }
}

/// The TypeScript return type of a method.
pub open spec fn ts_return(sig: SigModel) -> Seq<char> {
    if sig.is_async {
        match sig.output {
            ReturnModel::Type { shape, .. } => async_ts_of(shape),
            ReturnModel::Default => async_ts_of(TypeShape::Unit),
        }
    } else {
        sync_ts_of(sig.output)
    }
}

/// The JS name of a method: its `js_name`, else its Rust name.
pub open spec fn method_js_name(f: TraitFnModel) -> Seq<char> {
    match js_name_in_attrs(f.attrs@) {
        Some(n) => n@,
        None => f.sig.ident@,
    }
}

/// The line of the TypeScript interface for a method.
pub open spec fn ts_line(f: TraitFnModel) -> Seq<char> {
    "    "@ + method_js_name(f) + "("@ + join(ts_params(f.sig.inputs@), ", "@) + "): "@ + ts_return(f.sig) + ";"@
}

/// The JS/TS interface name: the `js_name` argument, else the trait name.
pub open spec fn interface_name(args: JsTraitArgs, t: TraitModel) -> Seq<char> {
    match args.js_name {
        Some(n) => n@,
        None => t.ident@,
    }
}

/// The name of the constant holding the TypeScript interface.
pub open spec fn ts_const_name(trait_name: Seq<char>) -> Seq<char> {
    "__WASM_TRAIT_TS_"@ + uppercase_of(trait_name)
}

/// One parameter of the extern fn: `this: &JsType` for the receiver.
pub open spec fn extern_param(a: ArgModel, js_type: Seq<char>) -> Seq<char> {
    match a {
        ArgModel::Receiver { .. } => "this: &"@ + js_type,
        ArgModel::Typed { pat_text, ty_text, .. } => pat_text@ + ": "@ + ty_text@,
    }
}

/// The `#[wasm_bindgen(...)]` items of the extern fn: `method` when the
/// method has a receiver, then the method's own items.
pub open spec fn extern_metas(f: TraitFnModel) -> Seq<Seq<char>> {
    (if has_receiver(f.sig.inputs@) { seq!["method"@] } else { Seq::<Seq<char>>::empty() }) + wb_meta_texts(f.attrs@)
}

/// The extern fn binding one method; `async` methods return a `Promise`.
pub open spec fn extern_fn_text(f: TraitFnModel, js_type: Seq<char>) -> Seq<char> {
    "#[wasm_bindgen("@ + join(extern_metas(f), ", "@) + ")] fn "@ + extern_fn_name(f.sig.ident@) + "("@
        + join(f.sig.inputs@.map_values(|a: ArgModel| extern_param(a, js_type)), ", "@) + ")"@
        + (if f.sig.is_async { " -> ::js_sys::Promise"@ } else { output_text(f.sig.output) }) + ";"@
}

/// The declaration of one method in the emitted trait.
pub open spec fn trait_method_text(f: TraitFnModel) -> Seq<char> {
    clean_attrs_text(f.attrs@) + " "@ + rpitit_sig_text(f.sig) + ";"@
}

/// Whether the `Ok` type of a method's result is `()` (which is also what
/// is assumed when the result is not written as `Result<...>`).
pub open spec fn ok_is_unit(out: ReturnModel) -> bool {
    match out {
        ReturnModel::Type { shape: TypeShape::Path { last: Some(n), angle: Some(fa) }, .. } => if n@ == "Result"@ {
            match fa {
                FirstArg::Missing => true,
                FirstArg::Type(b) => *b is Unit,
                FirstArg::NotAType => false,
            }
        } else {
            true
        },
        _ => true,
    }
}

/// The call of the extern fn for one method.
pub open spec fn extern_call(f: TraitFnModel) -> Seq<char> {
    extern_fn_name(f.sig.ident@) + "("@ + (if has_receiver(f.sig.inputs@) { "self, "@ } else { Seq::<char>::empty() })
        + join(arg_names_of(f.sig.inputs@), ", "@) + ")"@
}

/// The implementation of one method for the extern type: an `async` method
/// awaits the promise and converts both outcomes with `unchecked_into`
/// (dropping the value when the `Ok` type is `()`); any other method calls
/// the extern fn.
pub open spec fn impl_method_text(f: TraitFnModel) -> Seq<char> {
    if f.sig.is_async {
        rpitit_sig_text(f.sig) + " { async move { let __promise = "@ + extern_call(f)
            + "; match ::wasm_bindgen_futures::JsFuture::from(__promise).await { ::core::result::Result::Ok(__v) => "@
            + (if ok_is_unit(f.sig.output) {
                "::core::result::Result::Ok(())"@
            } else {
                "::core::result::Result::Ok(::wasm_bindgen::JsCast::unchecked_into(__v))"@
            })
            + ", ::core::result::Result::Err(__e) => { ::core::result::Result::Err(::wasm_bindgen::JsCast::unchecked_into(__e)) } } } }"@
    } else {
        rpitit_sig_text(f.sig) + " { "@ + extern_call(f) + " }"@
    }
}

/// The interface lines of all methods.
pub open spec fn ts_lines(fns: Seq<TraitFnModel>) -> Seq<Seq<char>> {
    fns.map_values(|f: TraitFnModel| ts_line(f))
}

/// The extern fns of all methods.
pub open spec fn extern_fn_texts(fns: Seq<TraitFnModel>, js_type: Seq<char>) -> Seq<Seq<char>> {
    fns.map_values(|f: TraitFnModel| extern_fn_text(f, js_type))
}

/// The trait declarations of all methods.
pub open spec fn trait_method_texts(fns: Seq<TraitFnModel>) -> Seq<Seq<char>> {
    fns.map_values(|f: TraitFnModel| trait_method_text(f))
}

/// The implementations of all methods.
pub open spec fn impl_method_texts(fns: Seq<TraitFnModel>) -> Seq<Seq<char>> {
    fns.map_values(|f: TraitFnModel| impl_method_text(f))
}

/// The constant holding the TypeScript interface.
pub open spec fn ts_section_text(t: TraitModel, name: Seq<char>, fns: Seq<TraitFnModel>) -> Seq<char> {
    "#[wasm_bindgen(typescript_custom_section)] const "@ + ts_const_name(t.ident@) + ": &str = "@
        + str_lit("export interface "@ + name + " {\n"@ + join(ts_lines(fns), "\n"@) + "\n}"@) + ";"@
}

/// The `extern "C"` block: the extern type and one binding per method.
pub open spec fn extern_block_text(t: TraitModel, name: Seq<char>, js_type: Seq<char>, fns: Seq<TraitFnModel>) -> Seq<char> {
    "#[wasm_bindgen] extern \"C\" { #[wasm_bindgen(typescript_type = "@ + str_lit(name) + ")] "@ + t.vis@
        + " type "@ + js_type + "; "@ + join(extern_fn_texts(fns, js_type), " "@) + " }"@
}

/// The emitted Rust trait.
pub open spec fn trait_block_text(t: TraitModel, fns: Seq<TraitFnModel>) -> Seq<char> {
    join(t.attrs@.map_values(|a: AttrModel| a.text@), " "@) + " "@ + t.vis@ + " trait "@ + t.ident@
        + (if t.supertraits@.len() == 0 { Seq::<char>::empty() } else { ": "@ + t.supertraits@ })
        + " { "@ + join(trait_method_texts(fns), " "@) + " }"@
}

/// `impl Trait for JsType`.
pub open spec fn impl_for_text(t: TraitModel, js_type: Seq<char>, fns: Seq<TraitFnModel>) -> Seq<char> {
    "impl "@ + t.ident@ + " for "@ + js_type + " { "@ + join(impl_method_texts(fns), " "@) + " }"@
}

/// The JS names of the methods, each written as a string literal.
pub open spec fn js_name_literals(fns: Seq<TraitFnModel>) -> Seq<Seq<char>> {
    fns.map_values(|f: TraitFnModel| str_lit(method_js_name(f)))
}

/// The hidden constant listing the JS method names that an implementation
/// of the interface must export, in the order of the trait.
pub open spec fn js_names_const_text(t: TraitModel, fns: Seq<TraitFnModel>) -> Seq<char> {
    "#[doc(hidden)] "@ + t.vis@ + " const "@ + js_interface_const_name(t.ident@) + ": &[&str] = &["@
        + join(js_name_literals(fns), ", "@) + "];"@
}

/// The whole expansion for a valid trait.
pub open spec fn js_trait_text(args: JsTraitArgs, t: TraitModel) -> Seq<char> {
    let fns = fns_of(t.items@);
    let name = interface_name(args, t);
    ts_section_text(t, name, fns) + " "@ + js_names_const_text(t, fns) + " "@
        + extern_block_text(t, name, args.js_type@, fns) + " "@
        + trait_block_text(t, fns) + " "@ + impl_for_text(t, args.js_type@, fns)
}

/// Whether the trait or one of its methods is named by a raw identifier
/// (`r#name`). The expansion builds the interface constants' names from the
/// trait's name and each extern fn's name from its method's name, and no
/// identifier can be built around a raw one.
pub open spec fn has_raw_name(t: TraitModel) -> bool {
    is_raw(t.ident@) || exists|k: int| 0 <= k < fns_of(t.items@).len() && is_raw(#[trigger] fns_of(t.items@)[k].sig.ident@)
}

proof fn lemma_fns_of_prefix(items: Seq<TraitItemModel>, n: int)
    requires
        0 <= n <= items.len(),
    ensures
        fns_of(items.take(n)).len() <= fns_of(items).len(),
        forall|k: int| 0 <= k < fns_of(items.take(n)).len() ==> #[trigger] fns_of(items.take(n))[k] == fns_of(items)[k],
    decreases items.len(),
{
    if n == items.len() {
        assert(items.take(n) =~= items);
    } else {
        lemma_fns_of_prefix(items.drop_last(), n);
        assert(items.drop_last().take(n) =~= items.take(n));
    }
}

/// Checks whether the trait or one of its methods is named by a raw
/// identifier, which the expansion cannot build names around.
pub fn trait_has_raw_name(t: &TraitModel) -> (r: bool)
    ensures
        r == has_raw_name(*t),
{
    if is_raw_exec(t.ident.as_str()) {
        return true;
    }
    let items = &t.items;
    let mut i: usize = 0;
    while i < items.len()
        invariant
            i <= items.len(),
            items@ == t.items@,
            !is_raw(t.ident@),
            forall|k: int| 0 <= k < fns_of(items@.take(i as int)).len()
                ==> !is_raw(#[trigger] fns_of(items@.take(i as int))[k].sig.ident@),
        decreases items.len() - i,
    {
        assert(items@.take(i + 1).drop_last() =~= items@.take(i as int));
        assert(items@.take(i + 1).last() == items@[i as int]);
        let ghost fns = fns_of(items@.take(i as int));
        if let TraitItemModel::Fn(f) = &items[i] {
            assert(fns_of(items@.take(i + 1)) == fns.push(*f));
            if is_raw_exec(f.sig.ident.as_str()) {
                proof {
                    lemma_fns_of_prefix(items@, i + 1);
                    assert(fns_of(items@.take(i + 1))[fns.len() as int] == *f);
                    assert(fns_of(t.items@)[fns.len() as int] == *f);
                    assert(is_raw(fns_of(t.items@)[fns.len() as int].sig.ident@));
                }
                return true;
            }
            assert forall|k: int| 0 <= k < fns.push(*f).len() implies !is_raw(#[trigger] fns.push(*f)[k].sig.ident@) by {
                if k < fns.len() {
                    assert(fns.push(*f)[k] == fns[k]);
                }
            }
        }
        i = i + 1;
    }
    assert(items@.take(items.len() as int) =~= items@);
    false
}

/// What `#[js_trait]` expands to, or why it refuses the trait.
pub open spec fn js_trait_expansion(args: JsTraitArgs, t: TraitModel) -> Result<Seq<char>, JsTraitError> {
    match validation_error(t) {
        Some(e) => Err(e),
        None => Ok(js_trait_text(args, t)),
    }
}


fn ts_params_exec(sig: &SigModel) -> (r: Vec<String>)
    ensures
        views(r@) == ts_params(sig.inputs@),
{
    let mut r: Vec<String> = Vec::new();
    let mut i: usize = 0;
    while i < sig.inputs.len()
        invariant
            i <= sig.inputs.len(),
            views(r@) == ts_params(sig.inputs@.take(i as int)),
        decreases sig.inputs.len() - i,
    {
        assert(sig.inputs@.take(i + 1).drop_last() =~= sig.inputs@.take(i as int));
        assert(sig.inputs@.take(i + 1).last() == sig.inputs@[i as int]);
        let ghost before = r@;
        if let ArgModel::Typed { pat_ident, ty, .. } = &sig.inputs[i] {
            let mut p = match pat_ident {
                Some(id) => id.clone(),
                None => String::from_str("_"),
            };
            p.append(": ");
            p.append(rust_type_to_ts(ty).as_str());
            r.push(p);
            assert(views(r@) =~= views(before).push(ts_param(sig.inputs@[i as int])));
        }
        i = i + 1;
    }
    assert(sig.inputs@.take(sig.inputs.len() as int) =~= sig.inputs@);
    r
}

fn ts_return_exec(sig: &SigModel) -> (r: String)
    ensures
        r@ == ts_return(*sig),
{
    if sig.is_async {
        match &sig.output {
            ReturnModel::Type { shape, .. } => async_return_to_ts(shape),
            ReturnModel::Default => async_return_to_ts(&TypeShape::Unit),
        }
    } else {
        sync_return_to_ts(&sig.output)
    }
}

fn ts_line_exec(f: &TraitFnModel) -> (r: String)
    ensures
        r@ == ts_line(*f),
{
    let name = match extract_js_name_from_attrs(&f.attrs) {
        Some(n) => n,
        None => f.sig.ident.clone(),
    };
    let params = ts_params_exec(&f.sig);
    let mut r = String::from_str("    ");
    r.append(name.as_str());
    r.append("(");
    r.append(join_strings(&params, ", ").as_str());
    r.append("): ");
    r.append(ts_return_exec(&f.sig).as_str());
    r.append(";");
    r
}

fn extern_fn_exec(f: &TraitFnModel, js_type: &str) -> (r: String)
    ensures
        r@ == extern_fn_text(*f, js_type@),
{
    let mut metas: Vec<String> = Vec::new();
    if has_self_receiver(&f.sig) {
        metas.push(String::from_str("method"));
    }
    let forwarded = collect_wb_meta(&f.attrs);
    let ghost start = metas@;
    let mut k: usize = 0;
    while k < forwarded.len()
        invariant
            k <= forwarded.len(),
            metas@ == start + forwarded@.take(k as int),
        decreases forwarded.len() - k,
    {
        metas.push(forwarded[k].clone());
        assert(forwarded@.take(k + 1) =~= forwarded@.take(k as int).push(forwarded@[k as int]));
        k = k + 1;
    }
    assert(forwarded@.take(forwarded.len() as int) =~= forwarded@);
    assert(views(metas@) =~= extern_metas(*f));
    let mut params: Vec<String> = Vec::new();
    let mut i: usize = 0;
    while i < f.sig.inputs.len()
        invariant
            i <= f.sig.inputs.len(),
            params@.len() == i,
            forall|j: int| 0 <= j < i ==> #[trigger] params@[j]@ == extern_param(f.sig.inputs@[j], js_type@),
        decreases f.sig.inputs.len() - i,
    {
        let p = match &f.sig.inputs[i] {
            ArgModel::Receiver { .. } => String::from_str("this: &").concat(js_type),
            ArgModel::Typed { pat_text, ty_text, .. } => pat_text.clone().concat(": ").concat(ty_text.as_str()),
        };
        params.push(p);
        i = i + 1;
    }
    assert(views(params@) =~= f.sig.inputs@.map_values(|a: ArgModel| extern_param(a, js_type@)));
    let mut r = String::from_str("#[wasm_bindgen(");
    r.append(join_strings(&metas, ", ").as_str());
    r.append(")] fn ");
    r.append(extern_fn_ident(f.sig.ident.as_str()).as_str());
    r.append("(");
    r.append(join_strings(&params, ", ").as_str());
    r.append(")");
    if f.sig.is_async {
        r.append(" -> ::js_sys::Promise");
    } else {
        match &f.sig.output {
            ReturnModel::Default => {},
            ReturnModel::Type { text, .. } => {
                r.append(" -> ");
                r.append(text.as_str());
            },
        }
    }
    r.append(";");
    r
}

fn trait_method_exec(f: &TraitFnModel) -> (r: String)
    ensures
        r@ == trait_method_text(*f),
{
    let mut r = render_clean_attrs(&f.attrs);
    r.append(" ");
    r.append(render_rpitit_signature(&f.sig).as_str());
    r.append(";");
    r
}

/// Whether the `Ok` type of a method's `Result` is `()`.
pub fn result_ok_is_unit(out: &ReturnModel) -> (r: bool)
    ensures
        r == ok_is_unit(*out),
{
    match out {
        ReturnModel::Type { shape: TypeShape::Path { last: Some(n), angle: Some(fa) }, .. } => {
            if str_eq(n.as_str(), "Result") {
                match fa {
                    FirstArg::Missing => true,
                    FirstArg::Type(b) => is_unit_type(b),
                    FirstArg::NotAType => false,
                }
            } else {
                true
            }
        },
        _ => true,
    }
}

/// Whether a type is the unit type `()`.
pub fn is_unit_type(ty: &TypeShape) -> (r: bool)
    ensures
        r == (*ty is Unit),
{
    match ty {
        TypeShape::Unit => true,
        _ => false,
    }
}

fn extern_call_exec(f: &TraitFnModel) -> (r: String)
    ensures
        r@ == extern_call(*f),
{
    let mut r = extern_fn_ident(f.sig.ident.as_str());
    r.append("(");
    if has_self_receiver(&f.sig) {
        r.append("self, ");
    }
    let names = arg_names(&f.sig);
    r.append(join_strings(&names, ", ").as_str());
    r.append(")");
    r
}

fn impl_method_exec(f: &TraitFnModel) -> (r: String)
    ensures
        r@ == impl_method_text(*f),
{
    let mut r = render_rpitit_signature(&f.sig);
    let call = extern_call_exec(f);
    if f.sig.is_async {
        r.append(" { async move { let __promise = ");
        r.append(call.as_str());
        r.append("; match ::wasm_bindgen_futures::JsFuture::from(__promise).await { ::core::result::Result::Ok(__v) => ");
        if result_ok_is_unit(&f.sig.output) {
            r.append("::core::result::Result::Ok(())");
        } else {
            r.append("::core::result::Result::Ok(::wasm_bindgen::JsCast::unchecked_into(__v))");
        }
        r.append(", ::core::result::Result::Err(__e) => { ::core::result::Result::Err(::wasm_bindgen::JsCast::unchecked_into(__e)) } } } }");
    } else {
        r.append(" { ");
        r.append(call.as_str());
        r.append(" }");
    }
    r
}

fn method_pieces(items: &Vec<TraitItemModel>, js_type: &str) -> (r: (Vec<String>, Vec<String>, Vec<String>, Vec<String>))
    ensures
        views(r.0@) == ts_lines(fns_of(items@)),
        views(r.1@) == extern_fn_texts(fns_of(items@), js_type@),
        views(r.2@) == trait_method_texts(fns_of(items@)),
        views(r.3@) == impl_method_texts(fns_of(items@)),
{
    let mut lines: Vec<String> = Vec::new();
    let mut externs: Vec<String> = Vec::new();
    let mut decls: Vec<String> = Vec::new();
    let mut impls: Vec<String> = Vec::new();
    let mut i: usize = 0;
    while i < items.len()
        invariant
            i <= items.len(),
            views(lines@) == ts_lines(fns_of(items@.take(i as int))),
            views(externs@) == extern_fn_texts(fns_of(items@.take(i as int)), js_type@),
            views(decls@) == trait_method_texts(fns_of(items@.take(i as int))),
            views(impls@) == impl_method_texts(fns_of(items@.take(i as int))),
        decreases items.len() - i,
    {
        assert(items@.take(i + 1).drop_last() =~= items@.take(i as int));
        assert(items@.take(i + 1).last() == items@[i as int]);
        let ghost fns = fns_of(items@.take(i as int));
        let ghost l0 = lines@;
        let ghost e0 = externs@;
        let ghost d0 = decls@;
        let ghost i0 = impls@;
        if let TraitItemModel::Fn(f) = &items[i] {
            lines.push(ts_line_exec(f));
            externs.push(extern_fn_exec(f, js_type));
            decls.push(trait_method_exec(f));
            impls.push(impl_method_exec(f));
            assert(fns_of(items@.take(i + 1)) == fns.push(*f));
            assert(views(lines@) =~= views(l0).push(ts_line(*f)));
            assert(ts_lines(fns.push(*f)) =~= ts_lines(fns).push(ts_line(*f)));
            assert(views(externs@) =~= views(e0).push(extern_fn_text(*f, js_type@)));
            assert(extern_fn_texts(fns.push(*f), js_type@) =~= extern_fn_texts(fns, js_type@).push(extern_fn_text(*f, js_type@)));
            assert(views(decls@) =~= views(d0).push(trait_method_text(*f)));
            assert(trait_method_texts(fns.push(*f)) =~= trait_method_texts(fns).push(trait_method_text(*f)));
            assert(views(impls@) =~= views(i0).push(impl_method_text(*f)));
            assert(impl_method_texts(fns.push(*f)) =~= impl_method_texts(fns).push(impl_method_text(*f)));
        }
        i = i + 1;
    }
    assert(items@.take(items.len() as int) =~= items@);
    (lines, externs, decls, impls)
}

fn js_names_const_exec(t: &TraitModel) -> (r: String)
    ensures
        r@ == js_names_const_text(*t, fns_of(t.items@)),
{
    let items = &t.items;
    let mut lits: Vec<String> = Vec::new();
    let mut i: usize = 0;
    while i < items.len()
        invariant
            i <= items.len(),
            views(lits@) == js_name_literals(fns_of(items@.take(i as int))),
        decreases items.len() - i,
    {
        assert(items@.take(i + 1).drop_last() =~= items@.take(i as int));
        assert(items@.take(i + 1).last() == items@[i as int]);
        let ghost fns = fns_of(items@.take(i as int));
        let ghost before = lits@;
        if let TraitItemModel::Fn(f) = &items[i] {
            let name = match extract_js_name_from_attrs(&f.attrs) {
                Some(n) => n,
                None => f.sig.ident.clone(),
            };
            lits.push(string_literal(name.as_str()));
            assert(fns_of(items@.take(i + 1)) == fns.push(*f));
            assert(views(lits@) =~= views(before).push(str_lit(method_js_name(*f))));
            assert(js_name_literals(fns.push(*f)) =~= js_name_literals(fns).push(str_lit(method_js_name(*f))));
        }
        i = i + 1;
    }
    assert(items@.take(items.len() as int) =~= items@);
    let mut r = String::from_str("#[doc(hidden)] ");
    r.append(t.vis.as_str());
    r.append(" const ");
    r.append(js_interface_const_ident(t.ident.as_str()).as_str());
    r.append(": &[&str] = &[");
    r.append(join_strings(&lits, ", ").as_str());
    r.append("];");
    r
}

fn ts_section_exec(t: &TraitModel, name: &str, lines: &Vec<String>) -> (r: String)
    requires
        views(lines@) == ts_lines(fns_of(t.items@)),
    ensures
        r@ == ts_section_text(*t, name@, fns_of(t.items@)),
{
    let mut ts = String::from_str("export interface ");
    ts.append(name);
    ts.append(" {\n");
    ts.append(join_strings(lines, "\n").as_str());
    ts.append("\n}");
    let mut r = String::from_str("#[wasm_bindgen(typescript_custom_section)] const ");
    r.append("__WASM_TRAIT_TS_");
    r.append(to_uppercase(t.ident.as_str()).as_str());
    r.append(": &str = ");
    r.append(string_literal(ts.as_str()).as_str());
    r.append(";");
    r
}

fn extern_block_exec(t: &TraitModel, name: &str, js_type: &str, externs: &Vec<String>) -> (r: String)
    requires
        views(externs@) == extern_fn_texts(fns_of(t.items@), js_type@),
    ensures
        r@ == extern_block_text(*t, name@, js_type@, fns_of(t.items@)),
{
    let mut r = String::from_str("#[wasm_bindgen] extern \"C\" { #[wasm_bindgen(typescript_type = ");
    r.append(string_literal(name).as_str());
    r.append(")] ");
    r.append(t.vis.as_str());
    r.append(" type ");
    r.append(js_type);
    r.append("; ");
    r.append(join_strings(externs, " ").as_str());
    r.append(" }");
    r
}

fn trait_block_exec(t: &TraitModel, decls: &Vec<String>) -> (r: String)
    requires
        views(decls@) == trait_method_texts(fns_of(t.items@)),
    ensures
        r@ == trait_block_text(*t, fns_of(t.items@)),
{
    let mut attr_texts: Vec<String> = Vec::new();
    let mut k: usize = 0;
    while k < t.attrs.len()
        invariant
            k <= t.attrs.len(),
            attr_texts@.len() == k,
            forall|j: int| 0 <= j < k ==> #[trigger] attr_texts@[j]@ == t.attrs@[j].text@,
        decreases t.attrs.len() - k,
    {
        attr_texts.push(t.attrs[k].text.clone());
        k = k + 1;
    }
    assert(views(attr_texts@) =~= t.attrs@.map_values(|a: AttrModel| a.text@));
    let mut r = join_strings(&attr_texts, " ");
    r.append(" ");
    r.append(t.vis.as_str());
    r.append(" trait ");
    r.append(t.ident.as_str());
    if t.supertraits.unicode_len() != 0 {
        r.append(": ");
        r.append(t.supertraits.as_str());
    }
    r.append(" { ");
    r.append(join_strings(decls, " ").as_str());
    r.append(" }");
    r
}

fn impl_for_exec(t: &TraitModel, js_type: &str, impls: &Vec<String>) -> (r: String)
    requires
        views(impls@) == impl_method_texts(fns_of(t.items@)),
    ensures
        r@ == impl_for_text(*t, js_type@, fns_of(t.items@)),
{
    let mut r = String::from_str("impl ");
    r.append(t.ident.as_str());
    r.append(" for ");
    r.append(js_type);
    r.append(" { ");
    r.append(join_strings(impls, " ").as_str());
    r.append(" }");
    r
}

/// Expands `#[js_trait(...)]` on a trait definition.
pub fn js_trait_impl(args: &JsTraitArgs, trait_def: &TraitModel) -> (r: Result<String, JsTraitError>)
    requires
        validation_error(*trait_def) is None ==> !has_raw_name(*trait_def),
    ensures
        match (r, js_trait_expansion(*args, *trait_def)) {
            (Ok(s), Ok(t)) => s@ == t,
            (Err(e), Err(f)) => e == f,
            _ => false,
        },
{
    if let Some(e) = validate_trait(trait_def) {
        return Err(e);
    }
    let name = match &args.js_name {
        Some(n) => n.clone(),
        None => trait_def.ident.clone(),
    };
    let (lines, externs, decls, impls) = method_pieces(&trait_def.items, args.js_type.as_str());
    let mut r = ts_section_exec(trait_def, name.as_str(), &lines);
    r.append(" ");
    r.append(js_names_const_exec(trait_def).as_str());
    r.append(" ");
    r.append(extern_block_exec(trait_def, name.as_str(), args.js_type.as_str(), &externs).as_str());
    r.append(" ");
    r.append(trait_block_exec(trait_def, &decls).as_str());
    r.append(" ");
    r.append(impl_for_exec(trait_def, args.js_type.as_str(), &impls).as_str());
    Ok(r)
}

/// The `#[js_trait]` attribute: reads its arguments, then expands the
/// trait; any refusal becomes a compile error.
pub fn js_trait(attr: &Vec<NameValueModel>, item: &TraitModel) -> (r: String)
    requires
        parse_pairs(attr@, 0, None, None) is Ok && validation_error(*item) is None ==> !has_raw_name(*item),
    ensures
        r@ == match parse_pairs(attr@, 0, None, None) {
            Err(e) => compile_error_text(args_error_message(e)),
            Ok(args) => match js_trait_expansion(args, *item) {
                Ok(t) => t,
                Err(e) => compile_error_text(js_trait_error_message(e)),
            },
        },
{
    let args = match parse_js_trait_args(attr) {
        Err(e) => {
            return render_compile_error(e.message().as_str());
        },
        Ok(a) => a,
    };
    match js_trait_impl(&args, item) {
        Ok(s) => s,
        Err(e) => render_compile_error(e.message().as_str()),
    }
}

proof fn lemma_fns_come_from_items(items: Seq<TraitItemModel>)
    ensures
        forall|k: int| 0 <= k < fns_of(items).len() ==> exists|j: int| 0 <= j < items.len()
            && items[j] == TraitItemModel::Fn(#[trigger] fns_of(items)[k]),
    decreases items.len(),
{
    if items.len() > 0 {
        lemma_fns_come_from_items(items.drop_last());
        let rest = fns_of(items.drop_last());
        assert forall|k: int| 0 <= k < fns_of(items).len() implies exists|j: int| 0 <= j < items.len()
            && items[j] == TraitItemModel::Fn(#[trigger] fns_of(items)[k]) by {
            if k < rest.len() {
                assert(fns_of(items)[k] == rest[k]);
                let j = choose|j: int| 0 <= j < items.drop_last().len() && items.drop_last()[j] == TraitItemModel::Fn(rest[k]);
                assert(items[j] == items.drop_last()[j]);
            } else {
                assert(items[items.len() - 1] == items.last());
            }
        }
    }
}

proof fn lemma_no_async_error(items: Seq<TraitItemModel>, i: int)
    requires
        0 <= i,
        async_error(items, i) is None,
    ensures
        forall|j: int| i <= j < items.len() ==> (#[trigger] items[j] matches TraitItemModel::Fn(f) ==> !(f.sig.is_async
            && !returns_result(f.sig.output))),
    decreases items.len() - i,
{
    if i < items.len() {
        lemma_no_async_error(items, i + 1);
    }
}

proof fn lemma_no_receiver_error(items: Seq<TraitItemModel>, i: int)
    requires
        0 <= i,
        receiver_error(items, i) is None,
    ensures
        forall|j: int| i <= j < items.len() ==> (#[trigger] items[j] matches TraitItemModel::Fn(f) ==> !bad_receiver(
            f.sig.inputs@,
        )),
    decreases items.len() - i,
{
    if i < items.len() {
        lemma_no_receiver_error(items, i + 1);
    }
}

proof fn lemma_no_assoc_error(items: Seq<TraitItemModel>, i: int)
    requires
        0 <= i,
        assoc_error(items, i) is None,
    ensures
        forall|j: int| i <= j < items.len() ==> !(#[trigger] items[j] is Type) && !(items[j] is Const),
    decreases items.len() - i,
{
    if i < items.len() {
        lemma_no_assoc_error(items, i + 1);
    }
}

/// A trait that `#[js_trait]` accepts has no generic parameters, no
/// associated types or constants, `async` methods that all return `Result`,
/// and only `&self` receivers (or none).
pub proof fn lemma_accepted_trait_is_supported(args: JsTraitArgs, t: TraitModel)
    requires
        js_trait_expansion(args, t) is Ok,
    ensures
        !t.has_generics,
        forall|j: int| 0 <= j < t.items@.len() ==> !(#[trigger] t.items@[j] is Type) && !(t.items@[j] is Const),
        forall|k: int| 0 <= k < fns_of(t.items@).len() ==> ((#[trigger] fns_of(t.items@)[k]).sig.is_async
            ==> returns_result(fns_of(t.items@)[k].sig.output)),
        forall|k: int| 0 <= k < fns_of(t.items@).len() ==> !bad_receiver((#[trigger] fns_of(t.items@)[k]).sig.inputs@),
{
    let items = t.items@;
    lemma_no_assoc_error(items, 0);
    lemma_no_async_error(items, 0);
    lemma_no_receiver_error(items, 0);
    lemma_fns_come_from_items(items);
    assert forall|k: int| 0 <= k < fns_of(items).len() implies ((#[trigger] fns_of(items)[k]).sig.is_async
        ==> returns_result(fns_of(items)[k].sig.output)) && !bad_receiver(fns_of(items)[k].sig.inputs@) by {
        let j = choose|j: int| 0 <= j < items.len() && items[j] == TraitItemModel::Fn(fns_of(items)[k]);
        assert(items[j] matches TraitItemModel::Fn(f));
    }
}

/// A trait with an `async` method whose result is not a `Result` is refused
/// (when nothing before it is refused first).
pub proof fn lemma_async_without_result_is_refused(args: JsTraitArgs, t: TraitModel, j: int)
    requires
        0 <= j < t.items@.len(),
        t.items@[j] matches TraitItemModel::Fn(f) && f.sig.is_async && !returns_result(f.sig.output),
    ensures
        js_trait_expansion(args, t) is Err,
{
    if js_trait_expansion(args, t) is Ok {
        lemma_no_async_error(t.items@, 0);
        assert(t.items@[j] matches TraitItemModel::Fn(f));
    }
}

/// For `Result<(), E>` the awaited value is dropped: the `Ok` type is unit.
pub proof fn lemma_unit_ok_is_dropped(result_name: String, text: String)
    requires
        result_name@ == "Result"@,
    ensures
        ok_is_unit(ReturnModel::Type {
            text,
            shape: TypeShape::Path { last: Some(result_name), angle: Some(FirstArg::Type(Box::new(TypeShape::Unit))) },
        }),
{
}

/// Each method gives one line of the TypeScript interface, one binding, one
/// trait declaration and one implementation, in the order of the trait.
pub proof fn lemma_one_piece_per_method(js_type: Seq<char>, fns: Seq<TraitFnModel>)
    ensures
        ts_lines(fns).len() == fns.len(),
        extern_fn_texts(fns, js_type).len() == fns.len(),
        trait_method_texts(fns).len() == fns.len(),
        impl_method_texts(fns).len() == fns.len(),
        forall|k: int| 0 <= k < fns.len() ==> #[trigger] ts_lines(fns)[k] == ts_line(fns[k]),
{
}


proof fn lemma_assoc_error_finds(items: Seq<TraitItemModel>, i: int)
    requires
        0 <= i,
    ensures
        assoc_error(items, i) is Some <==> exists|j: int| i <= j < items.len() && ((#[trigger] items[j]) is Type || items[j] is Const),
    decreases items.len() - i,
{
    if i < items.len() {
        lemma_assoc_error_finds(items, i + 1);
    }
}

proof fn lemma_async_error_finds(items: Seq<TraitItemModel>, i: int)
    requires
        0 <= i,
    ensures
        async_error(items, i) is Some <==> exists|j: int| i <= j < items.len()
            && ((#[trigger] items[j]) matches TraitItemModel::Fn(f) && f.sig.is_async && !returns_result(f.sig.output)),
    decreases items.len() - i,
{
    if i < items.len() {
        lemma_async_error_finds(items, i + 1);
    }
}

proof fn lemma_receiver_error_finds(items: Seq<TraitItemModel>, i: int)
    requires
        0 <= i,
    ensures
        receiver_error(items, i) is Some <==> exists|j: int| i <= j < items.len()
            && ((#[trigger] items[j]) matches TraitItemModel::Fn(f) && bad_receiver(f.sig.inputs@)),
    decreases items.len() - i,
{
    if i < items.len() {
        lemma_receiver_error_finds(items, i + 1);
    }
}

/// Whether an item of the trait is one `#[js_trait]` does not support: an
/// associated type or constant, an `async` method whose result is not a
/// `Result`, or a method with a receiver other than `&self`.
pub open spec fn item_unsupported(it: TraitItemModel) -> bool {
    ||| it is Type
    ||| it is Const
    ||| (it matches TraitItemModel::Fn(f) && f.sig.is_async && !returns_result(f.sig.output))
    ||| (it matches TraitItemModel::Fn(f) && bad_receiver(f.sig.inputs@))
}

/// Whether the trait is generic or has an unsupported item.
pub open spec fn unsupported(t: TraitModel) -> bool {
    t.has_generics || exists|j: int| 0 <= j < t.items@.len() && item_unsupported(#[trigger] t.items@[j])
}

/// `#[js_trait]` refuses a trait exactly when it is generic or has an
/// associated type or constant, an `async` method not returning `Result`,
/// or a receiver other than `&self`; a refusal is the compile error alone
/// (see `js_trait`), an acceptance the full expansion.
pub proof fn lemma_refused_iff_unsupported(args: JsTraitArgs, t: TraitModel)
    ensures
        js_trait_expansion(args, t) is Err <==> unsupported(t),
        !unsupported(t) ==> js_trait_expansion(args, t) == Ok::<Seq<char>, JsTraitError>(js_trait_text(args, t)),
{
    let items = t.items@;
    lemma_assoc_error_finds(items, 0);
    lemma_async_error_finds(items, 0);
    lemma_receiver_error_finds(items, 0);
    if unsupported(t) && !t.has_generics {
        let j = choose|j: int| 0 <= j < items.len() && item_unsupported(#[trigger] items[j]);
        if items[j] is Type || items[j] is Const {
            assert(assoc_error(items, 0) is Some);
        } else if items[j] matches TraitItemModel::Fn(f) && f.sig.is_async && !returns_result(f.sig.output) {
            assert(async_error(items, 0) is Some);
        } else {
            assert(receiver_error(items, 0) is Some);
        }
    }
    if validation_error(t) is Some && !t.has_generics {
        if assoc_error(items, 0) is Some {
            let j = choose|j: int| 0 <= j < items.len() && ((#[trigger] items[j]) is Type || items[j] is Const);
            assert(item_unsupported(items[j]));
        } else if async_error(items, 0) is Some {
            let j = choose|j: int| 0 <= j < items.len()
                && ((#[trigger] items[j]) matches TraitItemModel::Fn(f) && f.sig.is_async && !returns_result(f.sig.output));
            assert(item_unsupported(items[j]));
        } else {
            let j = choose|j: int| 0 <= j < items.len()
                && ((#[trigger] items[j]) matches TraitItemModel::Fn(f) && bad_receiver(f.sig.inputs@));
            assert(item_unsupported(items[j]));
        }
    }
}


/// Whether a pair has the key `js_type`.
pub open spec fn is_js_type_pair(p: NameValueModel) -> bool {
    ident_is(p.key, "js_type"@)
}

/// Whether a pair has the key `js_name`.
pub open spec fn is_js_name_pair(p: NameValueModel) -> bool {
    ident_is(p.key, "js_name"@)
}

/// The identifier a pair's value names, when it is a single identifier.
pub open spec fn value_ident(p: NameValueModel) -> Option<String> {
    match p.value {
        ExprModel::Path { ident, .. } => ident,
        _ => None,
    }
}

/// A pair the parser accepts: `js_type = Ident`, or `js_name = Ident` or
/// `js_name = "..."`.
pub open spec fn well_formed_pair(p: NameValueModel) -> bool {
    ||| is_js_type_pair(p) && value_ident(p) is Some
    ||| is_js_name_pair(p) && (value_ident(p) is Some || p.value is StrLit)
}

proof fn lemma_parse_pairs_from(ps: Seq<NameValueModel>, i: int, jt: Option<String>, jn: Option<String>)
    requires
        0 <= i <= ps.len(),
        forall|k: int| i <= k < ps.len() ==> well_formed_pair(#[trigger] ps[k]),
    ensures
        parse_pairs(ps, i, jt, jn) is Ok <==> (jt is Some || exists|k: int| i <= k < ps.len() && is_js_type_pair(#[trigger] ps[k])),
        parse_pairs(ps, i, jt, jn) is Err ==> parse_pairs(ps, i, jt, jn) == Err::<JsTraitArgs, JsTraitArgsError>(
            JsTraitArgsError::MissingJsType,
        ),
        parse_pairs(ps, i, jt, jn) matches Ok(a) ==> {
            &&& (exists|k: int| i <= k < ps.len() && is_js_type_pair(#[trigger] ps[k])) ==> exists|k: int| i <= k < ps.len()
                && is_js_type_pair(#[trigger] ps[k]) && value_ident(ps[k]) == Some(a.js_type)
                && forall|l: int| k < l < ps.len() ==> !is_js_type_pair(#[trigger] ps[l])
            &&& !(exists|k: int| i <= k < ps.len() && is_js_type_pair(#[trigger] ps[k])) ==> jt == Some(a.js_type)
            &&& (a.js_name is None <==> (jn is None && forall|k: int| i <= k < ps.len() ==> !is_js_name_pair(#[trigger] ps[k])))
        },
    decreases ps.len() - i,
{
    reveal_strlit("js_type");
    reveal_strlit("js_name");
    assert("js_type"@[3] != "js_name"@[3]);
    if i < ps.len() {
        let p = ps[i];
        assert(well_formed_pair(p));
        if is_js_type_pair(p) {
            let id = value_ident(p)->0;
            assert(!is_js_name_pair(p));
            assert(parse_pairs(ps, i, jt, jn) == parse_pairs(ps, i + 1, Some(id), jn));
            lemma_parse_pairs_from(ps, i + 1, Some(id), jn);
            let a = parse_pairs(ps, i + 1, Some(id), jn)->Ok_0;
            if exists|k: int| i + 1 <= k < ps.len() && is_js_type_pair(#[trigger] ps[k]) {
            } else {
                assert forall|l: int| i < l < ps.len() implies !is_js_type_pair(#[trigger] ps[l]) by {}
                assert(value_ident(ps[i]) == Some(a.js_type));
            }
            if forall|k: int| i + 1 <= k < ps.len() ==> !is_js_name_pair(#[trigger] ps[k]) {
                assert forall|k: int| i <= k < ps.len() implies !is_js_name_pair(#[trigger] ps[k]) by {}
            }
        } else {
            assert(is_js_name_pair(p));
            assert(!is_js_type_pair(p));
            let v = match p.value {
                ExprModel::StrLit(s) => s,
                _ => value_ident(p)->0,
            };
            assert(parse_pairs(ps, i, jt, jn) == parse_pairs(ps, i + 1, jt, Some(v)));
            lemma_parse_pairs_from(ps, i + 1, jt, Some(v));
            if exists|k: int| i <= k < ps.len() && is_js_type_pair(#[trigger] ps[k]) {
                let k = choose|k: int| i <= k < ps.len() && is_js_type_pair(#[trigger] ps[k]);
                assert(k != i);
                assert(i + 1 <= k);
            }
        }
    }
}

/// With well-formed pairs, `#[js_trait(...)]`'s arguments are accepted
/// exactly when a `js_type` pair is present, and otherwise refused with
/// "js_trait requires `js_type = Identifier`"; the last `js_type` pair
/// names the extern type, and the JS name is absent (so the trait's name is
/// used) exactly when no `js_name` pair is present.
pub proof fn lemma_js_trait_arguments(ps: Seq<NameValueModel>)
    requires
        forall|k: int| 0 <= k < ps.len() ==> well_formed_pair(#[trigger] ps[k]),
    ensures
        parse_pairs(ps, 0, None, None) is Ok <==> exists|k: int| 0 <= k < ps.len() && is_js_type_pair(#[trigger] ps[k]),
        parse_pairs(ps, 0, None, None) is Err ==> parse_pairs(ps, 0, None, None) == Err::<JsTraitArgs, JsTraitArgsError>(
            JsTraitArgsError::MissingJsType,
        ),
        parse_pairs(ps, 0, None, None) matches Ok(a) ==> {
            &&& exists|k: int| 0 <= k < ps.len() && is_js_type_pair(#[trigger] ps[k]) && value_ident(ps[k]) == Some(a.js_type)
                && forall|l: int| k < l < ps.len() ==> !is_js_type_pair(#[trigger] ps[l])
            &&& (a.js_name is None <==> forall|k: int| 0 <= k < ps.len() ==> !is_js_name_pair(#[trigger] ps[k]))
        },
{
    lemma_parse_pairs_from(ps, 0, None, None);
}


/// The arguments a trait method passes on to its extern fn: `self` first
/// exactly when the method has a receiver, then the names of its other
/// arguments, in order.
pub open spec fn forwarded_args(f: TraitFnModel) -> Seq<char> {
    (if has_receiver(f.sig.inputs@) { "self, "@ } else { Seq::<char>::empty() }) + join(arg_names_of(f.sig.inputs@), ", "@)
}

/// A synchronous trait method is implemented for the extern type by one
/// call of `__wasm_trait_<method>` with the method's arguments; the call
/// passes `self` only when the method has a receiver, so a static method's
/// call holds no `self`. An `async` method awaits the promise that the same
/// call returns.
#[verifier::spinoff_prover]
#[verifier::rlimit(50)]
pub proof fn lemma_methods_delegate_to_their_extern_fn(f: TraitFnModel)
    ensures
        !f.sig.is_async ==> impl_method_text(f) == rpitit_sig_text(f.sig) + " { __wasm_trait_"@ + f.sig.ident@ + "("@
            + forwarded_args(f) + ") }"@,
        f.sig.is_async ==> contains_text(
            impl_method_text(f),
            " { async move { let __promise = __wasm_trait_"@ + f.sig.ident@ + "("@ + forwarded_args(f)
                + "); match ::wasm_bindgen_futures::JsFuture::from(__promise).await { "@,
        ),
        !has_receiver(f.sig.inputs@) ==> forwarded_args(f) == join(arg_names_of(f.sig.inputs@), ", "@),
        has_receiver(f.sig.inputs@) ==> forwarded_args(f) == "self, "@ + join(arg_names_of(f.sig.inputs@), ", "@),
{
    reveal_strlit("__wasm_trait_");
    reveal_strlit(" { ");
    reveal_strlit(" { __wasm_trait_");
    assert(" { __wasm_trait_"@ =~= " { "@ + "__wasm_trait_"@);
    let args = forwarded_args(f);
    let call = "__wasm_trait_"@ + f.sig.ident@ + "("@ + args + ")"@;
    assert(extern_call(f) =~= call);
    if !f.sig.is_async {
        reveal_strlit(")");
        reveal_strlit(" }");
        reveal_strlit(") }");
        assert(") }"@ =~= ")"@ + " }"@);
        assert(impl_method_text(f) =~= rpitit_sig_text(f.sig) + " { __wasm_trait_"@ + f.sig.ident@ + "("@ + args + ") }"@);
    }
    if f.sig.is_async {
        let mid = " { async move { let __promise = __wasm_trait_"@ + f.sig.ident@ + "("@ + args
            + "); match ::wasm_bindgen_futures::JsFuture::from(__promise).await { "@;
        let rest = (if ok_is_unit(f.sig.output) {
            "::core::result::Result::Ok(__v) => ::core::result::Result::Ok(())"@
        } else {
            "::core::result::Result::Ok(__v) => ::core::result::Result::Ok(::wasm_bindgen::JsCast::unchecked_into(__v))"@
        }) + ", ::core::result::Result::Err(__e) => { ::core::result::Result::Err(::wasm_bindgen::JsCast::unchecked_into(__e)) } } } }"@;
        reveal_strlit(" { async move { let __promise = ");
        reveal_strlit(" { async move { let __promise = __wasm_trait_");
        reveal_strlit("; match ::wasm_bindgen_futures::JsFuture::from(__promise).await { ::core::result::Result::Ok(__v) => ");
        reveal_strlit("); match ::wasm_bindgen_futures::JsFuture::from(__promise).await { ");
        reveal_strlit(")");
        reveal_strlit("::core::result::Result::Ok(__v) => ");
        reveal_strlit("::core::result::Result::Ok(())");
        reveal_strlit("::core::result::Result::Ok(__v) => ::core::result::Result::Ok(())");
        reveal_strlit("::core::result::Result::Ok(::wasm_bindgen::JsCast::unchecked_into(__v))");
        reveal_strlit("::core::result::Result::Ok(__v) => ::core::result::Result::Ok(::wasm_bindgen::JsCast::unchecked_into(__v))");
        assert(impl_method_text(f) =~= rpitit_sig_text(f.sig) + mid + rest);
        lemma_contains_middle(rpitit_sig_text(f.sig), mid, rest);
    }
}

/// The accepted expansion declares the imported JS type with the trait's
/// visibility, tagged with the TypeScript interface's name, so the extern
/// type is as visible as the trait it implements.
#[verifier::spinoff_prover]
#[verifier::rlimit(50)]
pub proof fn lemma_extern_type_has_trait_visibility(args: JsTraitArgs, t: TraitModel)
    requires
        js_trait_expansion(args, t) is Ok,
    ensures
        contains_text(
            js_trait_expansion(args, t)->Ok_0,
            "#[wasm_bindgen(typescript_type = "@ + str_lit(interface_name(args, t)) + ")] "@ + t.vis@ + " type "@
                + args.js_type@ + ";"@,
        ),
{
    let fns = fns_of(t.items@);
    let name = interface_name(args, t);
    let decl = "#[wasm_bindgen(typescript_type = "@ + str_lit(name) + ")] "@ + t.vis@ + " type "@ + args.js_type@ + ";"@;
    let head = "#[wasm_bindgen] extern \"C\" { "@;
    let tail = " "@ + join(extern_fn_texts(fns, args.js_type@), " "@) + " }"@;
    let block = extern_block_text(t, name, args.js_type@, fns);
    let before = ts_section_text(t, name, fns) + " "@ + js_names_const_text(t, fns) + " "@ + head;
    let after = tail + " "@ + trait_block_text(t, fns) + " "@ + impl_for_text(t, args.js_type@, fns);
    reveal_strlit("#[wasm_bindgen] extern \"C\" { #[wasm_bindgen(typescript_type = ");
    reveal_strlit("#[wasm_bindgen] extern \"C\" { ");
    reveal_strlit("#[wasm_bindgen(typescript_type = ");
    reveal_strlit("; ");
    reveal_strlit(";");
    reveal_strlit(" ");
    assert("#[wasm_bindgen] extern \"C\" { #[wasm_bindgen(typescript_type = "@ =~= "#[wasm_bindgen] extern \"C\" { "@
        + "#[wasm_bindgen(typescript_type = "@);
    assert("; "@ =~= ";"@ + " "@);
    assert(block =~= head + decl + tail);
    let pre = ts_section_text(t, name, fns) + " "@ + js_names_const_text(t, fns) + " "@;
    let post = " "@ + trait_block_text(t, fns) + " "@ + impl_for_text(t, args.js_type@, fns);
    assert(js_trait_text(args, t) == pre + block + post);
    assert(pre + (head + decl + tail) + post =~= before + decl + after);
    lemma_contains_middle(before, decl, after);
}


/// Each method is bound by an extern fn named `__wasm_trait_<method>`
/// whose `#[wasm_bindgen(...)]` items are `method` first exactly when the
/// method has a receiver (binding it as a JS method), then the method's own
/// `#[wasm_bindgen(...)]` items in order; the binding of an `async` method
/// returns a `js_sys::Promise`.
#[verifier::spinoff_prover]
#[verifier::rlimit(50)]
pub proof fn lemma_extern_fn_binds_the_method(f: TraitFnModel, js_type: Seq<char>)
    ensures
        starts_with(
            extern_fn_text(f, js_type),
            "#[wasm_bindgen("@ + join(
                (if has_receiver(f.sig.inputs@) { seq!["method"@] } else { Seq::<Seq<char>>::empty() }) + wb_meta_texts(f.attrs@),
                ", "@,
            ) + ")] fn __wasm_trait_"@ + f.sig.ident@ + "("@,
        ),
        has_receiver(f.sig.inputs@) ==> starts_with(extern_fn_text(f, js_type), "#[wasm_bindgen(method"@),
        f.sig.is_async ==> contains_text(extern_fn_text(f, js_type), ") -> ::js_sys::Promise;"@),
{
    let metas = (if has_receiver(f.sig.inputs@) { seq!["method"@] } else { Seq::<Seq<char>>::empty() }) + wb_meta_texts(f.attrs@);
    let pre = "#[wasm_bindgen("@ + join(metas, ", "@) + ")] fn __wasm_trait_"@ + f.sig.ident@ + "("@;
    let params = join(f.sig.inputs@.map_values(|a: ArgModel| extern_param(a, js_type)), ", "@);
    let tail = (if f.sig.is_async { " -> ::js_sys::Promise"@ } else { output_text(f.sig.output) }) + ";"@;
    reveal_strlit(")] fn ");
    reveal_strlit("__wasm_trait_");
    reveal_strlit(")] fn __wasm_trait_");
    assert(")] fn __wasm_trait_"@ =~= ")] fn "@ + "__wasm_trait_"@);
    let t = extern_fn_text(f, js_type);
    assert(t =~= pre + (params + ")"@ + tail));
    assert(t.subrange(0, pre.len() as int) =~= pre);
    if has_receiver(f.sig.inputs@) {
        lemma_join_first("method"@, wb_meta_texts(f.attrs@), ", "@);
        reveal_strlit("method");
        reveal_strlit("#[wasm_bindgen(");
        reveal_strlit("#[wasm_bindgen(method");
        assert(metas =~= seq!["method"@] + wb_meta_texts(f.attrs@));
        assert(t.subrange(0, "#[wasm_bindgen(method"@.len() as int) =~= "#[wasm_bindgen(method"@);
    }
    if f.sig.is_async {
        reveal_strlit(")");
        reveal_strlit(" -> ::js_sys::Promise");
        reveal_strlit(";");
        reveal_strlit(") -> ::js_sys::Promise;");
        assert(") -> ::js_sys::Promise;"@ =~= ")"@ + " -> ::js_sys::Promise"@ + ";"@);
        assert(t =~= (pre + params) + ") -> ::js_sys::Promise;"@ + Seq::<char>::empty());
        lemma_contains_middle(pre + params, ") -> ::js_sys::Promise;"@, Seq::<char>::empty());
    }
}

/// The accepted expansion holds the hidden constant listing, in the order
/// of the trait, the JS name of each method (its `js_name`, else its Rust
/// name), named after the trait as `__JS_INTERFACE_<TRAIT>`, with the
/// trait's visibility.
#[verifier::spinoff_prover]
#[verifier::rlimit(50)]
pub proof fn lemma_interface_constant_lists_js_names(args: JsTraitArgs, t: TraitModel)
    requires
        js_trait_expansion(args, t) is Ok,
    ensures
        contains_text(
            js_trait_expansion(args, t)->Ok_0,
            "#[doc(hidden)] "@ + t.vis@ + " const __JS_INTERFACE_"@ + shouty_snake_case_of(t.ident@) + ": &[&str] = &["@
                + join(
                fns_of(t.items@).map_values(
                    |f: TraitFnModel|
                        str_lit(
                            match js_name_in_attrs(f.attrs@) {
                                Some(n) => n@,
                                None => f.sig.ident@,
                            },
                        ),
                ),
                ", "@,
            ) + "];"@,
        ),
{
    let fns = fns_of(t.items@);
    let name = interface_name(args, t);
    let lits = fns.map_values(
        |f: TraitFnModel|
            str_lit(
                match js_name_in_attrs(f.attrs@) {
                    Some(n) => n@,
                    None => f.sig.ident@,
                },
            ),
    );
    assert(lits =~= js_name_literals(fns));
    reveal_strlit(" const ");
    reveal_strlit("__JS_INTERFACE_");
    reveal_strlit(" const __JS_INTERFACE_");
    assert(" const __JS_INTERFACE_"@ =~= " const "@ + "__JS_INTERFACE_"@);
    let sub = "#[doc(hidden)] "@ + t.vis@ + " const __JS_INTERFACE_"@ + shouty_snake_case_of(t.ident@) + ": &[&str] = &["@
        + join(lits, ", "@) + "];"@;
    assert(js_names_const_text(t, fns) =~= sub);
    let pre = ts_section_text(t, name, fns) + " "@;
    let post = " "@ + extern_block_text(t, name, args.js_type@, fns) + " "@ + trait_block_text(t, fns) + " "@
        + impl_for_text(t, args.js_type@, fns);
    assert(js_trait_text(args, t) =~= pre + sub + post);
    lemma_contains_middle(pre, sub, post);
}

/// An `async` method's implementation converts the awaited value with
/// `unchecked_into` into its `Ok` type, or drops it when that type is `()`,
/// and converts a rejection with `unchecked_into` into its `Err` type.
#[verifier::spinoff_prover]
#[verifier::rlimit(50)]
pub proof fn lemma_async_results_are_converted(f: TraitFnModel)
    requires
        f.sig.is_async,
    ensures
        contains_text(
            impl_method_text(f),
            "::core::result::Result::Ok(__v) => "@ + (if ok_is_unit(f.sig.output) {
                "::core::result::Result::Ok(())"@
            } else {
                "::core::result::Result::Ok(::wasm_bindgen::JsCast::unchecked_into(__v))"@
            }) + ", ::core::result::Result::Err(__e) => { ::core::result::Result::Err(::wasm_bindgen::JsCast::unchecked_into(__e)) }"@,
        ),
{
    let ok = if ok_is_unit(f.sig.output) {
        "::core::result::Result::Ok(())"@
    } else {
        "::core::result::Result::Ok(::wasm_bindgen::JsCast::unchecked_into(__v))"@
    };
    let sub = "::core::result::Result::Ok(__v) => "@ + ok
        + ", ::core::result::Result::Err(__e) => { ::core::result::Result::Err(::wasm_bindgen::JsCast::unchecked_into(__e)) }"@;
    let pre = rpitit_sig_text(f.sig) + " { async move { let __promise = "@ + extern_call(f)
        + "; match ::wasm_bindgen_futures::JsFuture::from(__promise).await { "@;
    reveal_strlit("; match ::wasm_bindgen_futures::JsFuture::from(__promise).await { ::core::result::Result::Ok(__v) => ");
    reveal_strlit("; match ::wasm_bindgen_futures::JsFuture::from(__promise).await { ");
    reveal_strlit("::core::result::Result::Ok(__v) => ");
    reveal_strlit(", ::core::result::Result::Err(__e) => { ::core::result::Result::Err(::wasm_bindgen::JsCast::unchecked_into(__e)) } } } }");
    reveal_strlit(", ::core::result::Result::Err(__e) => { ::core::result::Result::Err(::wasm_bindgen::JsCast::unchecked_into(__e)) }");
    reveal_strlit(" } } }");
    assert("; match ::wasm_bindgen_futures::JsFuture::from(__promise).await { ::core::result::Result::Ok(__v) => "@
        =~= "; match ::wasm_bindgen_futures::JsFuture::from(__promise).await { "@ + "::core::result::Result::Ok(__v) => "@);
    assert(", ::core::result::Result::Err(__e) => { ::core::result::Result::Err(::wasm_bindgen::JsCast::unchecked_into(__e)) } } } }"@
        =~= ", ::core::result::Result::Err(__e) => { ::core::result::Result::Err(::wasm_bindgen::JsCast::unchecked_into(__e)) }"@ + " } } }"@);
    assert(impl_method_text(f) =~= pre + sub + " } } }"@);
    lemma_contains_middle(pre, sub, " } } }"@);
}


/// The TypeScript parameter for a typed argument: the bound identifier (or
/// `_`), `: `, and the TypeScript type of the argument's type.
pub open spec fn ts_parameter(a: ArgModel) -> Seq<char> {
    match a {
        ArgModel::Typed { pat_ident: Some(id), ty, .. } => id@ + ": "@ + ts_of(ty),
        ArgModel::Typed { pat_ident: None, ty, .. } => "_: "@ + ts_of(ty),
        ArgModel::Receiver { .. } => Seq::<char>::empty(),
    }
}

proof fn lemma_ts_params_are_typed_args(inputs: Seq<ArgModel>)
    ensures
        ts_params(inputs) == typed_args(inputs).map_values(|a: ArgModel| ts_parameter(a)),
    decreases inputs.len(),
{
    reveal_with_fuel(Seq::filter, 1);
    if inputs.len() > 0 {
        lemma_ts_params_are_typed_args(inputs.drop_last());
        reveal_strlit("_");
        reveal_strlit(": ");
        reveal_strlit("_: ");
        assert("_: "@ =~= "_"@ + ": "@);
        let last = inputs.last();
        let prev = typed_args(inputs.drop_last());
        if last is Typed {
            assert(typed_args(inputs) == prev.push(last));
            assert(ts_param(last) == ts_parameter(last));
            assert(prev.push(last).map_values(|a: ArgModel| ts_parameter(a))
                =~= prev.map_values(|a: ArgModel| ts_parameter(a)).push(ts_parameter(last)));
        } else {
            assert(typed_args(inputs) == prev);
        }
    } else {
        assert(typed_args(inputs) =~= Seq::<ArgModel>::empty());
    }
}

/// The TypeScript return type of a method: `Promise<T>` for an `async`
/// method (the TypeScript type of its result type, `void` without one);
/// otherwise `void` without a result type, else the result's TypeScript
/// type.
pub open spec fn ts_result(sig: SigModel) -> Seq<char> {
    match sig.output {
        ReturnModel::Default => if sig.is_async { "Promise<void>"@ } else { "void"@ },
        ReturnModel::Type { shape, .. } => if sig.is_async { "Promise<"@ + ts_of(shape) + ">"@ } else { ts_of(shape) },
    }
}

/// The line of the TypeScript interface for a method: four spaces, its JS
/// name (its `js_name`, else its Rust name), its non-receiver parameters
/// separated by `, ` in parentheses, `: ` and its TypeScript return type,
/// and `;`.
pub proof fn lemma_ts_line_describes_the_method(f: TraitFnModel)
    ensures
        ts_line(f) == "    "@ + (match js_name_in_attrs(f.attrs@) {
            Some(n) => n@,
            None => f.sig.ident@,
        }) + "("@ + join(typed_args(f.sig.inputs@).map_values(|a: ArgModel| ts_parameter(a)), ", "@) + "): "@
            + ts_result(f.sig) + ";"@,
{
    lemma_ts_params_are_typed_args(f.sig.inputs@);
    reveal_strlit("Promise<");
    reveal_strlit("void");
    reveal_strlit(">");
    reveal_strlit("Promise<void>");
    assert("Promise<void>"@ =~= "Promise<"@ + "void"@ + ">"@);
    assert(ts_return(f.sig) == ts_result(f.sig));
}

/// The accepted expansion holds the TypeScript interface, named by the
/// `js_name` argument (else the trait's name), with one line per method in
/// the order of the trait, as a `typescript_custom_section` string constant
/// named after the upper-cased trait name.
#[verifier::spinoff_prover]
#[verifier::rlimit(50)]
pub proof fn lemma_typescript_interface_is_emitted(args: JsTraitArgs, t: TraitModel)
    requires
        js_trait_expansion(args, t) is Ok,
    ensures
        contains_text(
            js_trait_expansion(args, t)->Ok_0,
            "#[wasm_bindgen(typescript_custom_section)] const __WASM_TRAIT_TS_"@ + uppercase_of(t.ident@) + ": &str = "@
                + str_lit(
                "export interface "@ + (match args.js_name {
                    Some(n) => n@,
                    None => t.ident@,
                }) + " {\n"@ + join(fns_of(t.items@).map_values(|f: TraitFnModel| ts_line(f)), "\n"@) + "\n}"@,
            ) + ";"@,
        ),
{
    let fns = fns_of(t.items@);
    let name = interface_name(args, t);
    reveal_strlit(" const ");
    reveal_strlit("#[wasm_bindgen(typescript_custom_section)] const ");
    reveal_strlit("__WASM_TRAIT_TS_");
    reveal_strlit("#[wasm_bindgen(typescript_custom_section)] const __WASM_TRAIT_TS_");
    assert("#[wasm_bindgen(typescript_custom_section)] const __WASM_TRAIT_TS_"@
        =~= "#[wasm_bindgen(typescript_custom_section)] const "@ + "__WASM_TRAIT_TS_"@);
    assert(fns.map_values(|f: TraitFnModel| ts_line(f)) =~= ts_lines(fns));
    let sec = ts_section_text(t, name, fns);
    let post = " "@ + js_names_const_text(t, fns) + " "@ + extern_block_text(t, name, args.js_type@, fns) + " "@
        + trait_block_text(t, fns) + " "@ + impl_for_text(t, args.js_type@, fns);
    assert(js_trait_text(args, t) =~= Seq::<char>::empty() + sec + post);
    let want = "#[wasm_bindgen(typescript_custom_section)] const __WASM_TRAIT_TS_"@ + uppercase_of(t.ident@) + ": &str = "@
        + str_lit(
        "export interface "@ + (match args.js_name {
            Some(n) => n@,
            None => t.ident@,
        }) + " {\n"@ + join(fns_of(t.items@).map_values(|f: TraitFnModel| ts_line(f)), "\n"@) + "\n}"@,
    ) + ";"@;
    assert(sec =~= want);
    lemma_contains_middle(Seq::<char>::empty(), sec, post);
}

/// The accepted expansion emits the trait under its own name and
/// visibility, with its supertraits (after `: `) when it has any, and
/// implements it for the extern type.
#[verifier::spinoff_prover]
#[verifier::rlimit(50)]
pub proof fn lemma_trait_and_impl_are_emitted(args: JsTraitArgs, t: TraitModel)
    requires
        js_trait_expansion(args, t) is Ok,
    ensures
        contains_text(
            js_trait_expansion(args, t)->Ok_0,
            " "@ + t.vis@ + " trait "@ + t.ident@ + (if t.supertraits@.len() == 0 {
                Seq::<char>::empty()
            } else {
                ": "@ + t.supertraits@
            }) + " { "@,
        ),
        contains_text(js_trait_expansion(args, t)->Ok_0, "impl "@ + t.ident@ + " for "@ + args.js_type@ + " { "@),
{
    let fns = fns_of(t.items@);
    let name = interface_name(args, t);
    let head = " "@ + t.vis@ + " trait "@ + t.ident@ + (if t.supertraits@.len() == 0 {
        Seq::<char>::empty()
    } else {
        ": "@ + t.supertraits@
    }) + " { "@;
    let pre = ts_section_text(t, name, fns) + " "@ + js_names_const_text(t, fns) + " "@
        + extern_block_text(t, name, args.js_type@, fns) + " "@ + join(t.attrs@.map_values(|a: AttrModel| a.text@), " "@);
    let mid = join(trait_method_texts(fns), " "@) + " }"@ + " "@;
    let ih = "impl "@ + t.ident@ + " for "@ + args.js_type@ + " { "@;
    let tail = join(impl_method_texts(fns), " "@) + " }"@;
    assert(js_trait_text(args, t) =~= pre + head + (mid + ih + tail));
    lemma_contains_middle(pre, head, mid + ih + tail);
    assert(js_trait_text(args, t) =~= (pre + head + mid) + ih + tail);
    lemma_contains_middle(pre + head + mid, ih, tail);
}

} // verus!
