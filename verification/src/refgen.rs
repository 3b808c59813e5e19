//! `#[wasm_refgen(js_ref = JsFoo)]` on an inherent `impl` block of an
//! exported struct: an injected upcast method, a `FromJsRef` impl, `From`
//! conversions both ways, and the imported JS reference type.
use vstd::prelude::*;
use crate::attrs::{find_js_class, js_class_in_attrs};
use crate::model::{ImplItemModel, ImplModel};
use crate::naming::{is_rust_ident, not_nameable, not_nameable_exec, is_valid_ident, snake_case_of, to_snake_case};
use crate::render::{impl_block_text, item_texts, render_impl_block};
use crate::strings::{
    compile_error_text, contains_text, join, lemma_contains_ends, lemma_contains_in_prefix, lemma_contains_in_suffix, lemma_contains_middle,
    render_compile_error, str_eq, str_lit, string_literal};

verus! {

/// One token of the macro's argument list.
pub enum TokenModel {
    /// An identifier (or keyword), with its text.
    Ident(String),
    /// A punctuation character.
    Punct(char),
    /// A literal or a delimited group.
    Other,
}

/// The parsed arguments of `#[wasm_refgen(...)]`.
pub struct RefgenArgs {
    /// The name of the generated JS reference type.
    pub js_ref: String,
}

/// Why the argument list of `#[wasm_refgen(...)]` is refused, with the
/// index of the token at fault.
#[derive(Debug, PartialEq, Eq)]
pub enum RefgenArgsError {
    /// A token that is not an identifier where one is expected.
    ExpectedIdent(usize),
    /// A keyword (or `_`) where an identifier is expected.
    FoundKeyword(usize, String),
    /// The list ends where an identifier is expected.
    EndExpectedIdent,
    /// No `=` after a key (the list may end there).
    ExpectedEq(usize),
    /// A key other than `js_ref`.
    UnknownArg(usize),
    /// No `js_ref`.
    MissingJsRef,
}

/// The message of each refusal of the argument list; where an identifier
/// is missing at the end of the list, the message says so first.
pub open spec fn args_error_message(e: RefgenArgsError) -> Seq<char> {
    match e {
        RefgenArgsError::ExpectedIdent(_) => "expected identifier"@,
        RefgenArgsError::FoundKeyword(_, k) => "expected identifier, found keyword `"@ + k@ + "`"@,
        RefgenArgsError::EndExpectedIdent => "unexpected end of input, expected identifier"@,
        RefgenArgsError::ExpectedEq(_) => "expected `=`"@,
        RefgenArgsError::UnknownArg(_) => "unknown arg; expected `js_ref` or `ts`"@,
        RefgenArgsError::MissingJsRef => "missing required arg: js_ref = <Ident>"@,
    }
}

impl RefgenArgsError {
    /// The message reported for this refusal.
    pub fn message(&self) -> (r: String)
        ensures
            r@ == args_error_message(*self),
    {
        match self {
            RefgenArgsError::ExpectedIdent(_) => String::from_str("expected identifier"),
            RefgenArgsError::FoundKeyword(_, k) => String::from_str("expected identifier, found keyword `").concat(k.as_str()).concat("`"),
            RefgenArgsError::EndExpectedIdent => String::from_str("unexpected end of input, expected identifier"),
            RefgenArgsError::ExpectedEq(_) => String::from_str("expected `=`"),
            RefgenArgsError::UnknownArg(_) => String::from_str("unknown arg; expected `js_ref` or `ts`"),
            RefgenArgsError::MissingJsRef => String::from_str("missing required arg: js_ref = <Ident>"),
        }
    }
}

/// Whether the token at `pos` is an identifier that `syn` accepts.
pub open spec fn ident_at(toks: Seq<TokenModel>, pos: int) -> bool {
    0 <= pos < toks.len() && (toks[pos] matches TokenModel::Ident(s) && is_rust_ident(s@))
}

/// Whether the token at `pos` is the punctuation `c`.
pub open spec fn punct_at(toks: Seq<TokenModel>, pos: int, c: char) -> bool {
    0 <= pos < toks.len() && toks[pos] == TokenModel::Punct(c)
}

/// The refusal when no acceptable identifier stands at `pos`.
pub open spec fn ident_error(toks: Seq<TokenModel>, pos: int) -> RefgenArgsError {
    if pos >= toks.len() {
        RefgenArgsError::EndExpectedIdent
    } else {
        match toks[pos] {
            TokenModel::Ident(k) => RefgenArgsError::FoundKeyword(pos as usize, k),
            _ => RefgenArgsError::ExpectedIdent(pos as usize),
        }
    }
}

/// Parses `key = value` pairs from `pos` on, each optionally followed by a
/// comma; `js_ref = Ident` is the only key, and the last one counts.
pub open spec fn parse_args_from(toks: Seq<TokenModel>, pos: int, acc: Option<String>) -> Result<String, RefgenArgsError>
    decreases toks.len() - pos,
{
    if pos < 0 || pos >= toks.len() {
        match acc {
            Some(s) => Ok(s),
            None => Err(RefgenArgsError::MissingJsRef),
        }
    } else if !ident_at(toks, pos) {
        Err(ident_error(toks, pos))
    } else if !punct_at(toks, pos + 1, '=') {
        Err(RefgenArgsError::ExpectedEq((pos + 1) as usize))
    } else if !(toks[pos]->Ident_0@ == "js_ref"@) {
        Err(RefgenArgsError::UnknownArg(pos as usize))
    } else if !ident_at(toks, pos + 2) {
        Err(ident_error(toks, pos + 2))
    } else {
        let next = if punct_at(toks, pos + 3, ',') { pos + 4 } else { pos + 3 };
        parse_args_from(toks, next, Some(toks[pos + 2]->Ident_0))
    }
}

fn ident_error_exec(toks: &Vec<TokenModel>, pos: usize) -> (r: RefgenArgsError)
    ensures
        r == ident_error(toks@, pos as int),
{
    if pos >= toks.len() {
        RefgenArgsError::EndExpectedIdent
    } else {
        match &toks[pos] {
            TokenModel::Ident(k) => RefgenArgsError::FoundKeyword(pos, k.clone()),
            _ => RefgenArgsError::ExpectedIdent(pos),
        }
    }
}

/// Parses the argument list of `#[wasm_refgen(js_ref = JsFoo)]`.
pub fn parse_refgen_args(toks: &Vec<TokenModel>) -> (r: Result<RefgenArgs, RefgenArgsError>)
    ensures
        match (r, parse_args_from(toks@, 0, None)) {
            (Ok(a), Ok(s)) => a.js_ref == s,
            (Err(e), Err(f)) => e == f,
            _ => false,
        },
{
    let mut acc: Option<String> = None;
    let mut pos: usize = 0;
    let n = toks.len();
    while pos < n
        invariant
            n == toks@.len(),
            pos <= n,
            parse_args_from(toks@, 0, None) == parse_args_from(toks@, pos as int, acc),
        decreases n - pos,
    {
        let key_ok = match &toks[pos] {
            TokenModel::Ident(k) => is_valid_ident(k.as_str()),
            _ => false,
        };
        if !key_ok {
            return Err(ident_error_exec(toks, pos));
        }
        let eq_ok = pos + 1 < n && match &toks[pos + 1] {
            TokenModel::Punct(c) => *c == '=',
            _ => false,
        };
        if !eq_ok {
            return Err(RefgenArgsError::ExpectedEq(pos + 1));
        }
        let is_js_ref = match &toks[pos] {
            TokenModel::Ident(k) => str_eq(k.as_str(), "js_ref"),
            _ => false,
        };
        if !is_js_ref {
            return Err(RefgenArgsError::UnknownArg(pos));
        }
        let value = if pos + 2 < n {
            match &toks[pos + 2] {
                TokenModel::Ident(v) => if is_valid_ident(v.as_str()) { Some(v.clone()) } else { None },
                _ => None,
            }
        } else {
            None
        };
        match value {
            None => {
                return Err(ident_error_exec(toks, pos + 2));
            },
            Some(v) => {
                acc = Some(v);
            },
        }
        let comma = pos + 3 < n && match &toks[pos + 3] {
            TokenModel::Punct(c) => *c == ',',
            _ => false,
        };
        pos = if comma { pos + 4 } else { pos + 3 };
    }
    match acc {
        Some(s) => Ok(RefgenArgs { js_ref: s }),
        None => Err(RefgenArgsError::MissingJsRef),
    }
}

/// Why `#[wasm_refgen]` refuses an `impl` block.
pub enum RefgenError {
    /// It is a trait impl.
    TraitImpl,
    /// Its self type is not a path type.
    NotSimpleType,
    /// The `js_class` value is not a Rust identifier.
    InvalidJsClass(String),
    /// No `js_class = ...` on `#[wasm_bindgen(...)]`.
    MissingJsClass,
}

/// The message of each refusal of an `impl` block.
pub open spec fn refgen_error_message(e: RefgenError) -> Seq<char> {
    match e {
        RefgenError::TraitImpl => "#[wasm_refgen] must be used on an inherent impl, not a trait impl"@,
        RefgenError::NotSimpleType => "expected a simple type name"@,
        RefgenError::InvalidJsClass(s) => "`"@ + s@ + "` is not a valid Rust identifier"@,
        RefgenError::MissingJsClass =>
            "wasm_refgen: missing js_ref argument and no `js_class = ...` found on #[wasm_bindgen]"@,
    }
}

impl RefgenError {
    /// The message reported for this refusal.
    pub fn message(&self) -> (r: String)
        ensures
            r@ == refgen_error_message(*self),
    {
        match self {
            RefgenError::TraitImpl => String::from_str("#[wasm_refgen] must be used on an inherent impl, not a trait impl"),
            RefgenError::NotSimpleType => String::from_str("expected a simple type name"),
            RefgenError::InvalidJsClass(s) => String::from_str("`").concat(s.as_str()).concat("` is not a valid Rust identifier"),
            RefgenError::MissingJsClass => String::from_str(
                "wasm_refgen: missing js_ref argument and no `js_class = ...` found on #[wasm_bindgen]",
            ),
        }
    }
}

/// Accepts `s` as an identifier when `syn` parses it as one.
pub fn to_ident_or_err(s: &String) -> (r: Result<String, RefgenError>)
    requires
        !(is_rust_ident(s@) && not_nameable(s@)),
    ensures
        is_rust_ident(s@) ==> r == Ok::<String, RefgenError>(*s),
        !is_rust_ident(s@) ==> r == Err::<String, RefgenError>(RefgenError::InvalidJsClass(*s)),
{
    if is_valid_ident(s.as_str()) {
        Ok(s.clone())
    } else {
        Err(RefgenError::InvalidJsClass(s.clone()))
    }
}

/// The JS-side name of the upcast method: `__wasm_refgen_to` and the type name.
pub open spec fn upcast_tag(ty: Seq<char>) -> Seq<char> {
    "__wasm_refgen_to"@ + ty
}

/// The Rust name of the upcast method: `__wasm_refgen_to_` and the type name
/// in snake case.
pub open spec fn upcast_method(ty: Seq<char>) -> Seq<char> {
    "__wasm_refgen_to_"@ + snake_case_of(ty)
}

/// The upcast method injected into the `impl` block.
pub open spec fn injected_method_text(ty: Seq<char>) -> Seq<char> {
    "#[doc = "@ + str_lit("Upcasts; to the JS-import type for [`"@ + ty + "`]."@)
        + "] #[::wasm_bindgen::prelude::wasm_bindgen(js_name = "@ + str_lit(upcast_tag(ty))
        + ")] pub fn "@ + upcast_method(ty) + "(&self) -> Self { self.clone() }"@
}

/// `FromJsRef` for the Rust type, through the upcast method.
pub open spec fn from_js_ref_impl_text(js_ref: Seq<char>, ty: Seq<char>) -> Seq<char> {
    "impl ::from_js_ref::FromJsRef for "@ + ty + " { type JsRef = "@ + js_ref
        + "; #[inline] fn from_js_ref(castable: &Self::JsRef) -> Self { castable."@ + upcast_method(ty) + "() } }"@
}

/// `From<Type>` for the JS reference type, through `JsValue`.
pub open spec fn into_js_ref_impl_text(js_ref: Seq<char>, ty: Seq<char>) -> Seq<char> {
    " impl From<"@ + ty + "> for "@ + js_ref + " { fn from(v: "@ + ty
        + ") -> Self { ::wasm_bindgen::JsValue::from(v).unchecked_into() } }"@
}

/// `From<&JsRef>` for the Rust type, through the upcast method.
pub open spec fn from_js_ref_ref_impl_text(js_ref: Seq<char>, ty: Seq<char>) -> Seq<char> {
    " impl From< &"@ + js_ref + "> for "@ + ty + " { fn from(js_ref: &"@ + js_ref + ") -> Self { js_ref."@
        + upcast_method(ty) + "() } }"@
}

/// The import of the JS reference type and of its upcast method.
pub open spec fn js_import_text(js_ref: Seq<char>, ty: Seq<char>, class: Seq<char>) -> Seq<char> {
    " #[::wasm_bindgen::prelude::wasm_bindgen] extern \"C\" { #[doc = "@
        + str_lit("The JS-import type for [`"@ + ty
            + "`].\n\nThis lets you use the duck typed interface to convert from JS values."@)
        + "] #[::wasm_bindgen::prelude::wasm_bindgen(js_name = "@ + class + ", typescript_type = "@ + class
        + ")] pub type "@ + js_ref + "; #[doc = "@
        + str_lit("Use the JS duck type interface to upcast to [`"@ + ty + "`]."@)
        + "] #[::wasm_bindgen::prelude::wasm_bindgen(method, js_name = "@ + str_lit(upcast_tag(ty))
        + ")] pub fn "@ + upcast_method(ty) + "(this: &"@ + js_ref + ") -> "@ + ty + "; }"@
}

/// The conversions and the JS import that follow the `impl` block.
pub open spec fn refgen_extras_text(js_ref: Seq<char>, ty: Seq<char>, class: Seq<char>) -> Seq<char> {
    from_js_ref_impl_text(js_ref, ty) + into_js_ref_impl_text(js_ref, ty) + from_js_ref_ref_impl_text(js_ref, ty)
        + js_import_text(js_ref, ty, class)
}

/// Whether the block already has a method with the upcast method's name.
pub open spec fn has_method_named(imp: ImplModel, name: Seq<char>) -> bool {
    exists|i: int| 0 <= i < imp.items@.len() && ((#[trigger] imp.items@[i]).func matches Some(f) && f.sig.ident@ == name)
}

/// The expansion of `#[wasm_refgen]` for a valid block.
pub open spec fn refgen_text(js_ref: Seq<char>, imp: ImplModel, ty: Seq<char>, class: Seq<char>) -> Seq<char> {
    impl_block_text(
        imp,
        if has_method_named(imp, upcast_method(ty)) { Seq::<char>::empty() } else { injected_method_text(ty) },
    ) + " "@ + refgen_extras_text(js_ref, ty, class)
}

/// Whether expanding the block reaches a `js_class` value that parses as an
/// identifier but cannot be made into one by name (a raw identifier, or one
/// with white space or a comment around it): the one case where the
/// expansion cannot build the extern type's name.
pub open spec fn unnameable_js_class(imp: ImplModel) -> bool {
    &&& !imp.is_trait_impl
    &&& imp.self_ty_last is Some
    &&& js_class_in_attrs(imp.attrs@) matches Some(c) && is_rust_ident(c@) && not_nameable(c@)
}

/// What `#[wasm_refgen]` expands to, or why it refuses the block.
pub open spec fn refgen_expansion(js_ref: Seq<char>, imp: ImplModel) -> Result<Seq<char>, RefgenError> {
    if imp.is_trait_impl {
        Err(RefgenError::TraitImpl)
    } else {
        match imp.self_ty_last {
            None => Err(RefgenError::NotSimpleType),
            Some(ty) => match js_class_in_attrs(imp.attrs@) {
                None => Err(RefgenError::MissingJsClass),
                Some(c) => if is_rust_ident(c@) {
                    Ok(refgen_text(js_ref, imp, ty@, c@))
                } else {
                    Err(RefgenError::InvalidJsClass(c))
                },
            },
        }
    }
}

fn has_method_named_exec(imp: &ImplModel, name: &str) -> (r: bool)
    ensures
        r == has_method_named(*imp, name@),
{
    let mut i: usize = 0;
    while i < imp.items.len()
        invariant
            i <= imp.items.len(),
            forall|j: int| 0 <= j < i ==> !((#[trigger] imp.items@[j]).func matches Some(f) && f.sig.ident@ == name@),
        decreases imp.items.len() - i,
    {
        if let Some(f) = &imp.items[i].func {
            if str_eq(f.sig.ident.as_str(), name) {
                return true;
            }
        }
        i = i + 1;
    }
    false
}

fn injected_method_exec(ty: &str) -> (r: String)
    ensures
        r@ == injected_method_text(ty@),
{
    let snake = to_snake_case(ty);
    let method = String::from_str("__wasm_refgen_to_").concat(snake.as_str());
    let tag = String::from_str("__wasm_refgen_to").concat(ty);
    let doc = String::from_str("Upcasts; to the JS-import type for [`").concat(ty).concat("`].");
    let mut r = String::from_str("#[doc = ");
    r.append(string_literal(doc.as_str()).as_str());
    r.append("] #[::wasm_bindgen::prelude::wasm_bindgen(js_name = ");
    r.append(string_literal(tag.as_str()).as_str());
    r.append(")] pub fn ");
    r.append(method.as_str());
    r.append("(&self) -> Self { self.clone() }");
    r
}

fn refgen_extras_exec(js_ref: &str, ty: &str, class: &str) -> (r: String)
    ensures
        r@ == refgen_extras_text(js_ref@, ty@, class@),
{
    let snake = to_snake_case(ty);
    let method = String::from_str("__wasm_refgen_to_").concat(snake.as_str());
    let tag = String::from_str("__wasm_refgen_to").concat(ty);
    let ty_doc = String::from_str("The JS-import type for [`").concat(ty).concat(
        "`].\n\nThis lets you use the duck typed interface to convert from JS values.",
    );
    let method_doc = String::from_str("Use the JS duck type interface to upcast to [`").concat(ty).concat("`].");
    let mut r = String::from_str("impl ::from_js_ref::FromJsRef for ");
    r.append(ty);
    r.append(" { type JsRef = ");
    r.append(js_ref);
    r.append("; #[inline] fn from_js_ref(castable: &Self::JsRef) -> Self { castable.");
    r.append(method.as_str());
    r.append("() } }");
    assert(r@ =~= from_js_ref_impl_text(js_ref@, ty@));
    let ghost part_a = r@;
    r.append(" impl From<");
    r.append(ty);
    r.append("> for ");
    r.append(js_ref);
    r.append(" { fn from(v: ");
    r.append(ty);
    r.append(") -> Self { ::wasm_bindgen::JsValue::from(v).unchecked_into() } }");
    assert(r@ =~= part_a + into_js_ref_impl_text(js_ref@, ty@));
    let ghost part_b = r@;
    r.append(" impl From< &");
    r.append(js_ref);
    r.append("> for ");
    r.append(ty);
    r.append(" { fn from(js_ref: &");
    r.append(js_ref);
    r.append(") -> Self { js_ref.");
    r.append(method.as_str());
    r.append("() } }");
    assert(r@ =~= part_b + from_js_ref_ref_impl_text(js_ref@, ty@));
    let ghost part_c = r@;
    r.append(" #[::wasm_bindgen::prelude::wasm_bindgen] extern \"C\" { #[doc = ");
    r.append(string_literal(ty_doc.as_str()).as_str());
    r.append("] #[::wasm_bindgen::prelude::wasm_bindgen(js_name = ");
    r.append(class);
    r.append(", typescript_type = ");
    r.append(class);
    r.append(")] pub type ");
    r.append(js_ref);
    r.append("; #[doc = ");
    r.append(string_literal(method_doc.as_str()).as_str());
    r.append("] #[::wasm_bindgen::prelude::wasm_bindgen(method, js_name = ");
    r.append(string_literal(tag.as_str()).as_str());
    r.append(")] pub fn ");
    r.append(method.as_str());
    r.append("(this: &");
    r.append(js_ref);
    r.append(") -> ");
    r.append(ty);
    r.append("; }");
    assert(r@ =~= part_c + js_import_text(js_ref@, ty@, class@));
    r
}

/// Expands `#[wasm_refgen(js_ref = ...)]` on an inherent `impl` block.
pub fn wasm_refgen_impl(args: &RefgenArgs, imp: &ImplModel) -> (r: Result<String, RefgenError>)
    requires
        !unnameable_js_class(*imp),
    ensures
        match (r, refgen_expansion(args.js_ref@, *imp)) {
            (Ok(s), Ok(t)) => s@ == t,
            (Err(e), Err(f)) => e == f,
            _ => false,
        },
{
    if imp.is_trait_impl {
        return Err(RefgenError::TraitImpl);
    }
    let ty = match &imp.self_ty_last {
        None => {
            return Err(RefgenError::NotSimpleType);
        },
        Some(t) => t,
    };
    let class = match find_js_class(&imp.attrs) {
        None => {
            return Err(RefgenError::MissingJsClass);
        },
        Some(c) => c,
    };
    let class = match to_ident_or_err(&class) {
        Err(e) => {
            return Err(e);
        },
        Ok(c) => c,
    };
    let snake = to_snake_case(ty.as_str());
    let method = String::from_str("__wasm_refgen_to_").concat(snake.as_str());
    let extra = if has_method_named_exec(imp, method.as_str()) {
        String::new()
    } else {
        injected_method_exec(ty.as_str())
    };
    let mut r = render_impl_block(imp, extra.as_str());
    r.append(" ");
    let extras = refgen_extras_exec(args.js_ref.as_str(), ty.as_str(), class.as_str());
    r.append(extras.as_str());
    Ok(r)
}

fn unnameable_js_class_exec(imp: &ImplModel) -> (r: bool)
    ensures
        r == unnameable_js_class(*imp),
{
    if imp.is_trait_impl || imp.self_ty_last.is_none() {
        return false;
    }
    match find_js_class(&imp.attrs) {
        None => false,
        Some(c) => is_valid_ident(c.as_str()) && not_nameable_exec(c.as_str()),
    }
}

/// The `#[wasm_refgen]` attribute: parses its argument tokens, then expands
/// the `impl` block; any refusal becomes a compile error. `None` when the
/// block's `js_class` parses as an identifier that cannot be made into one
/// by name, which no expansion can use.
pub fn wasm_refgen(attr: &Vec<TokenModel>, item: &ImplModel) -> (r: Option<String>)
    ensures
        r is None <==> (parse_args_from(attr@, 0, None) is Ok && unnameable_js_class(*item)),
        r matches Some(s) ==> s@ == match parse_args_from(attr@, 0, None) {
            Err(e) => compile_error_text(args_error_message(e)),
            Ok(js_ref) => match refgen_expansion(js_ref@, *item) {
                Ok(t) => t,
                Err(e) => compile_error_text(refgen_error_message(e)),
            },
        },
{
    let args = match parse_refgen_args(attr) {
        Err(e) => {
            return Some(render_compile_error(e.message().as_str()));
        },
        Ok(a) => a,
    };
    if unnameable_js_class_exec(item) {
        return None;
    }
    match wasm_refgen_impl(&args, item) {
        Ok(s) => Some(s),
        Err(e) => Some(render_compile_error(e.message().as_str())),
    }
}

/// `js_ref = X`, with or without a trailing comma, names `X`.
pub proof fn lemma_js_ref_is_read(key: String, value: String, trailing_comma: bool)
    requires
        key@ == "js_ref"@,
        is_rust_ident(key@),
        is_rust_ident(value@),
    ensures
        parse_args_from(
            seq![TokenModel::Ident(key), TokenModel::Punct('='), TokenModel::Ident(value)]
                + (if trailing_comma { seq![TokenModel::Punct(',')] } else { Seq::<TokenModel>::empty() }),
            0,
            None,
        ) == Ok::<String, RefgenArgsError>(value),
{
    let toks = seq![TokenModel::Ident(key), TokenModel::Punct('='), TokenModel::Ident(value)]
        + (if trailing_comma { seq![TokenModel::Punct(',')] } else { Seq::<TokenModel>::empty() });
    assert(toks[0] == TokenModel::Ident(key));
    assert(toks[1] == TokenModel::Punct('='));
    assert(toks[2] == TokenModel::Ident(value));
    if trailing_comma {
        assert(toks[3] == TokenModel::Punct(','));
        assert(parse_args_from(toks, 4, Some(value)) == Ok::<String, RefgenArgsError>(value));
    } else {
        assert(parse_args_from(toks, 3, Some(value)) == Ok::<String, RefgenArgsError>(value));
    }
}

/// An empty argument list is refused: `js_ref` is required.
pub proof fn lemma_js_ref_is_required()
    ensures
        parse_args_from(Seq::<TokenModel>::empty(), 0, None) == Err::<String, RefgenArgsError>(RefgenArgsError::MissingJsRef),
{
}


/// The tokens of one `key = value` pair, with or without a trailing comma.
pub open spec fn pair_chunk(key: String, value: String, comma: bool) -> Seq<TokenModel> {
    seq![TokenModel::Ident(key), TokenModel::Punct('='), TokenModel::Ident(value)]
        + (if comma { seq![TokenModel::Punct(',')] } else { Seq::<TokenModel>::empty() })
}

/// The tokens of a list of `key = value` pairs with the same key, the
/// `k`-th followed by a comma when `commas[k]` holds.
pub open spec fn pair_list(key: String, values: Seq<String>, commas: Seq<bool>) -> Seq<TokenModel>
    decreases values.len(),
{
    if values.len() == 0 || commas.len() == 0 {
        Seq::<TokenModel>::empty()
    } else {
        pair_chunk(key, values[0], commas[0]) + pair_list(key, values.drop_first(), commas.drop_first())
    }
}

proof fn lemma_pair_list_from(toks: Seq<TokenModel>, start: int, key: String, values: Seq<String>, commas: Seq<bool>, acc: Option<String>)
    requires
        0 <= start <= toks.len(),
        toks.subrange(start, toks.len() as int) == pair_list(key, values, commas),
        values.len() == commas.len(),
        values.len() > 0 || acc is Some,
        key@ == "js_ref"@,
        is_rust_ident(key@),
        forall|k: int| 0 <= k < values.len() ==> is_rust_ident((#[trigger] values[k])@),
    ensures
        parse_args_from(toks, start, acc) == Ok::<String, RefgenArgsError>(
            if values.len() > 0 { values.last() } else { acc->0 },
        ),
    decreases values.len(),
{
    if values.len() == 0 {
        assert(toks.subrange(start, toks.len() as int).len() == 0);
    } else {
        let chunk = pair_chunk(key, values[0], commas[0]);
        let rest = pair_list(key, values.drop_first(), commas.drop_first());
        let all = toks.subrange(start, toks.len() as int);
        assert(all == chunk + rest);
        let clen = chunk.len() as int;
        assert(toks[start] == all[0]);
        assert(toks[start + 1] == all[1]);
        assert(toks[start + 2] == all[2]);
        assert(toks[start] == TokenModel::Ident(key));
        assert(toks[start + 1] == TokenModel::Punct('='));
        assert(toks[start + 2] == TokenModel::Ident(values[0]));
        assert(is_rust_ident(values[0]@));
        if commas[0] {
            assert(toks[start + 3] == all[3]);
            assert(toks[start + 3] == TokenModel::Punct(','));
        } else if start + 3 < toks.len() {
            assert(toks[start + 3] == all[3]);
            assert(rest.len() > 0);
            assert(all[3] == rest[0]);
            assert(rest[0] == TokenModel::Ident(key));
        }
        assert(toks.subrange(start + clen, toks.len() as int) =~= rest) by {
            assert forall|j: int| 0 <= j < rest.len() implies toks.subrange(start + clen, toks.len() as int)[j] == rest[j] by {
                assert(toks[start + clen + j] == all[clen + j]);
            }
        }
        assert forall|k: int| 0 <= k < values.drop_first().len() implies is_rust_ident((#[trigger] values.drop_first()[k])@) by {
            assert(values.drop_first()[k] == values[k + 1]);
        }
        lemma_pair_list_from(toks, start + clen, key, values.drop_first(), commas.drop_first(), Some(values[0]));
        if values.len() > 1 {
            assert(values.drop_first().last() == values.last());
        }
    }
}

/// A non-empty list of `js_ref = Ident` pairs, each with or without a
/// trailing comma, is accepted, and its last pair names the JS reference
/// type.
pub proof fn lemma_last_js_ref_wins(key: String, values: Seq<String>, commas: Seq<bool>)
    requires
        values.len() > 0,
        values.len() == commas.len(),
        key@ == "js_ref"@,
        is_rust_ident(key@),
        forall|k: int| 0 <= k < values.len() ==> is_rust_ident((#[trigger] values[k])@),
    ensures
        parse_args_from(pair_list(key, values, commas), 0, None) == Ok::<String, RefgenArgsError>(values.last()),
{
    let toks = pair_list(key, values, commas);
    assert(toks.subrange(0, toks.len() as int) =~= toks);
    lemma_pair_list_from(toks, 0, key, values, commas, None);
}

/// A list whose first pair has a key other than `js_ref` (including `ts`) is
/// refused as an unknown argument.
pub proof fn lemma_other_key_is_refused(toks: Seq<TokenModel>, key: String)
    requires
        toks.len() >= 2,
        toks[0] == TokenModel::Ident(key),
        is_rust_ident(key@),
        key@ != "js_ref"@,
        toks[1] == TokenModel::Punct('='),
    ensures
        parse_args_from(toks, 0, None) == Err::<String, RefgenArgsError>(RefgenArgsError::UnknownArg(0)),
{
}


/// Whether the token at `p` is the value of a `js_ref = value` pair.
pub open spec fn js_ref_value_at(toks: Seq<TokenModel>, p: int, x: String) -> bool {
    &&& 2 <= p < toks.len()
    &&& toks[p] == TokenModel::Ident(x)
    &&& punct_at(toks, p - 1, '=')
    &&& toks[p - 2] matches TokenModel::Ident(k) && k@ == "js_ref"@
}

proof fn lemma_accepted_value_is_last_from(toks: Seq<TokenModel>, pos: int, acc: Option<String>)
    requires
        0 <= pos,
    ensures
        parse_args_from(toks, pos, acc) matches Ok(x) ==> (pos >= toks.len() && acc == Some(x)) || exists|p: int|
            pos + 2 <= p && #[trigger] js_ref_value_at(toks, p, x) && (p == toks.len() - 1 || (p == toks.len() - 2
                && toks[toks.len() - 1] == TokenModel::Punct(','))),
    decreases toks.len() - pos,
{
    if pos < toks.len() && parse_args_from(toks, pos, acc) is Ok {
        let v = toks[pos + 2]->Ident_0;
        let next = if punct_at(toks, pos + 3, ',') { pos + 4 } else { pos + 3 };
        lemma_accepted_value_is_last_from(toks, next, Some(v));
        assert(js_ref_value_at(toks, pos + 2, v));
    }
}

/// An accepted argument list names the value of its last pair: that value
/// ends the list, or is followed only by a comma, and follows `js_ref =`.
pub proof fn lemma_accepted_value_is_last(toks: Seq<TokenModel>)
    ensures
        parse_args_from(toks, 0, None) matches Ok(x) ==> exists|p: int| #[trigger] js_ref_value_at(toks, p, x)
            && (p == toks.len() - 1 || (p == toks.len() - 2 && toks[toks.len() - 1] == TokenModel::Punct(','))),
{
    lemma_accepted_value_is_last_from(toks, 0, None);
}


/// The JS reference type's import and conversions all use the one method
/// that the block exports for them. The injected method is exported to JS
/// as `__wasm_refgen_to<Type>` under the Rust name
/// `__wasm_refgen_to_<type in snake case>`; the reference type is imported
/// as the JS class `class`; the imported binding is the method of that same
/// JS name on the reference type, under the same Rust name, returning the
/// Rust type; `FromJsRef::from_js_ref` and `From<&JsRef>` call it, and
/// `From<Type>` for the reference type converts through `JsValue`.
pub proof fn lemma_conversions_use_the_exported_upcast(js_ref: Seq<char>, ty: Seq<char>, class: Seq<char>)
    ensures
        contains_text(
            injected_method_text(ty),
            "] #[::wasm_bindgen::prelude::wasm_bindgen(js_name = "@ + str_lit("__wasm_refgen_to"@ + ty) + ")] pub fn "@
                + "__wasm_refgen_to_"@ + snake_case_of(ty) + "(&self) -> Self { self.clone() }"@,
        ),
        contains_text(
            refgen_extras_text(js_ref, ty, class),
            "] #[::wasm_bindgen::prelude::wasm_bindgen(method, js_name = "@ + str_lit("__wasm_refgen_to"@ + ty)
                + ")] pub fn "@ + "__wasm_refgen_to_"@ + snake_case_of(ty) + "(this: &"@ + js_ref + ") -> "@ + ty + "; }"@,
        ),
        contains_text(
            refgen_extras_text(js_ref, ty, class),
            "; #[inline] fn from_js_ref(castable: &Self::JsRef) -> Self { castable."@ + "__wasm_refgen_to_"@
                + snake_case_of(ty) + "() } }"@,
        ),
        contains_text(
            refgen_extras_text(js_ref, ty, class),
            " { fn from(js_ref: &"@ + js_ref + ") -> Self { js_ref."@ + "__wasm_refgen_to_"@ + snake_case_of(ty)
                + "() } }"@,
        ),
        contains_text(
            refgen_extras_text(js_ref, ty, class),
            "] #[::wasm_bindgen::prelude::wasm_bindgen(js_name = "@ + class + ", typescript_type = "@ + class
                + ")] pub type "@ + js_ref + "; #[doc = "@,
        ),
        contains_text(
            refgen_extras_text(js_ref, ty, class),
            " impl From<"@ + ty + "> for "@ + js_ref + " { fn from(v: "@ + ty
                + ") -> Self { ::wasm_bindgen::JsValue::from(v).unchecked_into() } }"@,
        ),
{
    lemma_injected_upcast(ty);
    lemma_from_js_ref_calls_upcast(js_ref, ty, class);
    lemma_into_js_ref_converts(js_ref, ty, class);
    lemma_from_ref_calls_upcast(js_ref, ty, class);
    lemma_import_names(js_ref, ty, class);
}

proof fn lemma_injected_upcast(ty: Seq<char>)
    ensures
        contains_text(
            injected_method_text(ty),
            "] #[::wasm_bindgen::prelude::wasm_bindgen(js_name = "@ + str_lit("__wasm_refgen_to"@ + ty) + ")] pub fn "@
                + "__wasm_refgen_to_"@ + snake_case_of(ty) + "(&self) -> Self { self.clone() }"@,
        ),
{
    let m = "__wasm_refgen_to_"@ + snake_case_of(ty);
    let inj_a = "#[doc = "@ + str_lit("Upcasts; to the JS-import type for [`"@ + ty + "`]."@);
    let inj_s = "] #[::wasm_bindgen::prelude::wasm_bindgen(js_name = "@ + str_lit("__wasm_refgen_to"@ + ty)
        + ")] pub fn "@ + "__wasm_refgen_to_"@ + snake_case_of(ty) + "(&self) -> Self { self.clone() }"@;
    assert(injected_method_text(ty) =~= inj_a + inj_s);
    lemma_contains_ends(inj_a, inj_s);
}

proof fn lemma_from_js_ref_calls_upcast(js_ref: Seq<char>, ty: Seq<char>, class: Seq<char>)
    ensures
        contains_text(
            refgen_extras_text(js_ref, ty, class),
            "; #[inline] fn from_js_ref(castable: &Self::JsRef) -> Self { castable."@ + "__wasm_refgen_to_"@
                + snake_case_of(ty) + "() } }"@,
        ),
{
    let a = from_js_ref_impl_text(js_ref, ty);
    let s1 = "; #[inline] fn from_js_ref(castable: &Self::JsRef) -> Self { castable."@ + "__wasm_refgen_to_"@
        + snake_case_of(ty) + "() } }"@;
    let a0 = "impl ::from_js_ref::FromJsRef for "@ + ty + " { type JsRef = "@ + js_ref;
    assert(a =~= a0 + s1);
    lemma_contains_ends(a0, s1);
    let rest = into_js_ref_impl_text(js_ref, ty) + from_js_ref_ref_impl_text(js_ref, ty) + js_import_text(js_ref, ty, class);
    lemma_contains_in_prefix(a, rest, s1);
    assert(a + rest =~= refgen_extras_text(js_ref, ty, class));
}

proof fn lemma_into_js_ref_converts(js_ref: Seq<char>, ty: Seq<char>, class: Seq<char>)
    ensures
        contains_text(
            refgen_extras_text(js_ref, ty, class),
            " impl From<"@ + ty + "> for "@ + js_ref + " { fn from(v: "@ + ty
                + ") -> Self { ::wasm_bindgen::JsValue::from(v).unchecked_into() } }"@,
        ),
{
    let a = from_js_ref_impl_text(js_ref, ty);
    let b = into_js_ref_impl_text(js_ref, ty);
    let rest = from_js_ref_ref_impl_text(js_ref, ty) + js_import_text(js_ref, ty, class);
    lemma_contains_middle(a, b, rest);
    assert(a + b + rest =~= refgen_extras_text(js_ref, ty, class));
}

proof fn lemma_from_ref_calls_upcast(js_ref: Seq<char>, ty: Seq<char>, class: Seq<char>)
    ensures
        contains_text(
            refgen_extras_text(js_ref, ty, class),
            " { fn from(js_ref: &"@ + js_ref + ") -> Self { js_ref."@ + "__wasm_refgen_to_"@ + snake_case_of(ty)
                + "() } }"@,
        ),
{
    let c = from_js_ref_ref_impl_text(js_ref, ty);
    let s3 = " { fn from(js_ref: &"@ + js_ref + ") -> Self { js_ref."@ + "__wasm_refgen_to_"@ + snake_case_of(ty)
        + "() } }"@;
    let c0 = " impl From< &"@ + js_ref + "> for "@ + ty;
    assert(c =~= c0 + s3);
    let ab = from_js_ref_impl_text(js_ref, ty) + into_js_ref_impl_text(js_ref, ty);
    let d = js_import_text(js_ref, ty, class);
    lemma_contains_middle(ab + c0, s3, d);
    assert(ab + c0 + s3 + d =~= refgen_extras_text(js_ref, ty, class));
}

proof fn lemma_import_names(js_ref: Seq<char>, ty: Seq<char>, class: Seq<char>)
    ensures
        contains_text(
            refgen_extras_text(js_ref, ty, class),
            "] #[::wasm_bindgen::prelude::wasm_bindgen(js_name = "@ + class + ", typescript_type = "@ + class
                + ")] pub type "@ + js_ref + "; #[doc = "@,
        ),
        contains_text(
            refgen_extras_text(js_ref, ty, class),
            "] #[::wasm_bindgen::prelude::wasm_bindgen(method, js_name = "@ + str_lit("__wasm_refgen_to"@ + ty)
                + ")] pub fn "@ + "__wasm_refgen_to_"@ + snake_case_of(ty) + "(this: &"@ + js_ref + ") -> "@ + ty + "; }"@,
        ),
{
    let d = js_import_text(js_ref, ty, class);
    let d0 = " #[::wasm_bindgen::prelude::wasm_bindgen] extern \"C\" { #[doc = "@ + str_lit("The JS-import type for [`"@
        + ty + "`].\n\nThis lets you use the duck typed interface to convert from JS values."@);
    let s4 = "] #[::wasm_bindgen::prelude::wasm_bindgen(js_name = "@ + class + ", typescript_type = "@ + class
        + ")] pub type "@ + js_ref + "; #[doc = "@;
    let d2 = str_lit("Use the JS duck type interface to upcast to [`"@ + ty + "`]."@);
    let s5 = "] #[::wasm_bindgen::prelude::wasm_bindgen(method, js_name = "@ + str_lit("__wasm_refgen_to"@ + ty)
        + ")] pub fn "@ + "__wasm_refgen_to_"@ + snake_case_of(ty) + "(this: &"@ + js_ref + ") -> "@ + ty + "; }"@;
    assert(d =~= d0 + s4 + (d2 + s5));
    assert(d =~= (d0 + s4 + d2) + s5);
    let abc = from_js_ref_impl_text(js_ref, ty) + into_js_ref_impl_text(js_ref, ty) + from_js_ref_ref_impl_text(js_ref, ty);
    assert(refgen_extras_text(js_ref, ty, class) == abc + d);
    lemma_contains_middle(d0, s4, d2 + s5);
    lemma_contains_in_suffix(abc, d, s4);
    lemma_contains_ends(d0 + s4 + d2, s5);
    lemma_contains_in_suffix(abc, d, s5);
}


/// The block keeps its head, inner attributes and items; the upcast method
/// is injected after the items exactly when no function of the block
/// already has its Rust name, so it is never declared twice.
pub proof fn lemma_upcast_injected_once(js_ref: Seq<char>, imp: ImplModel, ty: Seq<char>, class: Seq<char>)
    ensures
        (exists|i: int| 0 <= i < imp.items@.len() && ((#[trigger] imp.items@[i]).func matches Some(f)
            && f.sig.ident@ == "__wasm_refgen_to_"@ + snake_case_of(ty))) ==> refgen_text(js_ref, imp, ty, class)
            == imp.head@ + " { "@ + imp.inner_attrs@ + " "@ + join(imp.items@.map_values(|it: ImplItemModel| it.text@), " "@)
            + "  }"@ + " "@ + refgen_extras_text(js_ref, ty, class),
        !(exists|i: int| 0 <= i < imp.items@.len() && ((#[trigger] imp.items@[i]).func matches Some(f)
            && f.sig.ident@ == "__wasm_refgen_to_"@ + snake_case_of(ty))) ==> refgen_text(js_ref, imp, ty, class)
            == imp.head@ + " { "@ + imp.inner_attrs@ + " "@ + join(imp.items@.map_values(|it: ImplItemModel| it.text@), " "@)
            + " "@ + injected_method_text(ty) + " }"@ + " "@ + refgen_extras_text(js_ref, ty, class),
{
    reveal_strlit(" ");
    reveal_strlit(" }");
    reveal_strlit("  }");
    assert("  }"@ =~= " "@ + Seq::<char>::empty() + " }"@);
    let items = imp.items@.map_values(|it: ImplItemModel| it.text@);
    assert(items =~= item_texts(imp.items@));
}

} // verus!
