//! `#[derive(WasmError)]`: a `From<Error> for JsValue` impl that builds a JS
//! `Error` whose `name` is the type name without its `Wasm` prefix, or the
//! name given by `#[wasm_error(js_name = "...")]`.
use vstd::prelude::*;
use crate::attrs::{ident_is, opt_ident_is};
use crate::model::{ArgToken, AttrForm, AttrModel};
use crate::naming::{strip_wasm_prefix, strip_wasm_prefix_of};
use crate::strings::{compile_error_text, contains_text, lemma_contains_middle, str_eq, join, join_strings, render_compile_error, str_lit, string_literal, views};

verus! {

/// The item a `#[derive(WasmError)]` is placed on.
pub struct DeriveModel {
    /// The type's name.
    pub ident: String,
    /// The generic parameters as written after `impl` (`<T: Debug>`), or empty.
    pub impl_generics: String,
    /// The generic arguments as written after the type name (`<T>`), or empty.
    pub ty_generics: String,
    /// The predicates of the type's `where` clause, in order (none when it
    /// has no `where` clause).
    pub where_predicates: Vec<String>,
    pub attrs: Vec<AttrModel>,
}

/// Why a `#[wasm_error(...)]` attribute is refused.
#[derive(Debug, Clone, Copy, PartialEq, Eq, Structural)]
pub enum WasmErrorAttrError {
    /// The attribute is a bare path: `#[wasm_error]`.
    NoArguments,
    /// The attribute has the form `#[wasm_error = ...]`.
    NotParenthesized,
    /// An item starts with `::` and nothing follows.
    EndExpectedNestedAttribute,
    /// An item starts with a literal.
    UnexpectedLiteral,
    /// An item starts with neither an identifier nor a literal.
    UnexpectedToken,
    /// No identifier after `::` in an item's path.
    ExpectedIdent,
    /// The list ends after `::` in an item's path.
    EndExpectedIdent,
    /// An item's path is not `js_name`.
    UnknownKey,
    /// No `=` after `js_name` (the list may end there).
    MissingValue,
    /// `js_name =` followed by something other than a string literal.
    NotAString,
    /// The list ends after `js_name =`.
    EndNotAString,
    /// An item is followed by something other than `,`.
    ExpectedComma,
}

/// The message of each refusal; at the end of the list the message says
/// so first.
pub open spec fn attr_error_message(e: WasmErrorAttrError) -> Seq<char> {
    match e {
        WasmErrorAttrError::NoArguments => "expected attribute arguments in parentheses: #[wasm_error(...)]"@,
        WasmErrorAttrError::NotParenthesized => "expected parentheses: #[wasm_error(...)]"@,
        WasmErrorAttrError::EndExpectedNestedAttribute => "unexpected end of input, expected nested attribute"@,
        WasmErrorAttrError::UnexpectedLiteral => "unexpected literal in nested attribute, expected ident"@,
        WasmErrorAttrError::UnexpectedToken => "unexpected token in nested attribute, expected ident"@,
        WasmErrorAttrError::ExpectedIdent => "expected ident"@,
        WasmErrorAttrError::EndExpectedIdent => "unexpected end of input, expected ident"@,
        WasmErrorAttrError::UnknownKey => "unknown attribute, expected `js_name = \"...\"`"@,
        WasmErrorAttrError::MissingValue => "expected `=`"@,
        WasmErrorAttrError::NotAString => "expected string literal"@,
        WasmErrorAttrError::EndNotAString => "unexpected end of input, expected string literal"@,
        WasmErrorAttrError::ExpectedComma => "expected `,`"@,
    }
}

impl WasmErrorAttrError {
    /// The message reported for this refusal.
    pub fn message(&self) -> (r: String)
        ensures
            r@ == attr_error_message(*self),
    {
        match self {
            WasmErrorAttrError::NoArguments => String::from_str(
                "expected attribute arguments in parentheses: #[wasm_error(...)]",
            ),
            WasmErrorAttrError::NotParenthesized => String::from_str("expected parentheses: #[wasm_error(...)]"),
            WasmErrorAttrError::EndExpectedNestedAttribute => String::from_str(
                "unexpected end of input, expected nested attribute",
            ),
            WasmErrorAttrError::UnexpectedLiteral => String::from_str(
                "unexpected literal in nested attribute, expected ident",
            ),
            WasmErrorAttrError::UnexpectedToken => String::from_str("unexpected token in nested attribute, expected ident"),
            WasmErrorAttrError::ExpectedIdent => String::from_str("expected ident"),
            WasmErrorAttrError::EndExpectedIdent => String::from_str("unexpected end of input, expected ident"),
            WasmErrorAttrError::UnknownKey => String::from_str("unknown attribute, expected `js_name = \"...\"`"),
            WasmErrorAttrError::MissingValue => String::from_str("expected `=`"),
            WasmErrorAttrError::NotAString => String::from_str("expected string literal"),
            WasmErrorAttrError::EndNotAString => String::from_str("unexpected end of input, expected string literal"),
            WasmErrorAttrError::ExpectedComma => String::from_str("expected `,`"),
        }
    }
}

/// The refusal of a `#[wasm_error]` attribute that is not a list, by its
/// form.
pub open spec fn unparsed_error(form: AttrForm) -> WasmErrorAttrError {
    match form {
        AttrForm::NameValue => WasmErrorAttrError::NotParenthesized,
        _ => WasmErrorAttrError::NoArguments,
    }
}

/// Whether the token at `p` is the punctuation `c`.
pub open spec fn punct_is(toks: Seq<ArgToken>, p: int, c: char) -> bool {
    0 <= p < toks.len() && (toks[p] matches ArgToken::Punct { ch, .. } && ch == c)
}

/// Whether `::` stands at `p`: a `:` written directly before another `:`.
pub open spec fn colons_at(toks: Seq<ArgToken>, p: int) -> bool {
    &&& 0 <= p
    &&& p + 1 < toks.len()
    &&& toks[p] matches ArgToken::Punct { ch, joint } && ch == ':' && joint
    &&& punct_is(toks, p + 1, ':')
}

/// Whether a literal starts at `p`: a literal token, or `-` before a
/// number.
pub open spec fn literal_at(toks: Seq<ArgToken>, p: int) -> bool {
    ||| 0 <= p < toks.len() && (toks[p] is StrLit || toks[p] is NumLit || toks[p] is OtherLit)
    ||| punct_is(toks, p, '-') && p + 1 < toks.len() && toks[p + 1] is NumLit
}

/// The rest of an item's path after its identifier at `p - 1`: any number
/// of `::` and an identifier. The position after it, or the refusal.
pub open spec fn path_rest(toks: Seq<ArgToken>, p: int) -> Result<int, WasmErrorAttrError>
    decreases toks.len() - p,
{
    if p < 0 || !colons_at(toks, p) {
        Ok(p)
    } else if p + 2 >= toks.len() {
        Err(WasmErrorAttrError::EndExpectedIdent)
    } else if toks[p + 2] is Ident {
        path_rest(toks, p + 3)
    } else {
        Err(WasmErrorAttrError::ExpectedIdent)
    }
}

/// An item's path starting at `p` (an optional leading `::`, identifiers
/// separated by `::`, keywords included): the position after it, and
/// whether it is exactly `js_name`; or the refusal.
pub open spec fn meta_path(toks: Seq<ArgToken>, p: int) -> Result<(int, bool), WasmErrorAttrError> {
    let lead = colons_at(toks, p);
    let q = if lead { p + 2 } else { p };
    if 0 <= q < toks.len() && toks[q] is Ident {
        match path_rest(toks, q + 1) {
            Err(e) => Err(e),
            Ok(end) => Ok((end, !lead && end == q + 1 && toks[q]->Ident_0@ == "js_name"@)),
        }
    } else if q >= toks.len() {
        Err(WasmErrorAttrError::EndExpectedNestedAttribute)
    } else if literal_at(toks, q) {
        Err(WasmErrorAttrError::UnexpectedLiteral)
    } else {
        Err(WasmErrorAttrError::UnexpectedToken)
    }
}

proof fn lemma_path_rest_advances(toks: Seq<ArgToken>, p: int)
    requires
        0 <= p <= toks.len(),
    ensures
        path_rest(toks, p) matches Ok(e) ==> p <= e <= toks.len(),
    decreases toks.len() - p,
{
    if colons_at(toks, p) && p + 2 < toks.len() && toks[p + 2] is Ident {
        lemma_path_rest_advances(toks, p + 3);
    }
}

/// An item's path, when it is read, ends after where it starts and within
/// the list.
pub proof fn lemma_meta_path_advances(toks: Seq<ArgToken>, p: int)
    requires
        0 <= p,
    ensures
        meta_path(toks, p) matches Ok((q, b)) ==> p < q <= toks.len(),
{
    let q = if colons_at(toks, p) { p + 2 } else { p };
    if 0 <= q < toks.len() && toks[q] is Ident {
        lemma_path_rest_advances(toks, q + 1);
    }
}

/// Reads the items of one `#[wasm_error(...)]` list from `p` on, as syn's
/// nested-meta parser does with the derive's check of each item: every item
/// must be `js_name = "..."`, items are separated by commas (a trailing one
/// is allowed), and the last item gives the name.
pub open spec fn scan_items(toks: Seq<ArgToken>, p: int, acc: Option<String>) -> Result<Option<String>, WasmErrorAttrError>
    decreases toks.len() - p,
{
    if p < 0 || p >= toks.len() {
        Ok(acc)
    } else {
        match meta_path(toks, p) {
            Err(e) => Err(e),
            Ok((q, is_js_name)) => if !is_js_name {
                Err(WasmErrorAttrError::UnknownKey)
            } else if !punct_is(toks, q, '=') {
                Err(WasmErrorAttrError::MissingValue)
            } else if q + 1 >= toks.len() {
                Err(WasmErrorAttrError::EndNotAString)
            } else if !(toks[q + 1] is StrLit) {
                Err(WasmErrorAttrError::NotAString)
            } else if q + 2 >= toks.len() {
                Ok(Some(toks[q + 1]->StrLit_0))
            } else if !punct_is(toks, q + 2, ',') {
                Err(WasmErrorAttrError::ExpectedComma)
            } else {
                proof {
                    lemma_meta_path_advances(toks, p);
                }
                scan_items(toks, q + 3, Some(toks[q + 1]->StrLit_0))
            },
        }
    }
}

/// The explicit JS name given by the first `#[wasm_error(...)]` attribute
/// that names one; every `#[wasm_error]` attribute up to it must be valid.
pub open spec fn wasm_error_js_name(attrs: Seq<AttrModel>) -> Result<Option<String>, WasmErrorAttrError>
    decreases attrs.len(),
{
    if attrs.len() == 0 {
        Ok(None)
    } else if ident_is(attrs[0].name, "wasm_error"@) {
        match attrs[0].form {
            AttrForm::List => match scan_items(attrs[0].tokens@, 0, None) {
                Err(e) => Err(e),
                Ok(Some(n)) => Ok(Some(n)),
                Ok(None) => wasm_error_js_name(attrs.drop_first()),
            },
            _ => Err(unparsed_error(attrs[0].form)),
        }
    } else {
        wasm_error_js_name(attrs.drop_first())
    }
}

fn is_punct(toks: &Vec<ArgToken>, p: usize, c: char) -> (r: bool)
    ensures
        r == punct_is(toks@, p as int, c),
{
    p < toks.len() && match &toks[p] {
        ArgToken::Punct { ch, .. } => *ch == c,
        _ => false,
    }
}

fn colons_exec(toks: &Vec<ArgToken>, p: usize) -> (r: bool)
    ensures
        r == colons_at(toks@, p as int),
{
    toks.len() > 1 && p < toks.len() - 1 && match &toks[p] {
        ArgToken::Punct { ch, joint } => *ch == ':' && *joint,
        _ => false,
    } && is_punct(toks, p + 1, ':')
}

fn meta_path_exec(toks: &Vec<ArgToken>, p: usize) -> (r: Result<(usize, bool), WasmErrorAttrError>)
    ensures
        match (r, meta_path(toks@, p as int)) {
            (Ok((q, b)), Ok((q2, b2))) => q == q2 && b == b2,
            (Err(e), Err(f)) => e == f,
            _ => false,
        },
{
    proof {
        lemma_meta_path_advances(toks@, p as int);
    }
    let lead = colons_exec(toks, p);
    assert(lead ==> p + 1 < toks.len());
    let q = if lead { p + 2 } else { p };
    let first = if q < toks.len() {
        match &toks[q] {
            ArgToken::Ident(s) => Some(s),
            _ => None,
        }
    } else {
        None
    };
    match first {
        Some(s) => {
            let mut cur = q + 1;
            proof {
                lemma_path_rest_advances(toks@, cur as int);
            }
            while colons_exec(toks, cur)
                invariant
                    q + 1 <= cur <= toks.len(),
                    q < toks.len(),
                    toks@[q as int] == ArgToken::Ident(*s),
                    lead == colons_at(toks@, p as int),
                    q == (if lead { p + 2 } else { p as int }),
                    path_rest(toks@, q + 1) == path_rest(toks@, cur as int),
                decreases toks.len() - cur,
            {
                if cur + 2 >= toks.len() {
                    return Err(WasmErrorAttrError::EndExpectedIdent);
                }
                match &toks[cur + 2] {
                    ArgToken::Ident(_) => {},
                    _ => {
                        return Err(WasmErrorAttrError::ExpectedIdent);
                    },
                }
                cur = cur + 3;
            }
            let exact = !lead && cur == q + 1 && str_eq(s.as_str(), "js_name");
            Ok((cur, exact))
        },
        None => {
            if q >= toks.len() {
                Err(WasmErrorAttrError::EndExpectedNestedAttribute)
            } else {
                let lit = match &toks[q] {
                    ArgToken::StrLit(_) | ArgToken::NumLit | ArgToken::OtherLit => true,
                    _ => is_punct(toks, q, '-') && q + 1 < toks.len() && match &toks[q + 1] {
                        ArgToken::NumLit => true,
                        _ => false,
                    },
                };
                if lit {
                    Err(WasmErrorAttrError::UnexpectedLiteral)
                } else {
                    Err(WasmErrorAttrError::UnexpectedToken)
                }
            }
        },
    }
}

fn scan_items_exec(toks: &Vec<ArgToken>) -> (r: Result<Option<String>, WasmErrorAttrError>)
    ensures
        r == scan_items(toks@, 0, None),
{
    let mut acc: Option<String> = None;
    let mut p: usize = 0;
    while p < toks.len()
        invariant
            scan_items(toks@, 0, None) == scan_items(toks@, p as int, acc),
        decreases toks.len() - p,
    {
        proof {
            lemma_meta_path_advances(toks@, p as int);
        }
        let (q, is_js_name) = match meta_path_exec(toks, p) {
            Err(e) => {
                return Err(e);
            },
            Ok(x) => x,
        };
        if !is_js_name {
            return Err(WasmErrorAttrError::UnknownKey);
        }
        if !is_punct(toks, q, '=') {
            return Err(WasmErrorAttrError::MissingValue);
        }
        if q + 1 >= toks.len() {
            return Err(WasmErrorAttrError::EndNotAString);
        }
        let v = match &toks[q + 1] {
            ArgToken::StrLit(v) => v.clone(),
            _ => {
                return Err(WasmErrorAttrError::NotAString);
            },
        };
        if q + 2 >= toks.len() {
            return Ok(Some(v));
        }
        if !is_punct(toks, q + 2, ',') {
            return Err(WasmErrorAttrError::ExpectedComma);
        }
        acc = Some(v);
        p = q + 3;
    }
    Ok(acc)
}

/// Extracts `js_name = "..."` from `#[wasm_error(js_name = "...")]`, if
/// present.
pub fn extract_js_name(attrs: &Vec<AttrModel>) -> (r: Result<Option<String>, WasmErrorAttrError>)
    ensures
        r == wasm_error_js_name(attrs@),
{
    let mut i: usize = 0;
    assert(attrs@.skip(0) =~= attrs@);
    while i < attrs.len()
        invariant
            i <= attrs.len(),
            wasm_error_js_name(attrs@) == wasm_error_js_name(attrs@.skip(i as int)),
        decreases attrs.len() - i,
    {
        assert(attrs@.skip(i as int).drop_first() =~= attrs@.skip(i + 1));
        assert(attrs@.skip(i as int)[0] == attrs@[i as int]);
        let a = &attrs[i];
        if opt_ident_is(&a.name, "wasm_error") {
            match a.form {
                AttrForm::List => {
                    match scan_items_exec(&a.tokens) {
                        Err(e) => {
                            return Err(e);
                        },
                        Ok(Some(n)) => {
                            return Ok(Some(n));
                        },
                        Ok(None) => {},
                    }
                },
                AttrForm::NameValue => {
                    return Err(WasmErrorAttrError::NotParenthesized);
                },
                AttrForm::Path => {
                    return Err(WasmErrorAttrError::NoArguments);
                },
            }
        }
        i = i + 1;
    }
    Ok(None)
}

/// The JS error name: the explicit `js_name` if given, else the type name
/// without a leading `Wasm`.
pub open spec fn resolved_js_name(explicit: Option<String>, ident: Seq<char>) -> Seq<char> {
    match explicit {
        Some(n) => n@,
        None => strip_wasm_prefix_of(ident),
    }
}

/// The bound that the generated impl adds: `Type<..>: ::core::error::Error`.
pub open spec fn error_bound(d: DeriveModel) -> Seq<char> {
    d.ident@ + d.ty_generics@ + ": ::core::error::Error"@
}

/// The predicates of the generated impl's `where` clause: the type's own
/// predicates, in order, then the `Error` bound.
pub open spec fn extended_predicates(d: DeriveModel) -> Seq<Seq<char>> {
    views(d.where_predicates@).push(error_bound(d))
}

/// The `where` clause of the generated impl: the type's own clause extended
/// with the `Error` bound, predicates separated by commas, with a trailing
/// comma.
pub open spec fn extended_where(d: DeriveModel) -> Seq<char> {
    "where "@ + join(extended_predicates(d), ", "@) + ","@
}

/// The generated impl, with `js_name` as the JS error name.
pub open spec fn wasm_error_text(d: DeriveModel, js_name: Seq<char>) -> Seq<char> {
    "impl "@ + d.impl_generics@ + " ::core::convert::From<"@ + d.ident@ + d.ty_generics@
        + "> for ::wasm_bindgen::JsValue "@ + extended_where(d)
        + " { fn from(err: "@ + d.ident@ + d.ty_generics@
        + ") -> Self { let js_err = ::js_sys::Error::new(&err.to_string(),); js_err.set_name("@
        + str_lit(js_name) + "); js_err.into() } }"@
}

/// What the derive expands to: the impl text, or the attribute's refusal.
pub open spec fn wasm_error_expansion(d: DeriveModel) -> Result<Seq<char>, WasmErrorAttrError> {
    match wasm_error_js_name(d.attrs@) {
        Err(e) => Err(e),
        Ok(explicit) => Ok(wasm_error_text(d, resolved_js_name(explicit, d.ident@))),
    }
}

/// Generates `From<Type> for ::wasm_bindgen::JsValue`, creating a
/// `::js_sys::Error` from the error's `Display` text and setting its name.
pub fn wasm_error_impl(input: &DeriveModel) -> (r: Result<String, WasmErrorAttrError>)
    ensures
        match (r, wasm_error_expansion(*input)) {
            (Ok(s), Ok(t)) => s@ == t,
            (Err(e), Err(f)) => e == f,
            _ => false,
        },
{
    let explicit = match extract_js_name(&input.attrs) {
        Err(e) => {
            return Err(e);
        },
        Ok(n) => n,
    };
    let ghost explicit_spec = explicit;
    let js_name = match explicit {
        Some(n) => n,
        None => strip_wasm_prefix(input.ident.as_str()),
    };
    assert(js_name@ == resolved_js_name(explicit_spec, input.ident@));
    let mut r = String::from_str("impl ");
    r.append(input.impl_generics.as_str());
    r.append(" ::core::convert::From<");
    r.append(input.ident.as_str());
    r.append(input.ty_generics.as_str());
    r.append("> for ::wasm_bindgen::JsValue ");
    let mut preds: Vec<String> = Vec::new();
    let mut k: usize = 0;
    while k < input.where_predicates.len()
        invariant
            k <= input.where_predicates.len(),
            preds@.len() == k,
            forall|j: int| 0 <= j < k ==> #[trigger] preds@[j]@ == input.where_predicates@[j]@,
        decreases input.where_predicates.len() - k,
    {
        preds.push(input.where_predicates[k].clone());
        k = k + 1;
    }
    let bound = input.ident.clone().concat(input.ty_generics.as_str()).concat(": ::core::error::Error");
    preds.push(bound);
    assert(views(preds@) =~= extended_predicates(*input));
    r.append("where ");
    r.append(join_strings(&preds, ", ").as_str());
    r.append(",");
    r.append(" { fn from(err: ");
    r.append(input.ident.as_str());
    r.append(input.ty_generics.as_str());
    r.append(") -> Self { let js_err = ::js_sys::Error::new(&err.to_string(),); js_err.set_name(");
    let lit = string_literal(js_name.as_str());
    r.append(lit.as_str());
    r.append("); js_err.into() } }");
    assert(r@ =~= wasm_error_text(*input, js_name@));
    Ok(r)
}


/// `#[derive(WasmError)]`: the generated impl, or a compile error carrying
/// the attribute's refusal.
pub fn derive_wasm_error(input: &DeriveModel) -> (r: String)
    ensures
        r@ == match wasm_error_expansion(*input) {
            Ok(t) => t,
            Err(e) => compile_error_text(attr_error_message(e)),
        },
{
    match wasm_error_impl(input) {
        Ok(s) => s,
        Err(e) => render_compile_error(e.message().as_str()),
    }
}

/// Attributes other than `#[wasm_error]` do not change the outcome.
pub proof fn lemma_other_attributes_are_ignored(a: AttrModel, attrs: Seq<AttrModel>)
    requires
        !ident_is(a.name, "wasm_error"@),
    ensures
        wasm_error_js_name(seq![a] + attrs) == wasm_error_js_name(attrs),
{
    assert((seq![a] + attrs).drop_first() =~= attrs);
}

proof fn lemma_no_wasm_error_attrs(attrs: Seq<AttrModel>)
    requires
        forall|i: int| 0 <= i < attrs.len() ==> !ident_is(#[trigger] attrs[i].name, "wasm_error"@),
    ensures
        wasm_error_js_name(attrs) == Ok::<Option<String>, WasmErrorAttrError>(None),
    decreases attrs.len(),
{
    if attrs.len() > 0 {
        assert(!ident_is(attrs[0].name, "wasm_error"@));
        assert forall|i: int| 0 <= i < attrs.drop_first().len() implies !ident_is(#[trigger] attrs.drop_first()[i].name, "wasm_error"@) by {
            assert(attrs.drop_first()[i] == attrs[i + 1]);
        }
        lemma_no_wasm_error_attrs(attrs.drop_first());
    }
}

/// Without a `#[wasm_error]` attribute, the JS error name is the type name
/// without its leading `Wasm`.
pub proof fn lemma_default_name_strips_prefix(d: DeriveModel)
    requires
        forall|i: int| 0 <= i < d.attrs@.len() ==> !ident_is(#[trigger] d.attrs@[i].name, "wasm_error"@),
    ensures
        wasm_error_expansion(d) == Ok::<Seq<char>, WasmErrorAttrError>(wasm_error_text(d, strip_wasm_prefix_of(d.ident@))),
{
    lemma_no_wasm_error_attrs(d.attrs@);
}


proof fn lemma_scan_never_settles_on_none(toks: Seq<ArgToken>, p: int, acc: Option<String>)
    requires
        0 <= p,
        acc is Some || p < toks.len(),
    ensures
        scan_items(toks, p, acc) != Ok::<Option<String>, WasmErrorAttrError>(None),
    decreases toks.len() - p,
{
    if p < toks.len() {
        lemma_meta_path_advances(toks, p);
        if let Ok((q, b)) = meta_path(toks, p) {
            if b && q + 2 < toks.len() && punct_is(toks, q, '=') && toks[q + 1] is StrLit && punct_is(toks, q + 2, ',') {
                lemma_scan_never_settles_on_none(toks, q + 3, Some(toks[q + 1]->StrLit_0));
            }
        }
    }
}

/// The tokens of one `key = "value"` item, with or without a trailing
/// comma.
pub open spec fn name_item(key: String, value: String, comma: bool) -> Seq<ArgToken> {
    seq![ArgToken::Ident(key), ArgToken::Punct { ch: '=', joint: false }, ArgToken::StrLit(value)]
        + (if comma { seq![ArgToken::Punct { ch: ',', joint: false }] } else { Seq::<ArgToken>::empty() })
}

/// The tokens of a list of `key = "value"` items with the same key, the
/// `k`-th followed by a comma when `commas[k]` holds.
pub open spec fn name_items(key: String, values: Seq<String>, commas: Seq<bool>) -> Seq<ArgToken>
    decreases values.len(),
{
    if values.len() == 0 || commas.len() == 0 {
        Seq::<ArgToken>::empty()
    } else {
        name_item(key, values[0], commas[0]) + name_items(key, values.drop_first(), commas.drop_first())
    }
}

proof fn lemma_name_items_from(toks: Seq<ArgToken>, start: int, key: String, values: Seq<String>, commas: Seq<bool>, acc: Option<String>)
    requires
        0 <= start <= toks.len(),
        toks.subrange(start, toks.len() as int) == name_items(key, values, commas),
        values.len() == commas.len(),
        forall|k: int| 0 <= k < commas.len() - 1 ==> #[trigger] commas[k],
        key@ == "js_name"@,
    ensures
        scan_items(toks, start, acc) == Ok::<Option<String>, WasmErrorAttrError>(
            if values.len() > 0 { Some(values.last()) } else { acc },
        ),
    decreases values.len(),
{
    if values.len() == 0 {
        assert(toks.subrange(start, toks.len() as int).len() == 0);
    } else {
        let item = name_item(key, values[0], commas[0]);
        let rest = name_items(key, values.drop_first(), commas.drop_first());
        let all = toks.subrange(start, toks.len() as int);
        assert(all == item + rest);
        let ilen = item.len() as int;
        assert(toks[start] == all[0]);
        assert(toks[start + 1] == all[1]);
        assert(toks[start + 2] == all[2]);
        assert(!colons_at(toks, start));
        assert(!colons_at(toks, start + 1));
        assert(path_rest(toks, start + 1) == Ok::<int, WasmErrorAttrError>(start + 1));
        assert(meta_path(toks, start) == Ok::<(int, bool), WasmErrorAttrError>((start + 1, true)));
        if values.len() > 1 {
            assert(commas[0]);
            assert(toks[start + 3] == all[3]);
        } else if commas[0] {
            assert(toks[start + 3] == all[3]);
            assert(rest.len() == 0);
        } else {
            assert(rest.len() == 0);
            assert(toks.len() == start + 3);
        }
        assert(toks.subrange(start + ilen, toks.len() as int) =~= rest) by {
            assert forall|j: int| 0 <= j < rest.len() implies toks.subrange(start + ilen, toks.len() as int)[j] == rest[j] by {
                assert(toks[start + ilen + j] == all[ilen + j]);
            }
        }
        assert forall|k: int| 0 <= k < commas.drop_first().len() - 1 implies #[trigger] commas.drop_first()[k] by {
            assert(commas.drop_first()[k] == commas[k + 1]);
        }
        if commas[0] {
            lemma_name_items_from(toks, start + ilen, key, values.drop_first(), commas.drop_first(), Some(values[0]));
        }
        if values.len() > 1 {
            assert(values.drop_first().last() == values.last());
        }
    }
}

/// A `#[wasm_error(...)]` list of `js_name = "..."` items separated by
/// commas (a trailing comma allowed) is accepted, and its last item's name
/// wins.
pub proof fn lemma_last_js_name_in_list_wins(key: String, values: Seq<String>, commas: Seq<bool>)
    requires
        values.len() > 0,
        values.len() == commas.len(),
        forall|k: int| 0 <= k < commas.len() - 1 ==> #[trigger] commas[k],
        key@ == "js_name"@,
    ensures
        scan_items(name_items(key, values, commas), 0, None) == Ok::<Option<String>, WasmErrorAttrError>(
            Some(values.last()),
        ),
{
    let toks = name_items(key, values, commas);
    assert(toks.subrange(0, toks.len() as int) =~= toks);
    lemma_name_items_from(toks, 0, key, values, commas, None);
}

/// An item whose path is a single identifier other than `js_name` is
/// refused as an unknown attribute.
pub proof fn lemma_other_key_is_refused(toks: Seq<ArgToken>, key: String)
    requires
        toks.len() > 0,
        toks[0] == ArgToken::Ident(key),
        key@ != "js_name"@,
        !colons_at(toks, 1),
    ensures
        scan_items(toks, 0, None) == Err::<Option<String>, WasmErrorAttrError>(WasmErrorAttrError::UnknownKey),
{
    assert(!colons_at(toks, 0));
    assert(path_rest(toks, 1) == Ok::<int, WasmErrorAttrError>(1));
}

/// Whether an attribute decides the explicit JS name: a `#[wasm_error]`
/// attribute other than an empty `#[wasm_error()]`.
pub open spec fn decides_js_name(a: AttrModel) -> bool {
    ident_is(a.name, "wasm_error"@) && !(a.form is List && a.tokens@.len() == 0)
}

/// Without a deciding `#[wasm_error]` attribute there is no explicit name
/// and no refusal.
pub proof fn lemma_no_deciding_attribute(attrs: Seq<AttrModel>)
    requires
        forall|i: int| 0 <= i < attrs.len() ==> !decides_js_name(#[trigger] attrs[i]),
    ensures
        wasm_error_js_name(attrs) == Ok::<Option<String>, WasmErrorAttrError>(None),
    decreases attrs.len(),
{
    if attrs.len() > 0 {
        let rest = attrs.drop_first();
        assert(!decides_js_name(attrs[0]));
        assert forall|i: int| 0 <= i < rest.len() implies !decides_js_name(#[trigger] rest[i]) by {
            assert(rest[i] == attrs[i + 1]);
        }
        lemma_no_deciding_attribute(rest);
    }
}

/// The first deciding `#[wasm_error]` attribute settles the outcome, and
/// nothing after it is read: one that is not a list is refused by its form;
/// a list gives what reading its items gives (its last `js_name`, or the
/// first refusal met).
pub proof fn lemma_first_deciding_attribute_settles(attrs: Seq<AttrModel>, i: int)
    requires
        0 <= i < attrs.len(),
        decides_js_name(attrs[i]),
        forall|j: int| 0 <= j < i ==> !decides_js_name(#[trigger] attrs[j]),
    ensures
        !(attrs[i].form is List) ==> wasm_error_js_name(attrs) == Err::<Option<String>, WasmErrorAttrError>(
            unparsed_error(attrs[i].form),
        ),
        attrs[i].form is List ==> wasm_error_js_name(attrs) == scan_items(attrs[i].tokens@, 0, None),
        wasm_error_js_name(attrs) != Ok::<Option<String>, WasmErrorAttrError>(None),
    decreases i,
{
    if i == 0 {
        if attrs[0].form is List {
            lemma_scan_never_settles_on_none(attrs[0].tokens@, 0, None);
        }
    } else {
        let rest = attrs.drop_first();
        assert(!decides_js_name(attrs[0]));
        assert(rest[i - 1] == attrs[i]);
        assert forall|j: int| 0 <= j < i - 1 implies !decides_js_name(#[trigger] rest[j]) by {
            assert(rest[j] == attrs[j + 1]);
        }
        lemma_first_deciding_attribute_settles(rest, i - 1);
        if ident_is(attrs[0].name, "wasm_error"@) {
            assert(attrs[0].tokens@.len() == 0);
            assert(scan_items(attrs[0].tokens@, 0, None) == Ok::<Option<String>, WasmErrorAttrError>(None));
        }
        assert(wasm_error_js_name(attrs) == wasm_error_js_name(rest));
    }
}

/// `#[wasm_error(js_name = "...")]` as the first attribute gives the JS
/// error name literally, whatever the type is called.
pub proof fn lemma_explicit_name_wins(d: DeriveModel, key: String, name: String)
    requires
        d.attrs@.len() > 0,
        ident_is(d.attrs@[0].name, "wasm_error"@),
        d.attrs@[0].form is List,
        d.attrs@[0].tokens@ == name_items(key, seq![name], seq![false]),
        key@ == "js_name"@,
    ensures
        wasm_error_expansion(d) == Ok::<Seq<char>, WasmErrorAttrError>(wasm_error_text(d, name@)),
{
    lemma_last_js_name_in_list_wins(key, seq![name], seq![false]);
    assert(seq![name].last() == name);
}


/// The derived impl is `From<Type<..>>` for `::wasm_bindgen::JsValue`, under
/// a `where` clause holding the type's own predicates and then the bound
/// that the type is an `Error`; it builds a JS `Error` from the error's
/// `Display` text and sets that error's `name` to the given JS name.
pub proof fn lemma_impl_builds_a_named_js_error(d: DeriveModel, js_name: Seq<char>)
    ensures
        contains_text(
            wasm_error_text(d, js_name),
            " ::core::convert::From<"@ + d.ident@ + d.ty_generics@ + "> for ::wasm_bindgen::JsValue "@,
        ),
        contains_text(
            wasm_error_text(d, js_name),
            "where "@ + join(views(d.where_predicates@).push(d.ident@ + d.ty_generics@ + ": ::core::error::Error"@), ", "@)
                + ","@,
        ),
        contains_text(
            wasm_error_text(d, js_name),
            "let js_err = ::js_sys::Error::new(&err.to_string(),); js_err.set_name("@ + str_lit(js_name) + "); js_err.into()"@,
        ),
{
    let t = wasm_error_text(d, js_name);
    let a = "impl "@ + d.impl_generics@;
    let b = " ::core::convert::From<"@ + d.ident@ + d.ty_generics@ + "> for ::wasm_bindgen::JsValue "@;
    let w = "where "@ + join(views(d.where_predicates@).push(d.ident@ + d.ty_generics@ + ": ::core::error::Error"@), ", "@)
        + ","@;
    let c = " { fn from(err: "@ + d.ident@ + d.ty_generics@ + ") -> Self { "@;
    let e = "let js_err = ::js_sys::Error::new(&err.to_string(),); js_err.set_name("@ + str_lit(js_name) + "); js_err.into()"@;
    let f = " } }"@;
    reveal_strlit(") -> Self { let js_err = ::js_sys::Error::new(&err.to_string(),); js_err.set_name(");
    reveal_strlit(") -> Self { ");
    reveal_strlit("let js_err = ::js_sys::Error::new(&err.to_string(),); js_err.set_name(");
    reveal_strlit("); js_err.into() } }");
    reveal_strlit("); js_err.into()");
    reveal_strlit(" } }");
    assert(") -> Self { let js_err = ::js_sys::Error::new(&err.to_string(),); js_err.set_name("@
        =~= ") -> Self { "@ + "let js_err = ::js_sys::Error::new(&err.to_string(),); js_err.set_name("@);
    assert("); js_err.into() } }"@ =~= "); js_err.into()"@ + " } }"@);
    assert(t =~= a + b + w + c + e + f);
    lemma_contains_middle(a, b, w + c + e + f);
    assert(t =~= a + b + (w + c + e + f));
    lemma_contains_middle(a + b, w, c + e + f);
    assert(t =~= (a + b) + w + (c + e + f));
    lemma_contains_middle(a + b + w + c, e, f);
}

} // verus!
