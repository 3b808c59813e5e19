//! `#[wasm_implements(Trait)]` on an inherent `impl` block: a runtime tag
//! method injected into the block, a hidden `impl Trait for Type` witness
//! that makes the compiler check every public method's signature, and a
//! compile-time check that the block exports every JS method name the
//! interface lists.
use vstd::prelude::*;
use crate::attrs::{clean_attrs_text, extract_js_name_from_attrs, js_name_in_attrs, render_clean_attrs};
use crate::method::{arg_names, arg_names_of, has_receiver, has_self_receiver, render_rpitit_signature, rpitit_sig_text};
use crate::model::{ImplFnModel, ImplItemModel, ImplModel};
use crate::naming::{
    js_interface_const_ident, js_interface_const_name, shouty_snake_case_of, snake_case_of, tag_method_js_name, tag_method_js_name_of, tag_method_rust_ident,
    tag_method_rust_name,
};
use crate::render::{impl_block_text, render_impl_block};
use crate::js_trait::{method_js_name, trait_method_text, TraitFnModel};
use crate::strings::{compile_error_text, contains_text, lemma_contains_middle, join, join_strings, render_compile_error, starts_with, str_lit, string_literal, views};

verus! {

/// The path of the trait given to `#[wasm_implements(...)]`.
pub struct TraitPathModel {
    /// The path's source text.
    pub text: String,
    /// The identifier of its last segment (absent for an empty path).
    pub last: Option<String>,
    /// The path's text before its last segment, up to and including the
    /// final `::` (`crate::traits::` for `crate::traits::Storage`); empty
    /// for a one-segment path.
    pub prefix: String,
}

/// Why `#[wasm_implements]` refuses its input.
#[derive(Debug, Clone, Copy, PartialEq, Eq, Structural)]
pub enum ImplementsError {
    /// The block is a trait impl.
    TraitImpl,
    /// The trait path has no segment.
    EmptyPath,
}

/// The message of each refusal.
pub open spec fn implements_error_message(e: ImplementsError) -> Seq<char> {
    match e {
        ImplementsError::TraitImpl => "#[wasm_implements] must be used on an inherent impl, not a trait impl"@,
        ImplementsError::EmptyPath => "#[wasm_implements] requires a trait path"@,
    }
}

impl ImplementsError {
    /// The message reported for this refusal.
    pub fn message(&self) -> (r: String)
        ensures
            r@ == implements_error_message(*self),
    {
        match self {
            ImplementsError::TraitImpl => String::from_str(
                "#[wasm_implements] must be used on an inherent impl, not a trait impl",
            ),
            ImplementsError::EmptyPath => String::from_str("#[wasm_implements] requires a trait path"),
        }
    }
}

/// The witness method for one public method: it delegates to the inherent
/// method, with the signature in plain-`fn` form and without
/// `#[wasm_bindgen]` attributes.
pub open spec fn witness_text(f: ImplFnModel, self_ty: Seq<char>) -> Seq<char> {
    clean_attrs_text(f.attrs@) + " "@ + rpitit_sig_text(f.sig) + " { "@ + self_ty + "::"@ + f.sig.ident@ + "("@
        + (if has_receiver(f.sig.inputs@) { "self, "@ } else { Seq::<char>::empty() })
        + join(arg_names_of(f.sig.inputs@), ", "@) + ") }"@
}

/// The witness methods of the public methods of a block, in order; other
/// items contribute nothing.
pub open spec fn witness_texts(items: Seq<ImplItemModel>, self_ty: Seq<char>) -> Seq<Seq<char>>
    decreases items.len(),
{
    if items.len() == 0 {
        Seq::<Seq<char>>::empty()
    } else {
        let rest = witness_texts(items.drop_last(), self_ty);
        match items.last().func {
            Some(f) => if f.is_pub { rest.push(witness_text(f, self_ty)) } else { rest },
            None => rest,
        }
    }
}

/// The runtime tag method for a trait name.
pub open spec fn tag_method_text(trait_name: Seq<char>) -> Seq<char> {
    "#[wasm_bindgen(js_name = "@ + str_lit(tag_method_js_name_of(trait_name)) + ")] pub fn "@
        + tag_method_rust_name(trait_name) + "(&self) -> bool { true }"@
}

/// The JS name under which a method of the block is exported: its
/// `js_name`, else its Rust name.
pub open spec fn impl_js_name(f: ImplFnModel) -> Seq<char> {
    match js_name_in_attrs(f.attrs@) {
        Some(n) => n@,
        None => f.sig.ident@,
    }
}

/// The JS names exported by the public methods of a block, in order.
pub open spec fn provided_js_names(items: Seq<ImplItemModel>) -> Seq<Seq<char>>
    decreases items.len(),
{
    if items.len() == 0 {
        Seq::<Seq<char>>::empty()
    } else {
        let rest = provided_js_names(items.drop_last());
        match items.last().func {
            Some(f) => if f.is_pub { rest.push(impl_js_name(f)) } else { rest },
            None => rest,
        }
    }
}

/// The message of the compile-time JS name check.
pub open spec fn missing_js_methods_message() -> Seq<char> {
    "impl block is missing one or more JS methods required by the interface (check js_name attrs)"@
}

/// The compile-time JS name check: a constant evaluation that fails with
/// the message above unless every name listed by the interface's hidden
/// constant (the one `#[js_trait]` emits, found next to the trait) is among
/// the JS names exported by the block's public methods.
pub open spec fn js_name_check_text(path: TraitPathModel, trait_name: Seq<char>, items: Seq<ImplItemModel>) -> Seq<char> {
    "const _: () = { const fn __wasm_js_name_eq(a: &str, b: &str) -> bool { let a = a.as_bytes(); let b = b.as_bytes(); if a.len() != b.len() { return false; } let mut i = 0; while i < a.len() { if a[i] != b[i] { return false; } i += 1; } true } const fn __wasm_has_all_js_names(expected: &[&str], provided: &[&str]) -> bool { let mut i = 0; while i < expected.len() { let mut found = false; let mut j = 0; while j < provided.len() { if __wasm_js_name_eq(expected[i], provided[j]) { found = true; } j += 1; } if !found { return false; } i += 1; } true } if !__wasm_has_all_js_names("@
        + path.prefix@ + js_interface_const_name(trait_name) + ", &["@
        + join(provided_js_names(items).map_values(|n: Seq<char>| str_lit(n)), ", "@) + "]) { ::core::panic!("@
        + str_lit(missing_js_methods_message()) + "); } };"@
}

/// What `#[wasm_implements]` expands to, or why it refuses its input.
pub open spec fn implements_expansion(path: TraitPathModel, imp: ImplModel) -> Result<Seq<char>, ImplementsError> {
    if imp.is_trait_impl {
        Err(ImplementsError::TraitImpl)
    } else {
        match path.last {
            None => Err(ImplementsError::EmptyPath),
            Some(name) => Ok(
                impl_block_text(imp, tag_method_text(name@)) + " const _: () = { impl "@ + path.text@ + " for "@
                    + imp.self_ty@ + " { "@ + join(witness_texts(imp.items@, imp.self_ty@), " "@) + " } }; "@
                    + js_name_check_text(path, name@, imp.items@),
            ),
        }
    }
}

fn witness_exec(f: &ImplFnModel, self_ty: &str) -> (r: String)
    ensures
        r@ == witness_text(*f, self_ty@),
{
    let mut r = render_clean_attrs(&f.attrs);
    r.append(" ");
    r.append(render_rpitit_signature(&f.sig).as_str());
    r.append(" { ");
    r.append(self_ty);
    r.append("::");
    r.append(f.sig.ident.as_str());
    r.append("(");
    if has_self_receiver(&f.sig) {
        r.append("self, ");
    }
    let names = arg_names(&f.sig);
    r.append(join_strings(&names, ", ").as_str());
    r.append(") }");
    r
}

fn js_name_check_exec(path: &TraitPathModel, trait_name: &str, imp: &ImplModel) -> (r: String)
    ensures
        r@ == js_name_check_text(*path, trait_name@, imp.items@),
{
    let mut lits: Vec<String> = Vec::new();
    let mut i: usize = 0;
    while i < imp.items.len()
        invariant
            i <= imp.items.len(),
            views(lits@) == provided_js_names(imp.items@.take(i as int)).map_values(|n: Seq<char>| str_lit(n)),
        decreases imp.items.len() - i,
    {
        assert(imp.items@.take(i + 1).drop_last() =~= imp.items@.take(i as int));
        assert(imp.items@.take(i + 1).last() == imp.items@[i as int]);
        let ghost names = provided_js_names(imp.items@.take(i as int));
        let ghost before = lits@;
        if let Some(f) = &imp.items[i].func {
            if f.is_pub {
                let name = match extract_js_name_from_attrs(&f.attrs) {
                    Some(n) => n,
                    None => f.sig.ident.clone(),
                };
                lits.push(string_literal(name.as_str()));
                assert(views(lits@) =~= views(before).push(str_lit(impl_js_name(*f))));
                assert(names.push(impl_js_name(*f)).map_values(|n: Seq<char>| str_lit(n))
                    =~= names.map_values(|n: Seq<char>| str_lit(n)).push(str_lit(impl_js_name(*f))));
            }
        }
        i = i + 1;
    }
    assert(imp.items@.take(imp.items.len() as int) =~= imp.items@);
    let mut r = String::from_str(
        "const _: () = { const fn __wasm_js_name_eq(a: &str, b: &str) -> bool { let a = a.as_bytes(); let b = b.as_bytes(); if a.len() != b.len() { return false; } let mut i = 0; while i < a.len() { if a[i] != b[i] { return false; } i += 1; } true } const fn __wasm_has_all_js_names(expected: &[&str], provided: &[&str]) -> bool { let mut i = 0; while i < expected.len() { let mut found = false; let mut j = 0; while j < provided.len() { if __wasm_js_name_eq(expected[i], provided[j]) { found = true; } j += 1; } if !found { return false; } i += 1; } true } if !__wasm_has_all_js_names(",
    );
    r.append(path.prefix.as_str());
    r.append(js_interface_const_ident(trait_name).as_str());
    r.append(", &[");
    r.append(join_strings(&lits, ", ").as_str());
    r.append("]) { ::core::panic!(");
    r.append(
        string_literal("impl block is missing one or more JS methods required by the interface (check js_name attrs)").as_str(),
    );
    r.append("); } };");
    r
}

/// Expands `#[wasm_implements(Trait)]` on an inherent `impl` block.
pub fn wasm_implements_impl(trait_path: &TraitPathModel, imp: &ImplModel) -> (r: Result<String, ImplementsError>)
    ensures
        match (r, implements_expansion(*trait_path, *imp)) {
            (Ok(s), Ok(t)) => s@ == t,
            (Err(e), Err(f)) => e == f,
            _ => false,
        },
{
    if imp.is_trait_impl {
        return Err(ImplementsError::TraitImpl);
    }
    let name = match &trait_path.last {
        None => {
            return Err(ImplementsError::EmptyPath);
        },
        Some(n) => n,
    };
    let mut witnesses: Vec<String> = Vec::new();
    let mut i: usize = 0;
    while i < imp.items.len()
        invariant
            i <= imp.items.len(),
            views(witnesses@) == witness_texts(imp.items@.take(i as int), imp.self_ty@),
        decreases imp.items.len() - i,
    {
        assert(imp.items@.take(i + 1).drop_last() =~= imp.items@.take(i as int));
        assert(imp.items@.take(i + 1).last() == imp.items@[i as int]);
        let ghost before = witnesses@;
        if let Some(f) = &imp.items[i].func {
            if f.is_pub {
                witnesses.push(witness_exec(f, imp.self_ty.as_str()));
                assert(views(witnesses@) =~= views(before).push(witness_text(*f, imp.self_ty@)));
            }
        }
        i = i + 1;
    }
    assert(imp.items@.take(imp.items.len() as int) =~= imp.items@);
    let check = js_name_check_exec(trait_path, name.as_str(), imp);
    let mut tag = String::from_str("#[wasm_bindgen(js_name = ");
    tag.append(string_literal(tag_method_js_name(name.as_str()).as_str()).as_str());
    tag.append(")] pub fn ");
    tag.append(tag_method_rust_ident(name.as_str()).as_str());
    tag.append("(&self) -> bool { true }");
    let mut r = render_impl_block(imp, tag.as_str());
    r.append(" const _: () = { impl ");
    r.append(trait_path.text.as_str());
    r.append(" for ");
    r.append(imp.self_ty.as_str());
    r.append(" { ");
    r.append(join_strings(&witnesses, " ").as_str());
    r.append(" } }; ");
    r.append(check.as_str());
    Ok(r)
}

/// The `#[wasm_implements(Trait)]` attribute; a refusal becomes a compile
/// error.
pub fn wasm_implements(trait_path: &TraitPathModel, item: &ImplModel) -> (r: String)
    ensures
        r@ == match implements_expansion(*trait_path, *item) {
            Ok(t) => t,
            Err(e) => compile_error_text(implements_error_message(e)),
        },
{
    match wasm_implements_impl(trait_path, item) {
        Ok(s) => s,
        Err(e) => render_compile_error(e.message().as_str()),
    }
}

/// A private method or a non-method item adds no witness: the witness
/// covers exactly the public methods.
pub proof fn lemma_private_items_add_no_witness(items: Seq<ImplItemModel>, item: ImplItemModel, self_ty: Seq<char>)
    requires
        !(item.func matches Some(f) && f.is_pub),
    ensures
        witness_texts(items.push(item), self_ty) == witness_texts(items, self_ty),
{
    assert(items.push(item).drop_last() =~= items);
}

/// A public method adds exactly its own witness, after those of the items
/// before it.
pub proof fn lemma_public_method_adds_its_witness(items: Seq<ImplItemModel>, item: ImplItemModel, self_ty: Seq<char>)
    requires
        item.func matches Some(f) && f.is_pub,
    ensures
        witness_texts(items.push(item), self_ty) == witness_texts(items, self_ty).push(witness_text(item.func->0, self_ty)),
{
    assert(items.push(item).drop_last() =~= items);
}

/// The JS name check lists exactly the public methods' JS names: a public
/// method adds its own name after those of the items before it, and any
/// other item adds none.
pub proof fn lemma_check_lists_public_js_names(items: Seq<ImplItemModel>, item: ImplItemModel)
    ensures
        (item.func matches Some(f) && f.is_pub) ==> provided_js_names(items.push(item))
            == provided_js_names(items).push(impl_js_name(item.func->0)),
        !(item.func matches Some(f) && f.is_pub) ==> provided_js_names(items.push(item)) == provided_js_names(items),
{
    assert(items.push(item).drop_last() =~= items);
}

/// A public method with the same Rust name and the same attributes as a
/// trait method exports the JS name that `#[js_trait]` lists for it: its
/// `js_name`, or, without one, its Rust name on both sides.
pub proof fn lemma_matching_method_provides_listed_name(f: TraitFnModel, g: ImplFnModel)
    requires
        g.sig.ident == f.sig.ident,
        g.attrs@ == f.attrs@,
    ensures
        impl_js_name(g) == method_js_name(f),
{
}

/// The witness that `#[wasm_implements]` writes for a public method begins
/// with exactly the declaration that `#[js_trait]` writes for a trait method
/// with the same signature and the same attributes once `#[wasm_bindgen]`
/// ones are dropped: the attributes, then the signature in plain-`fn` form.
/// So an `async fn` in the block is checked against the trait's
/// `impl Future` declaration of the same `async fn`.
pub proof fn lemma_witness_matches_declaration(f: TraitFnModel, g: ImplFnModel, self_ty: Seq<char>)
    requires
        g.sig == f.sig,
        clean_attrs_text(g.attrs@) == clean_attrs_text(f.attrs@),
    ensures
        trait_method_text(f) == clean_attrs_text(f.attrs@) + " "@ + rpitit_sig_text(f.sig) + ";"@,
        starts_with(witness_text(g, self_ty), clean_attrs_text(f.attrs@) + " "@ + rpitit_sig_text(f.sig)),
{
    let decl = clean_attrs_text(f.attrs@) + " "@ + rpitit_sig_text(f.sig);
    let w = witness_text(g, self_ty);
    let rest = " { "@ + self_ty + "::"@ + g.sig.ident@ + "("@
        + (if has_receiver(g.sig.inputs@) { "self, "@ } else { Seq::<char>::empty() })
        + join(arg_names_of(g.sig.inputs@), ", "@) + ") }"@;
    assert(w =~= decl + rest);
    assert(w.subrange(0, decl.len() as int) =~= decl);
}


/// The expansion of `#[wasm_implements(path::Trait)]` ends with the JS name
/// check, and the check fails compilation exactly when a name listed by the
/// interface's constant `path::__JS_INTERFACE_<TRAIT>` is missing from the
/// block's exported names: its helper `__wasm_has_all_js_names(expected,
/// provided)` returns `false` as soon as one expected name equals (byte by
/// byte) none of the provided names, and `true` otherwise; the check
/// panics in constant evaluation with the message below when the helper
/// returns `false`, with the interface's constant as `expected` and the
/// public methods' JS names as `provided`.
pub proof fn lemma_js_name_check_requires_every_interface_name(path: TraitPathModel, imp: ImplModel)
    requires
        implements_expansion(path, imp) is Ok,
    ensures
        contains_text(
            implements_expansion(path, imp)->Ok_0,
            (
                "const _: () = { "@
                + "const fn __wasm_js_name_eq(a: &str, b: &str) -> bool { "@
                + "let a = a.as_bytes(); "@
                + "let b = b.as_bytes(); "@
                + "if a.len() != b.len() { return false; } "@
                + "let mut i = 0; "@
                + "while i < a.len() { if a[i] != b[i] { return false; } i += 1; } "@
                + "true } "@
                + "const fn __wasm_has_all_js_names(expected: &[&str], provided: &[&str]) -> bool { "@
                + "let mut i = 0; "@
                + "while i < expected.len() { "@
                + "let mut found = false; "@
                + "let mut j = 0; "@
                + "while j < provided.len() { if __wasm_js_name_eq(expected[i], provided[j]) { found = true; } j += 1; } "@
                + "if !found { return false; } "@
                + "i += 1; } "@
                + "true } "@
                + "if !__wasm_has_all_js_names("@)
                + path.prefix@ + "__JS_INTERFACE_"@ + shouty_snake_case_of(path.last->0@) + ", &["@
                + join(provided_js_names(imp.items@).map_values(|n: Seq<char>| str_lit(n)), ", "@)
                + "]) { ::core::panic!("@
                + str_lit("impl block is missing one or more JS methods required by the interface (check js_name attrs)"@)
                + "); } };"@,
        ),
{
    reveal_strlit("const _: () = { ");
    reveal_strlit("const fn __wasm_js_name_eq(a: &str, b: &str) -> bool { ");
    reveal_strlit("let a = a.as_bytes(); ");
    reveal_strlit("let b = b.as_bytes(); ");
    reveal_strlit("if a.len() != b.len() { return false; } ");
    reveal_strlit("let mut i = 0; ");
    reveal_strlit("while i < a.len() { if a[i] != b[i] { return false; } i += 1; } ");
    reveal_strlit("true } ");
    reveal_strlit("const fn __wasm_has_all_js_names(expected: &[&str], provided: &[&str]) -> bool { ");
    reveal_strlit("let mut i = 0; ");
    reveal_strlit("while i < expected.len() { ");
    reveal_strlit("let mut found = false; ");
    reveal_strlit("let mut j = 0; ");
    reveal_strlit("while j < provided.len() { if __wasm_js_name_eq(expected[i], provided[j]) { found = true; } j += 1; } ");
    reveal_strlit("if !found { return false; } ");
    reveal_strlit("i += 1; } ");
    reveal_strlit("true } ");
    reveal_strlit("if !__wasm_has_all_js_names(");
    reveal_strlit("const _: () = { const fn __wasm_js_name_eq(a: &str, b: &str) -> bool { let a = a.as_bytes(); let b = b.as_bytes(); if a.len() != b.len() { return false; } let mut i = 0; while i < a.len() { if a[i] != b[i] { return false; } i += 1; } true } const fn __wasm_has_all_js_names(expected: &[&str], provided: &[&str]) -> bool { let mut i = 0; while i < expected.len() { let mut found = false; let mut j = 0; while j < provided.len() { if __wasm_js_name_eq(expected[i], provided[j]) { found = true; } j += 1; } if !found { return false; } i += 1; } true } if !__wasm_has_all_js_names(");
    assert("const _: () = { const fn __wasm_js_name_eq(a: &str, b: &str) -> bool { let a = a.as_bytes(); let b = b.as_bytes(); if a.len() != b.len() { return false; } let mut i = 0; while i < a.len() { if a[i] != b[i] { return false; } i += 1; } true } const fn __wasm_has_all_js_names(expected: &[&str], provided: &[&str]) -> bool { let mut i = 0; while i < expected.len() { let mut found = false; let mut j = 0; while j < provided.len() { if __wasm_js_name_eq(expected[i], provided[j]) { found = true; } j += 1; } if !found { return false; } i += 1; } true } if !__wasm_has_all_js_names("@ =~= "const _: () = { "@ + "const fn __wasm_js_name_eq(a: &str, b: &str) -> bool { "@ + "let a = a.as_bytes(); "@ + "let b = b.as_bytes(); "@ + "if a.len() != b.len() { return false; } "@ + "let mut i = 0; "@ + "while i < a.len() { if a[i] != b[i] { return false; } i += 1; } "@ + "true } "@ + "const fn __wasm_has_all_js_names(expected: &[&str], provided: &[&str]) -> bool { "@ + "let mut i = 0; "@ + "while i < expected.len() { "@ + "let mut found = false; "@ + "let mut j = 0; "@ + "while j < provided.len() { if __wasm_js_name_eq(expected[i], provided[j]) { found = true; } j += 1; } "@ + "if !found { return false; } "@ + "i += 1; } "@ + "true } "@ + "if !__wasm_has_all_js_names("@);
    let name = path.last->0;
    let check = js_name_check_text(path, name@, imp.items@);
    let before = impl_block_text(imp, tag_method_text(name@)) + " const _: () = { impl "@ + path.text@ + " for "@
        + imp.self_ty@ + " { "@ + join(witness_texts(imp.items@, imp.self_ty@), " "@) + " } }; "@;
    let wanted = (
                "const _: () = { "@
                + "const fn __wasm_js_name_eq(a: &str, b: &str) -> bool { "@
                + "let a = a.as_bytes(); "@
                + "let b = b.as_bytes(); "@
                + "if a.len() != b.len() { return false; } "@
                + "let mut i = 0; "@
                + "while i < a.len() { if a[i] != b[i] { return false; } i += 1; } "@
                + "true } "@
                + "const fn __wasm_has_all_js_names(expected: &[&str], provided: &[&str]) -> bool { "@
                + "let mut i = 0; "@
                + "while i < expected.len() { "@
                + "let mut found = false; "@
                + "let mut j = 0; "@
                + "while j < provided.len() { if __wasm_js_name_eq(expected[i], provided[j]) { found = true; } j += 1; } "@
                + "if !found { return false; } "@
                + "i += 1; } "@
                + "true } "@
                + "if !__wasm_has_all_js_names("@)
                + path.prefix@ + "__JS_INTERFACE_"@ + shouty_snake_case_of(path.last->0@) + ", &["@
                + join(provided_js_names(imp.items@).map_values(|n: Seq<char>| str_lit(n)), ", "@)
                + "]) { ::core::panic!("@
                + str_lit("impl block is missing one or more JS methods required by the interface (check js_name attrs)"@)
                + "); } };"@;
    assert(js_interface_const_name(name@) == "__JS_INTERFACE_"@ + shouty_snake_case_of(name@));
    assert(check =~= wanted);
    assert(implements_expansion(path, imp)->Ok_0 =~= before + check + Seq::<char>::empty());
    assert((before + check + Seq::<char>::empty()).subrange(before.len() as int, (before.len() + check.len()) as int) =~= check);
    lemma_contains_middle(before, check, Seq::<char>::empty());
}


/// The block keeps its head, inner attributes and items, and gains, after
/// them, the runtime tag method:
/// exported to JS as `__wasm_impl_<Trait>` (the trait's name as written)
/// under the Rust name `__wasm_impl_<trait in snake case>`, returning
/// `true`.
pub proof fn lemma_tag_method_is_injected(path: TraitPathModel, imp: ImplModel)
    requires
        implements_expansion(path, imp) is Ok,
    ensures
        contains_text(
            implements_expansion(path, imp)->Ok_0,
            imp.head@ + " { "@ + imp.inner_attrs@ + " "@ + join(imp.items@.map_values(|it: ImplItemModel| it.text@), " "@) + " "@
                + "#[wasm_bindgen(js_name = "@ + str_lit("__wasm_impl_"@ + path.last->0@) + ")] pub fn __wasm_impl_"@
                + snake_case_of(path.last->0@) + "(&self) -> bool { true } }"@,
        ),
{
    let name = path.last->0@;
    let head = Seq::<char>::empty();
    let sub = imp.head@ + " { "@ + imp.inner_attrs@ + " "@ + join(imp.items@.map_values(|it: ImplItemModel| it.text@), " "@) + " "@
        + "#[wasm_bindgen(js_name = "@ + str_lit("__wasm_impl_"@ + name) + ")] pub fn __wasm_impl_"@
        + snake_case_of(name) + "(&self) -> bool { true } }"@;
    let rest = " const _: () = { impl "@ + path.text@ + " for "@ + imp.self_ty@ + " { "@
        + join(witness_texts(imp.items@, imp.self_ty@), " "@) + " } }; "@ + js_name_check_text(path, name, imp.items@);
    reveal_strlit(")] pub fn ");
    reveal_strlit(")] pub fn __wasm_impl_");
    reveal_strlit("__wasm_impl_");
    reveal_strlit("(&self) -> bool { true }");
    reveal_strlit("(&self) -> bool { true } }");
    reveal_strlit(" }");
    assert(")] pub fn __wasm_impl_"@ =~= ")] pub fn "@ + "__wasm_impl_"@);
    assert("(&self) -> bool { true } }"@ =~= "(&self) -> bool { true }"@ + " }"@);
    assert(implements_expansion(path, imp)->Ok_0 =~= head + sub + rest);
    lemma_contains_middle(head, sub, rest);
}

/// Each witness method delegates to the inherent method of the same name on
/// the block's type, passing `self` exactly when the method has a receiver
/// and then the other arguments by name, in order.
pub proof fn lemma_witness_delegates_to_inherent_method(f: ImplFnModel, self_ty: Seq<char>)
    ensures
        witness_text(f, self_ty) == clean_attrs_text(f.attrs@) + " "@ + rpitit_sig_text(f.sig) + " { "@ + self_ty + "::"@
            + f.sig.ident@ + "("@ + (if has_receiver(f.sig.inputs@) { "self, "@ } else { Seq::<char>::empty() })
            + join(arg_names_of(f.sig.inputs@), ", "@) + ") }"@,
{
}

} // verus!
