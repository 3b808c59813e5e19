//! Naming conventions for generated items, and the outside case conversions
//! they rely on.
use vstd::prelude::*;
use crate::strings::{starts_with, str_eq};

verus! {

/// What `heck`'s `to_snake_case` returns for a string.
pub uninterp spec fn snake_case_of(s: Seq<char>) -> Seq<char>;

/// What `heck`'s `to_shouty_snake_case` returns for a string.
pub uninterp spec fn shouty_snake_case_of(s: Seq<char>) -> Seq<char>;

/// What `str::to_uppercase` returns for a string (full Unicode upper-casing).
pub uninterp spec fn uppercase_of(s: Seq<char>) -> Seq<char>;

/// Converts to `snake_case` with `heck::ToSnakeCase::to_snake_case`; the
/// result is exactly the crate's result for `s`.
#[verifier::external_body]
pub(crate) fn to_snake_case(s: &str) -> (r: String)
    ensures
        r@ == snake_case_of(s@),
{
    heck::ToSnakeCase::to_snake_case(s)
}

/// Converts to `SHOUTY_SNAKE_CASE` with
/// `heck::ToShoutySnakeCase::to_shouty_snake_case`; the result is exactly the
/// crate's result for `s`.
#[verifier::external_body]
pub(crate) fn to_shouty_snake_case(s: &str) -> (r: String)
    ensures
        r@ == shouty_snake_case_of(s@),
{
    heck::ToShoutySnakeCase::to_shouty_snake_case(s)
}

/// Upper-cases with `str::to_uppercase`; the result is exactly std's result
/// for `s`.
#[verifier::external_body]
pub(crate) fn to_uppercase(s: &str) -> (r: String)
    ensures
        r@ == uppercase_of(s@),
{
    s.to_uppercase()
}

/// A type name with one leading `Wasm` removed, if it has one.
pub open spec fn strip_wasm_prefix_of(name: Seq<char>) -> Seq<char> {
    if starts_with(name, "Wasm"@) {
        name.subrange("Wasm"@.len() as int, name.len() as int)
    } else {
        name
    }
}

/// Strips a leading `Wasm` prefix from a type name:
/// `WasmFooError` gives `FooError`, `FooError` stays `FooError`.
pub fn strip_wasm_prefix(name: &str) -> (r: String)
    ensures
        r@ == strip_wasm_prefix_of(name@),
{
    proof {
        reveal_strlit("Wasm");
    }
    assert("Wasm"@.len() == 4);
    let n = name.unicode_len();
    if n >= 4 {
        let head = name.substring_char(0, 4);
        if str_eq(head, "Wasm") {
            let rest = name.substring_char(4, n);
            return String::from_str(rest);
        }
    }
    String::from_str(name)
}

/// Removing the prefix undoes adding it: `strip("Wasm" + s) == s`.
pub proof fn lemma_strip_after_prefix(s: Seq<char>)
    ensures
        strip_wasm_prefix_of("Wasm"@ + s) == s,
{
    reveal_strlit("Wasm");
    assert(("Wasm"@ + s).subrange(0, 4) =~= "Wasm"@);
    assert(("Wasm"@ + s).subrange(4, ("Wasm"@ + s).len() as int) =~= s);
}

/// Only a leading prefix is removed, and only once: the name is the result
/// with either nothing or `Wasm` put back in front.
pub proof fn lemma_strip_removes_only_a_leading_prefix(name: Seq<char>)
    ensures
        name == strip_wasm_prefix_of(name)
            || (starts_with(name, "Wasm"@) && name == "Wasm"@ + strip_wasm_prefix_of(name)),
{
    if starts_with(name, "Wasm"@) {
        assert(name =~= name.subrange(0, "Wasm"@.len() as int) + strip_wasm_prefix_of(name));
    }
}

/// Whether a name is written as a raw identifier (`r#name`). Such a name is
/// one identifier by itself, but no identifier can be built by name from it
/// (the identifier constructor refuses the `#` by panicking).
pub open spec fn is_raw(s: Seq<char>) -> bool {
    starts_with(s, "r#"@)
}

/// Checks whether a name is written as a raw identifier.
pub fn is_raw_exec(s: &str) -> (r: bool)
    ensures
        r == is_raw(s@),
{
    proof {
        reveal_strlit("r#");
    }
    assert("r#"@.len() == 2);
    let n = s.unicode_len();
    if n < 2 {
        return false;
    }
    str_eq(s.substring_char(0, 2), "r#")
}

/// Whether a character is white space (as the Rust lexer or Unicode counts
/// it) or `/`, which begins a comment. The lexer skips such characters
/// around tokens, so a string holding one may parse as an identifier, but no
/// identifier holds one.
pub open spec fn is_layout_char(c: char) -> bool {
    ||| c == '/'
    ||| ('\t' <= c && c <= '\r')
    ||| c == ' '
    ||| c == '\u{85}'
    ||| c == '\u{a0}'
    ||| c == '\u{1680}'
    ||| ('\u{2000}' <= c && c <= '\u{200a}')
    ||| c == '\u{200e}'
    ||| c == '\u{200f}'
    ||| c == '\u{2028}'
    ||| c == '\u{2029}'
    ||| c == '\u{202f}'
    ||| c == '\u{205f}'
    ||| c == '\u{3000}'
}

/// Whether a string holds a white space or comment character.
pub open spec fn has_layout(s: Seq<char>) -> bool {
    exists|i: int| 0 <= i < s.len() && is_layout_char(#[trigger] s[i])
}

/// Whether a string that parses as an identifier still cannot be made into
/// one by name (the identifier constructor refuses it by panicking): it is
/// raw, or it has white space or a comment around the identifier.
pub open spec fn not_nameable(s: Seq<char>) -> bool {
    is_raw(s) || has_layout(s)
}

/// Checks whether a string cannot be made into an identifier by name.
pub fn not_nameable_exec(s: &str) -> (r: bool)
    ensures
        r == not_nameable(s@),
{
    if is_raw_exec(s) {
        return true;
    }
    let n = s.unicode_len();
    let mut i: usize = 0;
    while i < n
        invariant
            n == s@.len(),
            i <= n,
            forall|j: int| 0 <= j < i ==> !is_layout_char(#[trigger] s@[j]),
        decreases n - i,
    {
        let c = s.get_char(i);
        if c == '/' || ('\t' <= c && c <= '\r') || c == ' ' || c == '\u{85}' || c == '\u{a0}' || c == '\u{1680}'
            || ('\u{2000}' <= c && c <= '\u{200a}') || c == '\u{200e}' || c == '\u{200f}' || c == '\u{2028}'
            || c == '\u{2029}' || c == '\u{202f}' || c == '\u{205f}' || c == '\u{3000}' {
            assert(is_layout_char(s@[i as int]));
            return true;
        }
        i = i + 1;
    }
    false
}

/// The Rust name of the runtime tag method for a trait: `__wasm_impl_` and
/// the trait name in snake case.
pub open spec fn tag_method_rust_name(trait_name: Seq<char>) -> Seq<char> {
    "__wasm_impl_"@ + snake_case_of(trait_name)
}

/// The JS name of the runtime tag method for a trait: `__wasm_impl_` and the
/// trait name as written.
pub open spec fn tag_method_js_name_of(trait_name: Seq<char>) -> Seq<char> {
    "__wasm_impl_"@ + trait_name
}

/// The name of the extern fn generated for a trait method.
pub open spec fn extern_fn_name(method_name: Seq<char>) -> Seq<char> {
    "__wasm_trait_"@ + method_name
}

/// The name of the hidden constant listing a trait's JS interface.
pub open spec fn js_interface_const_name(trait_name: Seq<char>) -> Seq<char> {
    "__JS_INTERFACE_"@ + shouty_snake_case_of(trait_name)
}

/// Rust name of the runtime tag method: `Transport` gives
/// `__wasm_impl_transport`.
pub fn tag_method_rust_ident(trait_name: &str) -> (r: String)
    ensures
        r@ == tag_method_rust_name(trait_name@),
{
    let snake = to_snake_case(trait_name);
    String::from_str("__wasm_impl_").concat(snake.as_str())
}

/// JS name of the runtime tag method: `Transport` gives
/// `__wasm_impl_Transport`.
pub fn tag_method_js_name(trait_name: &str) -> (r: String)
    ensures
        r@ == tag_method_js_name_of(trait_name@),
{
    String::from_str("__wasm_impl_").concat(trait_name)
}

/// Name of the extern fn for a trait method: `js_send_bytes` gives
/// `__wasm_trait_js_send_bytes`.
pub fn extern_fn_ident(method_name: &str) -> (r: String)
    ensures
        r@ == extern_fn_name(method_name@),
{
    String::from_str("__wasm_trait_").concat(method_name)
}

/// Name of the hidden JS interface constant: `Transport` gives
/// `__JS_INTERFACE_TRANSPORT`.
pub fn js_interface_const_ident(trait_name: &str) -> (r: String)
    ensures
        r@ == js_interface_const_name(trait_name@),
{
    let screaming = to_shouty_snake_case(trait_name);
    String::from_str("__JS_INTERFACE_").concat(screaming.as_str())
}

} // verus!

verus! {

/// Whether `syn` parses a string as one Rust identifier (a keyword or `_`
/// is not one; a raw identifier `r#name` is).
pub uninterp spec fn is_rust_ident(s: Seq<char>) -> bool;

/// Checks whether a string is a Rust identifier with
/// `syn::parse_str::<syn::Ident>`; the result is exactly whether that parse
/// succeeds.
#[verifier::external_body]
pub(crate) fn is_valid_ident(s: &str) -> (r: bool)
    ensures
        r == is_rust_ident(s@),
{
    syn::parse_str::<syn::Ident>(s).is_ok()
}

} // verus!
