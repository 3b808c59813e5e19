//! Method signatures: receivers, argument names, the `async fn` to
//! `impl Future` rewrite, and the signature's source text.
use vstd::prelude::*;
use crate::model::{ArgModel, ImplFnModel, ReturnModel, SigModel, TypeShape};
use crate::strings::{join, join_strings, views};

verus! {

/// The source text of a function argument.
pub open spec fn arg_text(a: ArgModel) -> Seq<char> {
    match a {
        ArgModel::Receiver { text, .. } => text@,
        ArgModel::Typed { text, .. } => text@,
    }
}

/// The name by which a typed argument is passed on: the identifier an
/// identifier pattern binds (`value` for `mut value`), else the pattern's
/// text.
pub open spec fn arg_name(pat_ident: Option<String>, pat_text: String) -> Seq<char> {
    match pat_ident {
        Some(id) => id@,
        None => pat_text@,
    }
}

/// The names of the typed (non-`self`) arguments, in order.
pub open spec fn arg_names_of(inputs: Seq<ArgModel>) -> Seq<Seq<char>>
    decreases inputs.len(),
{
    if inputs.len() == 0 {
        Seq::<Seq<char>>::empty()
    } else {
        let rest = arg_names_of(inputs.drop_last());
        match inputs.last() {
            ArgModel::Typed { pat_ident, pat_text, .. } => rest.push(arg_name(pat_ident, pat_text)),
            ArgModel::Receiver { .. } => rest,
        }
    }
}

/// Extracts the argument names of a signature, skipping `self`: the bound
/// identifier of each identifier pattern (without `mut` or `ref`).
pub fn arg_names(sig: &SigModel) -> (r: Vec<String>)
    ensures
        views(r@) == arg_names_of(sig.inputs@),
{
    let mut r: Vec<String> = Vec::new();
    let mut i: usize = 0;
    while i < sig.inputs.len()
        invariant
            i <= sig.inputs.len(),
            views(r@) == arg_names_of(sig.inputs@.take(i as int)),
        decreases sig.inputs.len() - i,
    {
        assert(sig.inputs@.take(i + 1).drop_last() =~= sig.inputs@.take(i as int));
        assert(sig.inputs@.take(i + 1).last() == sig.inputs@[i as int]);
        let ghost before = r@;
        match &sig.inputs[i] {
            ArgModel::Typed { pat_ident, pat_text, .. } => {
                let name = match pat_ident {
                    Some(id) => id.clone(),
                    None => pat_text.clone(),
                };
                r.push(name);
                assert(views(r@) =~= views(before).push(arg_name(*pat_ident, *pat_text)));
            },
            ArgModel::Receiver { .. } => {},
        }
        i = i + 1;
    }
    assert(sig.inputs@.take(sig.inputs.len() as int) =~= sig.inputs@);
    r
}

/// The typed (non-`self`) arguments, in order.
pub open spec fn typed_args(inputs: Seq<ArgModel>) -> Seq<ArgModel> {
    inputs.filter(|a: ArgModel| a is Typed)
}

/// Returns the typed arguments of a signature (pattern and type), skipping
/// `self`.
pub fn arg_pats_and_types(sig: &SigModel) -> (r: Vec<&ArgModel>)
    ensures
        r@.map_values(|a: &ArgModel| *a) == typed_args(sig.inputs@),
{
    let mut r: Vec<&ArgModel> = Vec::new();
    let mut i: usize = 0;
    while i < sig.inputs.len()
        invariant
            i <= sig.inputs.len(),
            r@.map_values(|a: &ArgModel| *a) == typed_args(sig.inputs@.take(i as int)),
        decreases sig.inputs.len() - i,
    {
        proof {
            reveal_with_fuel(Seq::filter, 1);
        }
        assert(sig.inputs@.take(i + 1).drop_last() =~= sig.inputs@.take(i as int));
        assert(sig.inputs@.take(i + 1).last() == sig.inputs@[i as int]);
        let ghost before = r@;
        if let ArgModel::Typed { .. } = &sig.inputs[i] {
            r.push(&sig.inputs[i]);
            assert(r@.map_values(|a: &ArgModel| *a) =~= before.map_values(|a: &ArgModel| *a).push(sig.inputs@[i as int]));
        }
        i = i + 1;
    }
    assert(sig.inputs@.take(sig.inputs.len() as int) =~= sig.inputs@);
    r
}

/// Whether a signature has a receiver (`self`, `&self`, `&mut self`).
pub open spec fn has_receiver(inputs: Seq<ArgModel>) -> bool {
    exists|i: int| 0 <= i < inputs.len() && inputs[i] is Receiver
}

/// Whether the method has any receiver (`self`, `&self`, `&mut self`).
pub fn has_self_receiver(sig: &SigModel) -> (r: bool)
    ensures
        r == has_receiver(sig.inputs@),
{
    let mut i: usize = 0;
    while i < sig.inputs.len()
        invariant
            i <= sig.inputs.len(),
            forall|j: int| 0 <= j < i ==> !(sig.inputs@[j] is Receiver),
        decreases sig.inputs.len() - i,
    {
        if let ArgModel::Receiver { .. } = &sig.inputs[i] {
            return true;
        }
        i = i + 1;
    }
    false
}

/// Whether a method is `pub`.
pub fn is_pub(method: &ImplFnModel) -> (r: bool)
    ensures
        r == method.is_pub,
{
    method.is_pub
}

/// The identifier a pattern binds, when it is an identifier pattern.
pub fn pat_ident_name(arg: &ArgModel) -> (r: Option<String>)
    ensures
        r == (match *arg {
            ArgModel::Typed { pat_ident, .. } => pat_ident,
            ArgModel::Receiver { .. } => None,
        }),
{
    match arg {
        ArgModel::Typed { pat_ident, .. } => match pat_ident {
            Some(s) => Some(s.clone()),
            None => None,
        },
        ArgModel::Receiver { .. } => None,
    }
}

/// The text of the type an `async fn` with output `out` returns once it is
/// written as a plain `fn`.
pub open spec fn future_text(out: ReturnModel) -> Seq<char> {
    "impl ::core::future::Future<Output = "@ + (match out {
        ReturnModel::Default => "()"@,
        ReturnModel::Type { text, .. } => text@,
    }) + "> + '_"@
}

/// `r` is the signature `s` in plain-`fn` form: an `async fn` loses its
/// `async` and returns `impl Future<Output = T> + '_`; any other signature
/// is kept as it is.
pub open spec fn is_rpitit_of(r: SigModel, s: SigModel) -> bool {
    &&& !r.is_async
    &&& if s.is_async {
        r.output matches ReturnModel::Type { text, shape } && text@ == future_text(s.output)
            && shape is Other
    } else {
        r.output == s.output
    }
    &&& r.constness == s.constness
    &&& r.unsafety == s.unsafety
    &&& r.abi == s.abi
    &&& r.ident == s.ident
    &&& r.generics == s.generics
    &&& r.inputs@ == s.inputs@
    &&& r.trailing_comma == s.trailing_comma
    &&& r.variadic == s.variadic
    &&& r.where_clause == s.where_clause
}

fn clone_args(v: &Vec<ArgModel>) -> (r: Vec<ArgModel>)
    ensures
        r@ == v@,
{
    let r = v.clone();
    assert forall|i: int| 0 <= i < v.len() implies r@[i] == v@[i] by {
        assert(vstd::pervasive::cloned(v[i], r[i]));
    }
    assert(r@ =~= v@);
    r
}

/// Rewrites an `async` method signature into its plain-`fn` form:
/// `async fn foo(&self, x: T) -> R` becomes
/// `fn foo(&self, x: T) -> impl ::core::future::Future<Output = R> + '_`.
/// Other signatures are returned unchanged.
pub fn to_rpitit_signature(sig: &SigModel) -> (r: SigModel)
    ensures
        is_rpitit_of(r, *sig),
{
    let output = if sig.is_async {
        let inner = match &sig.output {
            ReturnModel::Default => String::from_str("()"),
            ReturnModel::Type { text, .. } => text.clone(),
        };
        let text = String::from_str("impl ::core::future::Future<Output = ").concat(inner.as_str()).concat("> + '_");
        ReturnModel::Type { text, shape: TypeShape::Other }
    } else {
        match &sig.output {
            ReturnModel::Default => ReturnModel::Default,
            ReturnModel::Type { text, shape } => ReturnModel::Type { text: text.clone(), shape: shape.clone() },
        }
    };
    SigModel {
        constness: sig.constness,
        is_async: false,
        unsafety: sig.unsafety,
        abi: sig.abi.clone(),
        ident: sig.ident.clone(),
        generics: sig.generics.clone(),
        inputs: clone_args(&sig.inputs),
        trailing_comma: sig.trailing_comma,
        variadic: sig.variadic.clone(),
        output,
        where_clause: sig.where_clause.clone(),
    }
}

/// A signature already in plain-`fn` form is left as it is: rewriting twice
/// is rewriting once.
pub proof fn lemma_rpitit_is_idempotent(s: SigModel, r: SigModel, r2: SigModel)
    requires
        is_rpitit_of(r, s),
        is_rpitit_of(r2, r),
    ensures
        r2.output == r.output,
        r2.inputs@ == r.inputs@,
        r2.ident == r.ident,
        !r.is_async,
        !r2.is_async,
{
}

/// The text of an argument list (with its trailing comma, if any) and of a
/// variadic argument.
pub open spec fn args_text(inputs: Seq<ArgModel>, trailing: bool, variadic: Seq<char>) -> Seq<char> {
    join(inputs.map_values(|a: ArgModel| arg_text(a)), ", "@)
        + (if trailing { ","@ } else { Seq::<char>::empty() })
        + (if variadic.len() == 0 {
            Seq::<char>::empty()
        } else if inputs.len() == 0 || trailing {
            " "@ + variadic
        } else {
            ", "@ + variadic
        })
}

/// The `-> T` part of a signature.
pub open spec fn output_text(out: ReturnModel) -> Seq<char> {
    match out {
        ReturnModel::Default => Seq::<char>::empty(),
        ReturnModel::Type { text, .. } => " -> "@ + text@,
    }
}

/// The source text of a signature whose `async` flag and `-> T` part are
/// given separately.
pub open spec fn sig_text_with(s: SigModel, is_async: bool, out: Seq<char>) -> Seq<char> {
    (if s.constness { "const "@ } else { Seq::<char>::empty() })
        + (if is_async { "async "@ } else { Seq::<char>::empty() })
        + (if s.unsafety { "unsafe "@ } else { Seq::<char>::empty() })
        + (if s.abi@.len() == 0 { Seq::<char>::empty() } else { s.abi@ + " "@ })
        + "fn "@ + s.ident@ + s.generics@
        + "("@ + args_text(s.inputs@, s.trailing_comma, s.variadic@) + ")"@
        + out
        + (if s.where_clause@.len() == 0 { Seq::<char>::empty() } else { " "@ + s.where_clause@ })
}

/// The source text of a signature.
pub open spec fn sig_text(s: SigModel) -> Seq<char> {
    sig_text_with(s, s.is_async, output_text(s.output))
}

/// The source text of a signature in plain-`fn` form.
pub open spec fn rpitit_sig_text(s: SigModel) -> Seq<char> {
    if s.is_async {
        sig_text_with(s, false, " -> "@ + future_text(s.output))
    } else {
        sig_text(s)
    }
}

/// Rendering the rewritten signature gives the plain-`fn` text.
pub proof fn lemma_rpitit_text(s: SigModel, r: SigModel)
    requires
        is_rpitit_of(r, s),
    ensures
        sig_text(r) == rpitit_sig_text(s),
{
    assert(r.inputs@.map_values(|a: ArgModel| arg_text(a)) =~= s.inputs@.map_values(|a: ArgModel| arg_text(a)));
}

fn args_text_exec(sig: &SigModel) -> (r: String)
    ensures
        r@ == args_text(sig.inputs@, sig.trailing_comma, sig.variadic@),
{
    let mut parts: Vec<String> = Vec::new();
    let mut i: usize = 0;
    while i < sig.inputs.len()
        invariant
            i <= sig.inputs.len(),
            parts@.len() == i,
            forall|j: int| 0 <= j < i ==> #[trigger] parts@[j]@ == arg_text(sig.inputs@[j]),
        decreases sig.inputs.len() - i,
    {
        let t = match &sig.inputs[i] {
            ArgModel::Receiver { text, .. } => text.clone(),
            ArgModel::Typed { text, .. } => text.clone(),
        };
        parts.push(t);
        i = i + 1;
    }
    assert(views(parts@) =~= sig.inputs@.map_values(|a: ArgModel| arg_text(a)));
    let mut r = join_strings(&parts, ", ");
    if sig.trailing_comma {
        r.append(",");
    }
    if sig.variadic.unicode_len() != 0 {
        if sig.inputs.len() == 0 || sig.trailing_comma {
            r.append(" ");
            r.append(sig.variadic.as_str());
        } else {
            r.append(", ");
            r.append(sig.variadic.as_str());
        }
    }
    r
}

fn sig_text_with_exec(s: &SigModel, is_async: bool, out: &str) -> (r: String)
    ensures
        r@ == sig_text_with(*s, is_async, out@),
{
    let mut r = String::new();
    if s.constness {
        r.append("const ");
    }
    if is_async {
        r.append("async ");
    }
    if s.unsafety {
        r.append("unsafe ");
    }
    if s.abi.unicode_len() != 0 {
        r.append(s.abi.as_str());
        r.append(" ");
    }
    r.append("fn ");
    r.append(s.ident.as_str());
    r.append(s.generics.as_str());
    r.append("(");
    let args = args_text_exec(s);
    r.append(args.as_str());
    r.append(")");
    r.append(out);
    if s.where_clause.unicode_len() != 0 {
        r.append(" ");
        r.append(s.where_clause.as_str());
    }
    r
}

fn output_text_exec(out: &ReturnModel) -> (r: String)
    ensures
        r@ == output_text(*out),
{
    match out {
        ReturnModel::Default => String::new(),
        ReturnModel::Type { text, .. } => String::from_str(" -> ").concat(text.as_str()),
    }
}

/// Renders a signature as source text.
pub fn render_signature(sig: &SigModel) -> (r: String)
    ensures
        r@ == sig_text(*sig),
{
    let out = output_text_exec(&sig.output);
    sig_text_with_exec(sig, sig.is_async, out.as_str())
}

/// Renders a signature in plain-`fn` form as source text.
pub fn render_rpitit_signature(sig: &SigModel) -> (r: String)
    ensures
        r@ == rpitit_sig_text(*sig),
{
    if sig.is_async {
        let inner = match &sig.output {
            ReturnModel::Default => String::from_str("()"),
            ReturnModel::Type { text, .. } => text.clone(),
        };
        let out = String::from_str(" -> impl ::core::future::Future<Output = ").concat(inner.as_str()).concat("> + '_");
        proof {
            reveal_strlit(" -> impl ::core::future::Future<Output = ");
            reveal_strlit(" -> ");
            reveal_strlit("impl ::core::future::Future<Output = ");
        }
        assert(" -> impl ::core::future::Future<Output = "@ =~= " -> "@ + "impl ::core::future::Future<Output = "@);
        let r = sig_text_with_exec(sig, false, out.as_str());
        assert(out@ =~= " -> "@ + future_text(sig.output));
        r
    } else {
        render_signature(sig)
    }
}

} // verus!
