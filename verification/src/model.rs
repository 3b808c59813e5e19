//! Plain models of the syntax that the macros read.
//!
//! Each model keeps exactly what the logic inspects, plus the source text of
//! the pieces that an expansion copies through unchanged.
use vstd::prelude::*;

verus! {

/// The first argument inside the angle brackets of a path segment.
pub enum FirstArg {
    /// The brackets are empty (`Foo<>`).
    Missing,
    /// The first argument is a type.
    Type(Box<TypeShape>),
    /// The first argument is a lifetime, a constant or a binding.
    NotAType,
}

/// The shape of a Rust type, as far as type mapping and validation look at it.
pub enum TypeShape {
    /// The unit type `()`.
    Unit,
    /// A path type. `last` is the identifier of its last segment (absent only
    /// for a path without segments); `angle` holds the first angle-bracketed
    /// argument of that segment, if the segment has angle brackets.
    Path { last: Option<String>, angle: Option<FirstArg> },
    /// `&T` or `&mut T`.
    Reference(Box<TypeShape>),
    /// `[T]`.
    Slice(Box<TypeShape>),
    /// Any other type (arrays, tuples, function pointers, `impl Trait`, ...).
    Other,
}

/// An expression on the right of `key = value` in an attribute.
pub enum ExprModel {
    /// A string literal, with its value.
    StrLit(String),
    /// Any other literal.
    OtherLit,
    /// A path: `ident` is set when the path is a single plain identifier,
    /// `last` is the identifier of its last segment.
    Path { ident: Option<String>, last: Option<String> },
    /// Any other expression.
    Other,
}

/// The form of one item of an attribute's argument list.
pub enum MetaKind {
    /// A bare path, such as `catch`.
    Path,
    /// A path followed by a parenthesized list.
    List,
    /// `path = value`.
    NameValue(ExprModel),
}

/// One item of an attribute's argument list, such as `js_name = "save"`.
pub struct MetaModel {
    /// The path when it is a single identifier.
    pub key: Option<String>,
    pub kind: MetaKind,
    /// The item's source text.
    pub text: String,
}

/// The form of an attribute.
pub enum AttrForm {
    /// `#[path]`.
    Path,
    /// `#[path(...)]`.
    List,
    /// `#[path = value]`.
    NameValue,
}

/// One token inside an attribute's delimiters.
pub enum ArgToken {
    /// An identifier or keyword, with its text.
    Ident(String),
    /// A punctuation character; `joint` when the next token is punctuation
    /// written directly after it.
    Punct { ch: char, joint: bool },
    /// A string literal, with its value.
    StrLit(String),
    /// An integer or floating-point literal.
    NumLit,
    /// Any other literal.
    OtherLit,
    /// A delimited group.
    Group,
}

/// An outer attribute such as `#[wasm_bindgen(js_name = "save")]`.
pub struct AttrModel {
    /// The attribute's path when it is a single identifier.
    pub name: Option<String>,
    pub form: AttrForm,
    /// The comma-separated argument list, when the attribute has the form
    /// `#[path(...)]` and its arguments parse as such a list.
    pub args: Option<Vec<MetaModel>>,
    /// The tokens inside the delimiters of `#[path(...)]`; empty for the
    /// other forms.
    pub tokens: Vec<ArgToken>,
    /// The whole attribute's source text.
    pub text: String,
}

/// The pattern of a typed function argument.
pub enum ArgModel {
    /// `self`, `&self`, `&mut self`, `self: T`, ...
    Receiver { reference: bool, mutable: bool, text: String },
    /// `pat: Type`. `pat_ident` is the bound identifier when the pattern is
    /// an identifier pattern.
    Typed { pat_text: String, pat_ident: Option<String>, ty_text: String, ty: TypeShape, text: String },
}

/// The return type of a signature.
pub enum ReturnModel {
    /// No `-> T`.
    Default,
    /// `-> T`, with the text and the shape of `T`.
    Type { text: String, shape: TypeShape },
}

/// A function signature.
pub struct SigModel {
    pub constness: bool,
    pub is_async: bool,
    pub unsafety: bool,
    /// The `extern "..."` text, or empty.
    pub abi: String,
    pub ident: String,
    /// The generic parameter list text (`<T>`), or empty.
    pub generics: String,
    pub inputs: Vec<ArgModel>,
    /// Whether the argument list ends with a comma.
    pub trailing_comma: bool,
    /// The variadic argument text (`...`), or empty.
    pub variadic: String,
    pub output: ReturnModel,
    /// The `where` clause text, or empty.
    pub where_clause: String,
}

/// A function item inside an `impl` block.
pub struct ImplFnModel {
    pub is_pub: bool,
    pub attrs: Vec<AttrModel>,
    pub sig: SigModel,
}

/// An item inside an `impl` block.
pub struct ImplItemModel {
    /// The item's source text.
    pub text: String,
    /// Set when the item is a function.
    pub func: Option<ImplFnModel>,
}

/// An `impl` block.
pub struct ImplModel {
    /// Whether it is `impl Trait for Type` rather than an inherent impl.
    pub is_trait_impl: bool,
    /// The text before the opening brace (attributes, `impl`, generics,
    /// self type, `where` clause).
    pub head: String,
    /// Inner attributes text, or empty.
    pub inner_attrs: String,
    pub attrs: Vec<AttrModel>,
    /// The self type's text.
    pub self_ty: String,
    /// The identifier of the self type's last segment, when the self type is
    /// a path type.
    pub self_ty_last: Option<String>,
    pub items: Vec<ImplItemModel>,
}

} // verus!

verus! {

/// Copies a type shape.
pub fn clone_type_shape(t: &TypeShape) -> (r: TypeShape)
    ensures
        r == *t,
    decreases t,
{
    match t {
        TypeShape::Unit => TypeShape::Unit,
        TypeShape::Path { last, angle } => {
            let last2 = match last {
                Some(s) => Some(s.clone()),
                None => None,
            };
            let angle2 = match angle {
                Some(a) => Some(clone_first_arg(a)),
                None => None,
            };
            TypeShape::Path { last: last2, angle: angle2 }
        },
        TypeShape::Reference(b) => TypeShape::Reference(Box::new(clone_type_shape(b))),
        TypeShape::Slice(b) => TypeShape::Slice(Box::new(clone_type_shape(b))),
        TypeShape::Other => TypeShape::Other,
    }
}

/// Copies the first generic argument of a path segment.
pub fn clone_first_arg(a: &FirstArg) -> (r: FirstArg)
    ensures
        r == *a,
    decreases a,
{
    match a {
        FirstArg::Missing => FirstArg::Missing,
        FirstArg::Type(b) => FirstArg::Type(Box::new(clone_type_shape(b))),
        FirstArg::NotAType => FirstArg::NotAType,
    }
}

impl Clone for TypeShape {
    fn clone(&self) -> (r: Self)
        ensures
            r == *self,
    {
        clone_type_shape(self)
    }
}

impl Clone for ArgModel {
    fn clone(&self) -> (r: Self)
        ensures
            r == *self,
    {
        match self {
            ArgModel::Receiver { reference, mutable, text } =>
                ArgModel::Receiver { reference: *reference, mutable: *mutable, text: text.clone() },
            ArgModel::Typed { pat_text, pat_ident, ty_text, ty, text } => {
                let pat_ident2 = match pat_ident {
                    Some(s) => Some(s.clone()),
                    None => None,
                };
                ArgModel::Typed {
                    pat_text: pat_text.clone(),
                    pat_ident: pat_ident2,
                    ty_text: ty_text.clone(),
                    ty: clone_type_shape(ty),
                    text: text.clone(),
                }
            },
        }
    }
}

} // verus!
