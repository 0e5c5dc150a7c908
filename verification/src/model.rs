//! The syntax this library reads, held as plain values.
//!
//! Each node keeps the source text it was read from (`text`), which the
//! generator copies into its output, together with the structure that the
//! method-selection and forwarding rules inspect.

use vstd::prelude::*;

verus! {

/// A path such as `std::fmt::Display` or `Iterator<Item = u8>`.
pub struct Path {
    pub text: String,
    pub leading_colon: bool,
    pub segments: Vec<PathSegment>,
}

/// One `::`-separated segment of a path, with its generic arguments.
pub struct PathSegment {
    pub ident: String,
    pub args: PathArguments,
}

/// The arguments written after a path segment.
pub enum PathArguments {
    /// No arguments: `Display`.
    Plain,
    /// `<...>` arguments: `Vec<u8>`, `Iterator<Item = u8>`.
    AngleBracketed(Vec<GenericArgument>),
    /// `(...) -> ...` arguments of an `Fn`-family bound; the types are the
    /// inputs followed by the output, if any.
    Parenthesized(Vec<Ty>),
}

/// One `<...>` argument of a path segment.
pub enum GenericArgument {
    /// A type argument: the `u8` of `Vec<u8>`.
    Type(Ty),
    /// Any other argument (a lifetime, a const, an associated type binding or
    /// constraint), with the types and bounds written inside it.
    Other(Vec<Ty>, Vec<Bound>),
}

/// One `+`-separated bound of a bound list.
pub struct Bound {
    pub text: String,
    pub kind: BoundKind,
}

/// What a bound is.
pub enum BoundKind {
    /// A trait bound: whether it carries a modifier (such as `?`), whether
    /// it carries a higher-ranked `for<...>` binder, and its trait path.
    Trait { modifier: bool, binder: bool, path: Path },
    /// A lifetime bound or any other form.
    Other,
}

/// A type, with its source text.
pub struct Ty {
    pub text: String,
    pub kind: TyKind,
}

/// The shape of a type, as far as the generator inspects it.
pub enum TyKind {
    /// A path type, optionally qualified: `String`, `Self`, `<Self as T>::Item`.
    Path { qself: Option<Box<Ty>>, path: Path },
    /// A reference `&'a mut T`; `lifetime` is the lifetime's text.
    Reference { lifetime: Option<String>, mutable: bool, elem: Box<Ty> },
    /// An argument-position or return-position `impl Bound + ...`.
    ImplTrait(Vec<Bound>),
    /// Any other type (tuple, slice, array, pointer, function pointer, trait
    /// object, ...), with the types and bounds written inside it.
    Other(Vec<Ty>, Vec<Bound>),
    /// An expression written inside a type (an array length, a const
    /// argument), as its tokens.
    Expr(Vec<Tree>),
}

/// A token tree: an identifier or keyword, a punctuation character, a
/// literal, or a delimited group of trees.
pub enum Tree {
    Ident(String),
    Punct(char),
    Literal(String),
    Group(Vec<Tree>),
}

/// A method's `self` receiver.
pub struct Receiver {
    pub text: String,
    /// Written `&self` or `&mut self`.
    pub reference: bool,
    /// Written with `mut` (`&mut self` or `mut self`).
    pub mutable: bool,
    /// Written in the typed form `self: Type`.
    pub colon: bool,
    /// The receiver's type (`Self`, `&Self`, `Box<Self>`, ...).
    pub ty: Ty,
}

/// The pattern of a typed argument.
pub enum Pat {
    /// A plain binding such as `x` or `mut x`; `by_ref` and `subpat` mark
    /// `ref x` and `x @ ..`.
    Ident { text: String, ident: String, by_ref: bool, subpat: bool },
    /// Any other pattern (tuple, wildcard, ...).
    Other(String),
}

/// A typed argument `pat: ty`, with the text of its attributes.
pub struct PatType {
    pub attrs_text: String,
    pub pat: Pat,
    pub ty: Ty,
}

/// One input of a signature.
pub enum FnArg {
    Receiver(Receiver),
    Typed(PatType),
}

/// One generic parameter of a method.
pub enum GenericParam {
    Lifetime(String),
    Type { text: String, ident: String, bounds: Vec<Bound> },
    Const(String),
}

/// One predicate of a `where` clause.
pub enum WherePredicate {
    /// `Ty: Bounds`.
    Type { text: String, bounded: Ty, bounds: Vec<Bound> },
    /// A lifetime predicate such as `'a: 'b`.
    Other(String),
}

/// A method signature.
pub struct Signature {
    pub text: String,
    /// The text of the qualifiers written before `fn` (`const`, `async`,
    /// `unsafe`, `extern "C"`).
    pub qualifiers: String,
    pub asyncness: bool,
    pub ident: String,
    pub params: Vec<GenericParam>,
    pub where_clause: Vec<WherePredicate>,
    pub inputs: Vec<FnArg>,
    /// The text of a trailing variadic argument, if any.
    pub variadic: Option<String>,
    pub output: Option<Ty>,
}

/// One argument inside a `#[dyn_shim(...)]` helper attribute.
pub struct NestedMeta {
    /// The argument's name when it is a single identifier.
    pub ident: Option<String>,
    /// The text of the expression after `=`, when one is written.
    pub value: Option<String>,
    /// Whether a parenthesized list follows the name.
    pub list: bool,
}

/// The arguments of an attribute, as read by the attribute parser.
pub enum AttrArgs {
    /// A parenthesized list that parsed into nested arguments.
    List(Vec<NestedMeta>),
    /// An argument list that could not be read, with the parser's message.
    Malformed(String),
    /// The attribute has no parenthesized list (`#[name]` or `#[name = v]`).
    NotList(String),
}

/// An attribute on an item.
pub struct Attribute {
    pub text: String,
    /// The attribute's name when it is a single identifier (`cfg`, `doc`, ...).
    pub ident: Option<String>,
    pub args: AttrArgs,
}

/// A method of a trait, with its attributes and whether it has a default body.
pub struct TraitItemFn {
    pub attrs: Vec<Attribute>,
    pub sig: Signature,
    /// The text of the default body, when the method has one.
    pub default: Option<String>,
}

/// An item of a trait. The `text` of an item other than a method is the
/// whole item as written, its attributes included.
pub enum TraitItem {
    Fn(TraitItemFn),
    Const { attrs: Vec<Attribute>, text: String },
    Type { attrs: Vec<Attribute>, text: String },
    Macro { attrs: Vec<Attribute>, text: String },
    Other(String),
}

/// A trait definition.
pub struct ItemTrait {
    /// The whole trait as written.
    pub text: String,
    /// The trait's own attributes.
    pub attrs: Vec<Attribute>,
    /// The text from the visibility up to (not including) the item braces,
    /// e.g. `pub trait Foo: Bar`.
    pub header: String,
    pub vis: String,
    pub ident: String,
    /// The text of each generic parameter of the trait.
    pub generics: Vec<String>,
    pub supertraits: Vec<Bound>,
    pub items: Vec<TraitItem>,
}

/// Where a diagnostic points in the input.
#[derive(Clone, Copy, PartialEq, Eq, Structural, Debug)]
pub enum Site {
    /// The attribute invocation as a whole.
    CallSite,
    /// The `i`-th bound of the bound list the expansion was given.
    Bound(usize),
    /// The bound list as a whole.
    Bounds,
    /// The `reflexive` keyword position of the attribute arguments.
    ReflexiveKey,
    /// The `i`-th kind after `reflexive =`.
    ReflexiveKind(usize),
    /// The annotated trait's name.
    TraitIdent,
    /// The annotated trait's first generic parameter.
    TraitGeneric,
    /// The `i`-th supertrait of the annotated trait.
    Supertrait(usize),
    /// The `i`-th item of the annotated trait.
    Item(usize),
    /// Attribute `j` of item `i`.
    ItemAttr(usize, usize),
    /// The name of the method that is item `i`.
    MethodIdent(usize),
    /// The receiver of the method that is item `i`.
    MethodReceiver(usize),
    /// The return type of the method that is item `i`.
    MethodOutput(usize),
    /// Generic parameter `j` of the method that is item `i`.
    MethodParam(usize, usize),
    /// The type of input `j` of the method that is item `i`.
    ArgType(usize, usize),
    /// The `i`-th top-level token of the attribute's arguments.
    ArgToken(usize),
}

/// An error reported by an expansion.
pub struct Diagnostic {
    pub site: Site,
    pub message: String,
}

/// A diagnostic as a site and the characters of its message.
pub open spec fn diag_view(d: Diagnostic) -> (Site, Seq<char>) {
    (d.site, d.message@)
}

/// The sites and messages of a list of diagnostics.
pub open spec fn diags(v: Seq<Diagnostic>) -> Seq<(Site, Seq<char>)> {
    v.map_values(|d: Diagnostic| diag_view(d))
}

// ---------------------------------------------------------------------------
// Reading a path's shape.

/// The path is the single identifier `id` (no leading `::`, one segment, no
/// arguments).
pub open spec fn path_is_ident(p: Path, id: Seq<char>) -> bool {
    &&& !p.leading_colon
    &&& p.segments@.len() == 1
    &&& p.segments@[0].args is Plain
    &&& p.segments@[0].ident@ == id
}

/// The path is a single identifier.
pub open spec fn path_is_single_ident(p: Path) -> bool {
    &&& !p.leading_colon
    &&& p.segments@.len() == 1
    &&& p.segments@[0].args is Plain
}

/// The type is exactly the unqualified path `Self`.
pub open spec fn ty_is_bare_self(t: Ty) -> bool {
    t.kind matches TyKind::Path { qself, path } && qself is None && path_is_ident(path, "Self"@)
}

} // verus!
