//! Reading the attributes' token input into the library's model. Each
//! reading function parses the tokens of one syntax node with `syn` and
//! converts the node into its model, reading the nodes inside it from their
//! own tokens in turn. What a node is read as is `syn`'s business: the reads
//! the attributes start from give their results names, functions of the
//! tokens alone, and nothing more is stated of them.

use vstd::prelude::*;
use quote::ToTokens;
use syn::spanned::Spanned;
use crate::model::{
    AttrArgs, Attribute, Bound, BoundKind, FnArg, GenericArgument, GenericParam, ItemTrait,
    NestedMeta, Pat, PatType, Path, PathArguments, PathSegment, Receiver, Signature, TraitItem,
    TraitItemFn, Tree, Ty, TyKind, WherePredicate,
};

verus! {

#[verifier::external_type_specification]
#[verifier::external_body]
pub struct ExTokenStream(proc_macro2::TokenStream);

#[verifier::external_type_specification]
#[verifier::external_body]
pub struct ExSpan(proc_macro2::Span);

#[verifier::external_type_specification]
#[verifier::external_body]
pub struct ExTokenTree(proc_macro2::TokenTree);

// ---------------------------------------------------------------------------
// Tokens.

/// Converts one `proc_macro2::TokenTree`: an identifier, punctuation
/// character or literal by its text, a group by the trees inside it.
#[verifier::external_body]
fn tree_model(t: &proc_macro2::TokenTree) -> Tree {
    match t {
        proc_macro2::TokenTree::Ident(i) => Tree::Ident(i.to_string()),
        proc_macro2::TokenTree::Punct(p) => Tree::Punct(p.as_char()),
        proc_macro2::TokenTree::Literal(l) => Tree::Literal(l.to_string()),
        proc_macro2::TokenTree::Group(g) => Tree::Group(trees(&g.stream())),
    }
}

/// Converts the token trees of a stream, in order.
#[verifier::external_body]
fn trees(ts: &proc_macro2::TokenStream) -> Vec<Tree> {
    let mut out = Vec::new();
    for t in ts.clone() {
        out.push(tree_model(&t));
    }
    out
}

/// A top-level token of an attribute's arguments, with its span.
pub struct ArgToken {
    pub tree: Tree,
    pub span: proc_macro2::Span,
}

/// The trees of the top-level tokens of a stream, as [`arg_tokens`] reads
/// them.
pub uninterp spec fn arg_trees_of(ts: proc_macro2::TokenStream) -> Seq<Tree>;

/// Converts the top-level token trees of a stream, in order, each with its
/// span (`proc_macro2::TokenTree::span`). The trees read are a function of
/// the stream alone, named [`arg_trees_of`].
#[verifier::external_body]
pub fn arg_tokens(ts: &proc_macro2::TokenStream) -> (r: Vec<ArgToken>)
    ensures
        crate::tokens::trees_of(r@) == arg_trees_of(*ts),
{
    let mut out = Vec::new();
    for t in ts.clone() {
        out.push(ArgToken { tree: tree_model(&t), span: t.span() });
    }
    out
}

// ---------------------------------------------------------------------------
// Paths, types and bounds.

/// Reads a `syn::Path`: its text, its leading `::` and its segments.
#[verifier::external_body]
fn path_model(ts: &proc_macro2::TokenStream) -> Path {
    let mut segments = Vec::new();
    let mut leading_colon = false;
    if let Ok(p) = syn::parse2::<syn::Path>(ts.clone()) {
        leading_colon = p.leading_colon.is_some();
        for s in &p.segments {
            segments.push(segment_model(&s.to_token_stream()));
        }
    }
    Path { text: ts.to_string(), leading_colon, segments }
}

/// Reads a `syn::PathSegment`: its identifier and its arguments: none,
/// `<...>` (see [`angle_args`]) or `(...) -> ...` (see [`fn_types`]).
#[verifier::external_body]
fn segment_model(ts: &proc_macro2::TokenStream) -> PathSegment {
    match syn::parse2::<syn::PathSegment>(ts.clone()) {
        Ok(s) => PathSegment {
            ident: s.ident.to_string(),
            args: match &s.arguments {
                syn::PathArguments::None => PathArguments::Plain,
                syn::PathArguments::AngleBracketed(a) => PathArguments::AngleBracketed(angle_args(&a.to_token_stream())),
                syn::PathArguments::Parenthesized(p) => PathArguments::Parenthesized(fn_types(&p.to_token_stream())),
            },
        },
        Err(_) => PathSegment { ident: ts.to_string(), args: PathArguments::Plain },
    }
}

/// Reads the generic arguments of a `<...>` list
/// (`syn::AngleBracketedGenericArguments`).
#[verifier::external_body]
fn angle_args(ts: &proc_macro2::TokenStream) -> Vec<GenericArgument> {
    let mut out = Vec::new();
    if let Ok(a) = syn::parse2::<syn::AngleBracketedGenericArguments>(ts.clone()) {
        for g in &a.args {
            out.push(generic_arg_model(&g.to_token_stream()));
        }
    }
    out
}

/// Reads the input types of a `(...) -> ...` argument list
/// (`syn::ParenthesizedGenericArguments`), followed by its output type if
/// any.
#[verifier::external_body]
fn fn_types(ts: &proc_macro2::TokenStream) -> Vec<Ty> {
    let mut out = Vec::new();
    if let Ok(p) = syn::parse2::<syn::ParenthesizedGenericArguments>(ts.clone()) {
        for t in &p.inputs {
            out.push(ty_model(&t.to_token_stream()));
        }
        if let syn::ReturnType::Type(_, t) = &p.output {
            out.push(ty_model(&t.to_token_stream()));
        }
    }
    out
}

/// Reads a `syn::GenericArgument`: a type, or the types, bounds and
/// expressions written in any other argument.
#[verifier::external_body]
fn generic_arg_model(ts: &proc_macro2::TokenStream) -> GenericArgument {
    match syn::parse2::<syn::GenericArgument>(ts.clone()) {
        Ok(syn::GenericArgument::Type(t)) => GenericArgument::Type(ty_model(&t.to_token_stream())),
        Ok(syn::GenericArgument::AssocType(a)) => GenericArgument::Other(vec![ty_model(&a.ty.to_token_stream())], vec![]),
        Ok(syn::GenericArgument::Constraint(c)) => GenericArgument::Other(vec![], bounds_model(&c.bounds.to_token_stream())),
        _ => GenericArgument::Other(const_arg_exprs(ts), vec![]),
    }
}

/// Reads the expression of a const `syn::GenericArgument` or of an
/// associated const binding; any other argument holds none.
#[verifier::external_body]
fn const_arg_exprs(ts: &proc_macro2::TokenStream) -> Vec<Ty> {
    match syn::parse2::<syn::GenericArgument>(ts.clone()) {
        Ok(syn::GenericArgument::Const(e)) => vec![expr_ty(&e.to_token_stream())],
        Ok(syn::GenericArgument::AssocConst(a)) => vec![expr_ty(&a.value.to_token_stream())],
        _ => vec![],
    }
}

/// An expression written inside a type, as its text and tokens.
#[verifier::external_body]
fn expr_ty(ts: &proc_macro2::TokenStream) -> Ty {
    Ty { text: ts.to_string(), kind: TyKind::Expr(trees(ts)) }
}

/// Reads a `syn::Type`: a path type, a reference, an `impl Trait`, or any
/// other form (see [`other_ty_kind`]).
#[verifier::external_body]
fn ty_model(ts: &proc_macro2::TokenStream) -> Ty {
    let kind = match syn::parse2::<syn::Type>(ts.clone()) {
        Ok(syn::Type::Path(p)) => TyKind::Path { qself: qself_model(&p.to_token_stream()), path: path_model(&p.path.to_token_stream()) },
        Ok(syn::Type::Reference(r)) => reference_kind(&r.to_token_stream()),
        Ok(syn::Type::ImplTrait(i)) => TyKind::ImplTrait(bounds_model(&i.bounds.to_token_stream())),
        _ => other_ty_kind(ts),
    };
    Ty { text: ts.to_string(), kind }
}

/// Reads the qualified self type of a `syn::TypePath`, if any.
#[verifier::external_body]
fn qself_model(ts: &proc_macro2::TokenStream) -> Option<Box<Ty>> {
    match syn::parse2::<syn::TypePath>(ts.clone()) {
        Ok(syn::TypePath { qself: Some(q), .. }) => Some(Box::new(ty_model(&q.ty.to_token_stream()))),
        _ => None,
    }
}

/// Reads a `syn::TypeReference`: its lifetime, mutability and referent.
#[verifier::external_body]
fn reference_kind(ts: &proc_macro2::TokenStream) -> TyKind {
    match syn::parse2::<syn::TypeReference>(ts.clone()) {
        Ok(r) => TyKind::Reference {
            lifetime: r.lifetime.as_ref().map(ToString::to_string),
            mutable: r.mutability.is_some(),
            elem: Box::new(ty_model(&r.elem.to_token_stream())),
        },
        Err(_) => TyKind::Other(vec![], vec![]),
    }
}

/// Reads a trait object, tuple, slice or array type as the types, bounds
/// and expressions written in it, and any other form by [`more_ty_kind`].
#[verifier::external_body]
fn other_ty_kind(ts: &proc_macro2::TokenStream) -> TyKind {
    match syn::parse2::<syn::Type>(ts.clone()) {
        Ok(syn::Type::TraitObject(o)) => TyKind::Other(vec![], bounds_model(&o.bounds.to_token_stream())),
        Ok(syn::Type::Tuple(t)) => TyKind::Other(tys_model(&t.elems.to_token_stream()), vec![]),
        Ok(syn::Type::Slice(s)) => TyKind::Other(vec![ty_model(&s.elem.to_token_stream())], vec![]),
        Ok(syn::Type::Array(a)) => TyKind::Other(vec![ty_model(&a.elem.to_token_stream()), expr_ty(&a.len.to_token_stream())], vec![]),
        _ => more_ty_kind(ts),
    }
}

/// Reads a pointer, parenthesized or grouped type as the type written in
/// it, and any other form by [`rest_ty_kind`].
#[verifier::external_body]
fn more_ty_kind(ts: &proc_macro2::TokenStream) -> TyKind {
    match syn::parse2::<syn::Type>(ts.clone()) {
        Ok(syn::Type::Ptr(p)) => TyKind::Other(vec![ty_model(&p.elem.to_token_stream())], vec![]),
        Ok(syn::Type::Paren(p)) => TyKind::Other(vec![ty_model(&p.elem.to_token_stream())], vec![]),
        Ok(syn::Type::Group(g)) => TyKind::Other(vec![ty_model(&g.elem.to_token_stream())], vec![]),
        _ => rest_ty_kind(ts),
    }
}

/// Reads a function pointer or macro type as the types written in it, and
/// any other form as holding nothing.
#[verifier::external_body]
fn rest_ty_kind(ts: &proc_macro2::TokenStream) -> TyKind {
    match syn::parse2::<syn::Type>(ts.clone()) {
        Ok(syn::Type::BareFn(f)) => TyKind::Other(bare_fn_types(&f.to_token_stream()), vec![]),
        Ok(syn::Type::Macro(m)) => TyKind::Other(vec![path_ty(&m.mac.path.to_token_stream())], vec![]),
        _ => TyKind::Other(vec![], vec![]),
    }
}

/// Reads a comma-separated list of types.
#[verifier::external_body]
fn tys_model(ts: &proc_macro2::TokenStream) -> Vec<Ty> {
    let mut out = Vec::new();
    let parser = syn::punctuated::Punctuated::<syn::Type, syn::token::Comma>::parse_terminated;
    if let Ok(list) = syn::parse::Parser::parse2(parser, ts.clone()) {
        for t in &list {
            out.push(ty_model(&t.to_token_stream()));
        }
    }
    out
}

/// Reads the argument types of a `syn::TypeBareFn`, followed by its output
/// type if any.
#[verifier::external_body]
fn bare_fn_types(ts: &proc_macro2::TokenStream) -> Vec<Ty> {
    let mut out = Vec::new();
    if let Ok(f) = syn::parse2::<syn::TypeBareFn>(ts.clone()) {
        for a in &f.inputs {
            out.push(ty_model(&a.ty.to_token_stream()));
        }
        if let syn::ReturnType::Type(_, t) = &f.output {
            out.push(ty_model(&t.to_token_stream()));
        }
    }
    out
}

/// A path read as a path type.
#[verifier::external_body]
fn path_ty(ts: &proc_macro2::TokenStream) -> Ty {
    Ty { text: ts.to_string(), kind: TyKind::Path { qself: None, path: path_model(ts) } }
}

/// Reads a `syn::TypeParamBound`: a trait bound with whether it has a
/// modifier, whether it has a `for<...>` binder, and its path; or any other
/// bound.
#[verifier::external_body]
fn bound_model(ts: &proc_macro2::TokenStream) -> Bound {
    let kind = match syn::parse2::<syn::TypeParamBound>(ts.clone()) {
        Ok(syn::TypeParamBound::Trait(t)) => BoundKind::Trait {
            modifier: !matches!(t.modifier, syn::TraitBoundModifier::None),
            binder: t.lifetimes.is_some(),
            path: path_model(&t.path.to_token_stream()),
        },
        _ => BoundKind::Other,
    };
    Bound { text: ts.to_string(), kind }
}

/// Reads a `+`-separated list of bounds.
#[verifier::external_body]
fn bounds_model(ts: &proc_macro2::TokenStream) -> Vec<Bound> {
    let mut out = Vec::new();
    let parser = syn::punctuated::Punctuated::<syn::TypeParamBound, syn::token::Plus>::parse_terminated;
    if let Ok(list) = syn::parse::Parser::parse2(parser, ts.clone()) {
        for b in &list {
            out.push(bound_model(&b.to_token_stream()));
        }
    }
    out
}

// ---------------------------------------------------------------------------
// Signatures.

/// Reads a `syn::FnArg`: a receiver, or a typed argument (see
/// [`pat_type_model`]).
#[verifier::external_body]
fn fn_arg_model(ts: &proc_macro2::TokenStream) -> FnArg {
    match syn::parse2::<syn::FnArg>(ts.clone()) {
        Ok(syn::FnArg::Receiver(r)) => FnArg::Receiver(Receiver {
            text: ts.to_string(),
            reference: r.reference.is_some(),
            mutable: r.mutability.is_some(),
            colon: r.colon_token.is_some(),
            ty: ty_model(&r.ty.to_token_stream()),
        }),
        _ => FnArg::Typed(pat_type_model(ts)),
    }
}

/// Reads a typed `syn::FnArg`: the text of its attributes joined with
/// spaces, its pattern and its type.
#[verifier::external_body]
fn pat_type_model(ts: &proc_macro2::TokenStream) -> PatType {
    let mut attrs: Vec<String> = Vec::new();
    match syn::parse2::<syn::FnArg>(ts.clone()) {
        Ok(syn::FnArg::Typed(pt)) => {
            for a in &pt.attrs {
                attrs.push(a.to_token_stream().to_string());
            }
            PatType { attrs_text: attrs.join(" "), pat: pat_model(&pt.pat.to_token_stream()), ty: ty_model(&pt.ty.to_token_stream()) }
        },
        _ => PatType { attrs_text: String::new(), pat: Pat::Other(ts.to_string()), ty: expr_ty(ts) },
    }
}

/// Reads a `syn::Pat` (`syn::Pat::parse_single`): a plain identifier
/// binding, or any other pattern.
#[verifier::external_body]
fn pat_model(ts: &proc_macro2::TokenStream) -> Pat {
    match syn::parse::Parser::parse2(syn::Pat::parse_single, ts.clone()) {
        Ok(syn::Pat::Ident(p)) => Pat::Ident {
            text: ts.to_string(),
            ident: p.ident.to_string(),
            by_ref: p.by_ref.is_some(),
            subpat: p.subpat.is_some(),
        },
        _ => Pat::Other(ts.to_string()),
    }
}

/// Reads a `syn::GenericParam`: a type parameter with its identifier and
/// bounds, a const parameter, or a lifetime.
#[verifier::external_body]
fn generic_param_model(ts: &proc_macro2::TokenStream) -> GenericParam {
    match syn::parse2::<syn::GenericParam>(ts.clone()) {
        Ok(syn::GenericParam::Type(t)) => GenericParam::Type {
            text: ts.to_string(),
            ident: t.ident.to_string(),
            bounds: bounds_model(&t.bounds.to_token_stream()),
        },
        Ok(syn::GenericParam::Const(_)) => GenericParam::Const(ts.to_string()),
        _ => GenericParam::Lifetime(ts.to_string()),
    }
}

/// Reads a `syn::WherePredicate`: a bounded type with its bounds, or any
/// other predicate.
#[verifier::external_body]
fn where_predicate_model(ts: &proc_macro2::TokenStream) -> WherePredicate {
    match syn::parse2::<syn::WherePredicate>(ts.clone()) {
        Ok(syn::WherePredicate::Type(t)) => WherePredicate::Type {
            text: ts.to_string(),
            bounded: ty_model(&t.bounded_ty.to_token_stream()),
            bounds: bounds_model(&t.bounds.to_token_stream()),
        },
        _ => WherePredicate::Other(ts.to_string()),
    }
}

/// Reads a `syn::Signature` (see [`signature_head`] and the functions for
/// its lists).
#[verifier::external_body]
fn signature_model(ts: &proc_macro2::TokenStream) -> Signature {
    let (qualifiers, asyncness, ident, variadic) = signature_head(ts);
    Signature {
        text: ts.to_string(),
        qualifiers,
        asyncness,
        ident,
        params: params_model(ts),
        where_clause: predicates_model(ts),
        inputs: inputs_model(ts),
        variadic,
        output: output_model(ts),
    }
}

/// A `syn::Signature`'s qualifiers written before `fn` as text, whether it
/// is `async`, its name, and the text of its variadic argument.
#[verifier::external_body]
fn signature_head(ts: &proc_macro2::TokenStream) -> (String, bool, String, Option<String>) {
    match syn::parse2::<syn::Signature>(ts.clone()) {
        Ok(sig) => {
            let mut q = proc_macro2::TokenStream::new();
            sig.constness.to_tokens(&mut q);
            sig.asyncness.to_tokens(&mut q);
            sig.unsafety.to_tokens(&mut q);
            sig.abi.to_tokens(&mut q);
            (q.to_string(), sig.asyncness.is_some(), sig.ident.to_string(), sig.variadic.as_ref().map(|v| v.to_token_stream().to_string()))
        },
        Err(_) => (String::new(), false, String::new(), None),
    }
}

/// A `syn::Signature`'s generic parameters.
#[verifier::external_body]
fn params_model(ts: &proc_macro2::TokenStream) -> Vec<GenericParam> {
    let mut out = Vec::new();
    if let Ok(sig) = syn::parse2::<syn::Signature>(ts.clone()) {
        for p in &sig.generics.params {
            out.push(generic_param_model(&p.to_token_stream()));
        }
    }
    out
}

/// The predicates of a `syn::Signature`'s `where` clause.
#[verifier::external_body]
fn predicates_model(ts: &proc_macro2::TokenStream) -> Vec<WherePredicate> {
    let mut out = Vec::new();
    if let Ok(syn::Signature { generics: syn::Generics { where_clause: Some(w), .. }, .. }) = syn::parse2(ts.clone()) {
        for p in &w.predicates {
            out.push(where_predicate_model(&p.to_token_stream()));
        }
    }
    out
}

/// A `syn::Signature`'s inputs.
#[verifier::external_body]
fn inputs_model(ts: &proc_macro2::TokenStream) -> Vec<FnArg> {
    let mut out = Vec::new();
    if let Ok(sig) = syn::parse2::<syn::Signature>(ts.clone()) {
        for a in &sig.inputs {
            out.push(fn_arg_model(&a.to_token_stream()));
        }
    }
    out
}

/// A `syn::Signature`'s return type, if written.
#[verifier::external_body]
fn output_model(ts: &proc_macro2::TokenStream) -> Option<Ty> {
    match syn::parse2::<syn::Signature>(ts.clone()) {
        Ok(syn::Signature { output: syn::ReturnType::Type(_, t), .. }) => Some(ty_model(&t.to_token_stream())),
        _ => None,
    }
}

// ---------------------------------------------------------------------------
// Attributes and trait items.

/// Reads one outer attribute (`syn::Attribute::parse_outer`): its text, its
/// name when its path is a single identifier, and its arguments (see
/// [`attr_args`]).
#[verifier::external_body]
fn attr_model(ts: &proc_macro2::TokenStream) -> Attribute {
    let attrs = syn::parse::Parser::parse2(syn::Attribute::parse_outer, ts.clone()).unwrap_or_default();
    let ident = match attrs.first() {
        Some(a) => a.path().get_ident().map(ToString::to_string),
        None => None,
    };
    Attribute { text: ts.to_string(), ident, args: attr_args(ts) }
}

/// Reads an attribute's arguments as a comma-separated list of `syn::Meta`
/// (`syn::Attribute::parse_args_with`): each nested argument (see
/// [`nested_meta_model`]), or the parser's message, told apart by whether
/// the attribute has a parenthesized list.
#[verifier::external_body]
fn attr_args(ts: &proc_macro2::TokenStream) -> AttrArgs {
    let attrs = syn::parse::Parser::parse2(syn::Attribute::parse_outer, ts.clone()).unwrap_or_default();
    let Some(a) = attrs.first() else { return AttrArgs::NotList(String::new()) };
    let parser = syn::punctuated::Punctuated::<syn::Meta, syn::token::Comma>::parse_terminated;
    match (a.parse_args_with(parser), &a.meta) {
        (Ok(list), _) => AttrArgs::List(nested_metas(&list.to_token_stream())),
        (Err(e), syn::Meta::List(_)) => AttrArgs::Malformed(e.to_string()),
        (Err(e), _) => AttrArgs::NotList(e.to_string()),
    }
}

/// Reads a comma-separated list of `syn::Meta`.
#[verifier::external_body]
fn nested_metas(ts: &proc_macro2::TokenStream) -> Vec<NestedMeta> {
    let mut out = Vec::new();
    let parser = syn::punctuated::Punctuated::<syn::Meta, syn::token::Comma>::parse_terminated;
    if let Ok(list) = syn::parse::Parser::parse2(parser, ts.clone()) {
        for m in &list {
            out.push(nested_meta_model(&m.to_token_stream()));
        }
    }
    out
}

/// Reads one `syn::Meta`: its name when its path is a single identifier, the
/// text of the value after `=`, and whether a parenthesized list follows.
#[verifier::external_body]
fn nested_meta_model(ts: &proc_macro2::TokenStream) -> NestedMeta {
    match syn::parse2::<syn::Meta>(ts.clone()) {
        Ok(syn::Meta::Path(p)) => NestedMeta { ident: p.get_ident().map(ToString::to_string), value: None, list: false },
        Ok(syn::Meta::List(l)) => NestedMeta { ident: l.path.get_ident().map(ToString::to_string), value: None, list: true },
        Ok(syn::Meta::NameValue(n)) => NestedMeta {
            ident: n.path.get_ident().map(ToString::to_string),
            value: Some(n.value.to_token_stream().to_string()),
            list: false,
        },
        Err(_) => NestedMeta { ident: None, value: None, list: false },
    }
}

/// Reads the outer attributes of a `syn::TraitItem`.
#[verifier::external_body]
fn item_attrs(ts: &proc_macro2::TokenStream) -> Vec<Attribute> {
    let mut out = Vec::new();
    let attrs = match syn::parse2::<syn::TraitItem>(ts.clone()) {
        Ok(syn::TraitItem::Fn(f)) => f.attrs,
        Ok(syn::TraitItem::Const(c)) => c.attrs,
        Ok(syn::TraitItem::Type(t)) => t.attrs,
        Ok(syn::TraitItem::Macro(m)) => m.attrs,
        _ => Vec::new(),
    };
    for a in &attrs {
        out.push(attr_model(&a.to_token_stream()));
    }
    out
}

/// Reads a `syn::TraitItem`: a method with its attributes, signature and
/// default body, or any other item with its attributes and whole text.
#[verifier::external_body]
fn trait_item_model(ts: &proc_macro2::TokenStream) -> TraitItem {
    let attrs = item_attrs(ts);
    match syn::parse2::<syn::TraitItem>(ts.clone()) {
        Ok(syn::TraitItem::Fn(f)) => TraitItem::Fn(TraitItemFn {
            attrs,
            sig: signature_model(&f.sig.to_token_stream()),
            default: f.default.as_ref().map(|b| b.to_token_stream().to_string()),
        }),
        Ok(syn::TraitItem::Const(_)) => TraitItem::Const { attrs, text: ts.to_string() },
        Ok(syn::TraitItem::Type(_)) => TraitItem::Type { attrs, text: ts.to_string() },
        Ok(syn::TraitItem::Macro(_)) => TraitItem::Macro { attrs, text: ts.to_string() },
        _ => TraitItem::Other(ts.to_string()),
    }
}

/// Reads a `syn::ItemTrait` (see [`trait_header`] and [`trait_lists`]).
#[verifier::external_body]
fn item_trait_model(ts: &proc_macro2::TokenStream) -> ItemTrait {
    let (attrs, generics, supertraits, items) = trait_lists(ts);
    let (header, vis, ident) = trait_header(ts);
    ItemTrait { text: ts.to_string(), attrs, header, vis, ident, generics, supertraits, items }
}

/// A `syn::ItemTrait`'s header text up to its braces, its visibility's text
/// and its name.
#[verifier::external_body]
fn trait_header(ts: &proc_macro2::TokenStream) -> (String, String, String) {
    let Ok(t) = syn::parse2::<syn::ItemTrait>(ts.clone()) else { return (String::new(), String::new(), String::new()) };
    let mut h = proc_macro2::TokenStream::new();
    t.vis.to_tokens(&mut h);
    t.unsafety.to_tokens(&mut h);
    t.auto_token.to_tokens(&mut h);
    t.trait_token.to_tokens(&mut h);
    t.ident.to_tokens(&mut h);
    t.generics.to_tokens(&mut h);
    t.colon_token.to_tokens(&mut h);
    t.supertraits.to_tokens(&mut h);
    t.generics.where_clause.to_tokens(&mut h);
    (h.to_string(), t.vis.to_token_stream().to_string(), t.ident.to_string())
}

/// A `syn::ItemTrait`'s attributes, the texts of its generic parameters, its
/// supertraits and its items.
#[verifier::external_body]
fn trait_lists(ts: &proc_macro2::TokenStream) -> (Vec<Attribute>, Vec<String>, Vec<Bound>, Vec<TraitItem>) {
    let Ok(t) = syn::parse2::<syn::ItemTrait>(ts.clone()) else { return (Vec::new(), Vec::new(), Vec::new(), Vec::new()) };
    let (mut attrs, mut generics, mut items) = (Vec::new(), Vec::new(), Vec::new());
    for a in &t.attrs {
        attrs.push(attr_model(&a.to_token_stream()));
    }
    for p in &t.generics.params {
        generics.push(p.to_token_stream().to_string());
    }
    for it in &t.items {
        items.push(trait_item_model(&it.to_token_stream()));
    }
    (attrs, generics, bounds_model(&t.supertraits.to_token_stream()), items)
}

// ---------------------------------------------------------------------------
// The reads the attributes start from.

/// What [`read_item_trait`] reads from a stream: the trait's model, or the
/// parser's message.
pub uninterp spec fn item_trait_of(item: proc_macro2::TokenStream) -> Result<ItemTrait, Seq<char>>;

/// Reads the annotated trait (`syn::parse2` into a `syn::ItemTrait`), or
/// gives the parser's message. The result is a function of the stream
/// alone, named [`item_trait_of`].
#[verifier::external_body]
pub fn read_item_trait(item: &proc_macro2::TokenStream) -> (r: Result<ItemTrait, String>)
    ensures
        match r {
            Ok(it) => item_trait_of(*item) == Ok::<ItemTrait, Seq<char>>(it),
            Err(m) => item_trait_of(*item) == Err::<ItemTrait, Seq<char>>(m@),
        },
{
    match syn::parse2::<syn::ItemTrait>(item.clone()) {
        Ok(_) => Ok(item_trait_model(item)),
        Err(e) => Err(e.to_string()),
    }
}

/// What [`read_bounds`] reads from `count` top-level token trees of a
/// stream starting at `from`: the bounds, or the parser's message.
pub uninterp spec fn bounds_of(ts: proc_macro2::TokenStream, from: usize, count: usize) -> Result<Seq<Bound>, Seq<char>>;

/// Reads `count` top-level token trees of a stream, starting at `from`, as a
/// non-empty `+`-separated list of bounds
/// (`Punctuated::parse_separated_nonempty`), each with its span, or gives
/// the parser's message. The bounds read are a function of the arguments
/// alone, named [`bounds_of`].
#[verifier::external_body]
pub fn read_bounds(ts: &proc_macro2::TokenStream, from: usize, count: usize) -> (r: Result<(Vec<Bound>, Vec<proc_macro2::Span>), String>)
    ensures
        match r {
            Ok((bs, _)) => bounds_of(*ts, from, count) == Ok::<Seq<Bound>, Seq<char>>(bs@),
            Err(m) => bounds_of(*ts, from, count) == Err::<Seq<Bound>, Seq<char>>(m@),
        },
{
    let part: proc_macro2::TokenStream = ts.clone().into_iter().skip(from).take(count).collect();
    let parser = syn::punctuated::Punctuated::<syn::TypeParamBound, syn::token::Plus>::parse_separated_nonempty;
    match syn::parse::Parser::parse2(parser, part) {
        Ok(list) => Ok((bounds_model(&list.to_token_stream()), list.iter().map(Spanned::span).collect())),
        Err(e) => Err(e.to_string()),
    }
}

/// What [`read_path`] reads from `count` top-level token trees of a stream
/// starting at `from`: the path, or the parser's message.
pub uninterp spec fn path_of(ts: proc_macro2::TokenStream, from: usize, count: usize) -> Result<Path, Seq<char>>;

/// Reads `count` top-level token trees of a stream, starting at `from`, as a
/// `syn::Path`, or gives the parser's message. The result is a function of
/// the arguments alone, named [`path_of`].
#[verifier::external_body]
pub fn read_path(ts: &proc_macro2::TokenStream, from: usize, count: usize) -> (r: Result<Path, String>)
    ensures
        match r {
            Ok(p) => path_of(*ts, from, count) == Ok::<Path, Seq<char>>(p),
            Err(m) => path_of(*ts, from, count) == Err::<Path, Seq<char>>(m@),
        },
{
    let part: proc_macro2::TokenStream = ts.clone().into_iter().skip(from).take(count).collect();
    match syn::parse2::<syn::Path>(part.clone()) {
        Ok(_) => Ok(path_model(&part)),
        Err(e) => Err(e.to_string()),
    }
}

} // verus!
