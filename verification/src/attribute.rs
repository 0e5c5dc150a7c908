//! The four attributes: what each expands its arguments and the annotated
//! trait to.

use vstd::prelude::*;
use crate::bounds::{parse_reflexive, reflexive_spec, Features, ReflexiveArg};
use crate::carrier::{
    expand_recognized, expand_recognized_spec, expand_trait_object, expand_trait_object_spec,
};
use crate::emit::{path_doc, path_doc_string};
use crate::expand::{expand, expand_spec, expansion_view, fail, failed, Expansion};
use crate::model::{Bound, ItemTrait, Path, Site};

verus! {

/// The arguments of [`dyn_shim`]: the shim trait's name, the bounds written
/// after it like a supertrait list (`DynFoo: Send + Sync`), and the optional
/// trailing `reflexive = ...`.
pub struct ShimArgs {
    pub shim_name: String,
    pub bounds: Vec<Bound>,
    pub reflexive: Option<ReflexiveArg>,
}

/// The arguments of [`dyn_shim_foreign`]: the path to the foreign source
/// trait and the optional trailing `reflexive = ...`.
pub struct ForeignArgs {
    pub source: Path,
    pub reflexive: Option<ReflexiveArg>,
}

/// What `#[dyn_shim(...)]` on a local trait expands to: the source trait is
/// named by its own identifier and re-emitted with a doc note, beside the
/// generated shim.
pub open spec fn dyn_shim_spec(args: ShimArgs, item: ItemTrait, f: Features) -> (Seq<char>, Seq<(Site, Seq<char>)>) {
    match reflexive_spec(args.reflexive) {
        Err((site, m)) => failed(site, m),
        Ok(kinds) => expand_spec(
            args.shim_name@,
            args.bounds@,
            item,
            item.ident@,
            item.ident@,
            true,
            kinds,
            f,
        ),
    }
}

/// Generate a dyn-compatible shim for the annotated trait. The original
/// trait is left in place; a new trait named by the arguments is generated
/// alongside it, with only the methods that can be dispatched through a
/// trait object, together with a blanket impl for every implementor of the
/// source trait. `features` tells which of the shipped `DynClone` / `DynHash`
/// carriers exist.
pub fn dyn_shim(args: &ShimArgs, item: &ItemTrait, features: Features) -> (r: Expansion)
    requires
        args.bounds.len() < usize::MAX,
    ensures
        expansion_view(r) == dyn_shim_spec(*args, *item, features),
{
    match parse_reflexive(&args.reflexive) {
        Err((site, m)) => fail(site, m),
        Ok(kinds) => expand(
            args.shim_name.as_str(),
            &args.bounds,
            item,
            item.ident.as_str(),
            item.ident.as_str(),
            true,
            &kinds,
            features,
        ),
    }
}

/// What `#[dyn_shim_foreign(...)]` expands to: the annotated trait is the
/// shim, named by its own identifier and bounded by its own supertraits; the
/// source trait is named by the path in the arguments and is not re-emitted.
pub open spec fn dyn_shim_foreign_spec(args: ForeignArgs, item: ItemTrait, f: Features) -> (Seq<char>, Seq<(Site, Seq<char>)>) {
    match reflexive_spec(args.reflexive) {
        Err((site, m)) => failed(site, m),
        Ok(kinds) => expand_spec(
            item.ident@,
            item.supertraits@,
            item,
            args.source.text@,
            path_doc(args.source),
            false,
            kinds,
            f,
        ),
    }
}

/// Generate a dyn-compatible shim for a trait defined in another crate. The
/// trait it is written on is the shim: its name names the shim, its
/// supertrait list supplies the bounds, and its body restates the methods to
/// forward (a restated method with a default body is provided by the shim
/// itself, so one that is not dyn-compatible is an error unless it is opted
/// out with `#[dyn_shim(skip)]`).
pub fn dyn_shim_foreign(args: &ForeignArgs, item: &ItemTrait, features: Features) -> (r: Expansion)
    requires
        item.supertraits.len() < usize::MAX,
    ensures
        expansion_view(r) == dyn_shim_foreign_spec(*args, *item, features),
{
    match parse_reflexive(&args.reflexive) {
        Err((site, m)) => fail(site, m),
        Ok(kinds) => {
            let doc = path_doc_string(&args.source);
            expand(
                item.ident.as_str(),
                &item.supertraits,
                item,
                args.source.text.as_str(),
                doc.as_str(),
                false,
                &kinds,
                features,
            )
        },
    }
}

/// Expose a recognized std trait (`Clone` or `Hash`) as a standalone
/// dyn-compatible shim named by the annotated trait, which must be empty.
/// Auto-trait markers listed after the trait select which `dyn` variants are
/// covered.
pub fn dyn_shim_recognized(bounds: &Vec<Bound>, item: &ItemTrait) -> (r: Expansion)
    requires
        bounds.len() < usize::MAX,
    ensures
        expansion_view(r) == expand_recognized_spec(*item, bounds@),
{
    expand_recognized(item, bounds)
}

/// Mount carriers onto the trait objects of a dyn-compatible trait: the
/// annotated trait is re-emitted untouched, and each listed carrier's mount
/// macro stamps `impl Target for dyn Trait` for every listed marker
/// combination.
pub fn trait_object(bounds: &Vec<Bound>, item: &ItemTrait) -> (r: Expansion)
    ensures
        expansion_view(r) == expand_trait_object_spec(*item, bounds@),
{
    expand_trait_object(item, bounds)
}

/// The name under which [`trait_object`] is also known: binding carriers onto
/// a trait that already inherits them expands exactly as mounting them does.
pub fn dyn_shim_bind(bounds: &Vec<Bound>, item: &ItemTrait) -> (r: Expansion)
    ensures
        expansion_view(r) == expand_trait_object_spec(*item, bounds@),
{
    expand_trait_object(item, bounds)
}

} // verus!
