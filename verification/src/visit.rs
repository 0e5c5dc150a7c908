//! Searches through types: whether a type mentions `Self`, uses
//! `impl Trait`, or names a given identifier anywhere inside it.

use vstd::prelude::*;
use crate::model::{Bound, BoundKind, GenericArgument, Path, PathArguments, PathSegment, Tree, Ty, TyKind};
use crate::text::str_eq;

verus! {

/// What a search through a type looks for: a path segment named `Self`, an
/// `impl Trait`, and/or a path rooted at the given identifier.
pub struct Finder {
    pub find_self: bool,
    pub find_impl_trait: bool,
    pub ident: Option<String>,
}

/// The path is rooted at the identifier the finder looks for: it has no
/// leading `::` and its first segment is that identifier (`T`, `T::Item`).
pub open spec fn path_hit(p: Path, f: Finder) -> bool {
    &&& f.ident matches Some(id)
    &&& !p.leading_colon
    &&& p.segments@.len() > 0
    &&& p.segments@[0].ident@ == id@
}

/// Whether a type holds what the finder looks for: a path segment `Self`, an
/// `impl Trait`, or a path rooted at the identifier (one without a qualified
/// self; the qualified self type is searched itself), looking through every
/// nested type, path argument and bound.
pub open spec fn ty_finds(t: Ty, f: Finder) -> bool
    decreases t, 1nat,
{
    match t.kind {
        TyKind::Path { qself, path } => {
            (match qself {
                Some(q) => ty_finds(*q, f),
                None => false,
            }) || (qself is None && path_hit(path, f)) || segs_find(path.segments@, f)
        },
        TyKind::Reference { elem, .. } => ty_finds(*elem, f),
        TyKind::ImplTrait(bounds) => f.find_impl_trait || bounds_find(bounds@, f),
        TyKind::Other(tys, bounds) => tys_find(tys@, f) || bounds_find(bounds@, f),
        TyKind::Expr(ts) => trees_find(ts@, f),
    }
}

/// The token is the punctuation character `c`.
pub open spec fn is_punct(t: Tree, c: char) -> bool {
    t matches Tree::Punct(d) && d == c
}

/// A search sees through references: a reference type holds exactly what
/// its referent holds, whatever is searched for (`Self`, `impl Trait`, an
/// identifier).
pub proof fn lemma_reference_transparent(t: Ty, f: Finder)
    requires
        t.kind is Reference,
    ensures
        ty_finds(t, f) == ty_finds(*t.kind->elem, f),
{
}

/// A type that is a path whose some segment is `Self` mentions `Self`, at
/// any depth of references around it.
pub proof fn lemma_self_segment_found(t: Ty, f: Finder, i: int)
    requires
        f.find_self,
        t.kind matches TyKind::Path { path, .. } && 0 <= i < path.segments@.len() && path.segments@[i].ident@ == "Self"@,
    ensures
        ty_finds(t, f),
{
    let path = t.kind->path;
    lemma_segs_find_at(path.segments@, f, i);
}

proof fn lemma_segs_find_at(segs: Seq<PathSegment>, f: Finder, i: int)
    requires
        f.find_self,
        0 <= i < segs.len(),
        segs[i].ident@ == "Self"@,
    ensures
        segs_find(segs, f),
    decreases segs.len(),
{
    if i < segs.len() - 1 {
        lemma_segs_find_at(segs.drop_last(), f, i);
    }
}

/// An identifier after these tokens starts a path: it follows neither `::`
/// nor `.`.
pub open spec fn starts_path(prev: Seq<Tree>) -> bool {
    &&& !(prev.len() >= 2 && is_punct(prev.last(), ':') && is_punct(prev[prev.len() - 2], ':'))
    &&& !(prev.len() >= 1 && is_punct(prev.last(), '.'))
}

/// Some token of an expression, in a nested group too, is the identifier
/// `Self` (when searched for) or the looked-for identifier starting a path.
pub open spec fn trees_find(ts: Seq<Tree>, f: Finder) -> bool
    decreases ts, 0nat,
{
    if ts.len() == 0 {
        false
    } else {
        trees_find(ts.drop_last(), f) || match ts.last() {
            Tree::Ident(s) => (f.find_self && s@ == "Self"@) || (f.ident matches Some(id) && s@ == id@
                && starts_path(ts.drop_last())),
            Tree::Group(inner) => trees_find(inner@, f),
            _ => false,
        }
    }
}

/// Some type of the list satisfies [`ty_finds`].
pub open spec fn tys_find(tys: Seq<Ty>, f: Finder) -> bool
    decreases tys, 0nat,
{
    if tys.len() == 0 {
        false
    } else {
        tys_find(tys.drop_last(), f) || ty_finds(tys.last(), f)
    }
}

/// Some bound of the list is a trait bound whose path holds `Self` or an
/// `impl Trait` (see [`ty_finds`]).
pub open spec fn bounds_find(bs: Seq<Bound>, f: Finder) -> bool
    decreases bs, 0nat,
{
    if bs.len() == 0 {
        false
    } else {
        bounds_find(bs.drop_last(), f) || match bs.last().kind {
            BoundKind::Trait { path, .. } => path_hit(path, f) || segs_find(path.segments@, f),
            BoundKind::Other => false,
        }
    }
}

/// Some segment of the list is `Self` (when searched for) or has an argument
/// satisfying [`ty_finds`].
pub open spec fn segs_find(segs: Seq<PathSegment>, f: Finder) -> bool
    decreases segs, 0nat,
{
    if segs.len() == 0 {
        false
    } else {
        segs_find(segs.drop_last(), f) || (f.find_self && segs.last().ident@ == "Self"@)
            || match segs.last().args {
            PathArguments::Plain => false,
            PathArguments::AngleBracketed(gs) => gas_find(gs@, f),
            PathArguments::Parenthesized(tys) => tys_find(tys@, f),
        }
    }
}

/// Some generic argument of the list holds a type or bound satisfying
/// [`ty_finds`].
pub open spec fn gas_find(gs: Seq<GenericArgument>, f: Finder) -> bool
    decreases gs, 0nat,
{
    if gs.len() == 0 {
        false
    } else {
        gas_find(gs.drop_last(), f) || match gs.last() {
            GenericArgument::Type(t) => ty_finds(t, f),
            GenericArgument::Other(tys, bs) => tys_find(tys@, f) || bounds_find(bs@, f),
        }
    }
}

fn path_hit_exec(p: &Path, f: &Finder) -> (r: bool)
    ensures
        r == path_hit(*p, *f),
{
    match &f.ident {
        Some(id) => {
            if p.leading_colon || p.segments.len() == 0 {
                return false;
            }
            str_eq(p.segments[0].ident.as_str(), id.as_str())
        },
        None => false,
    }
}

/// Search a type for what the finder looks for.
pub fn ty_finds_exec(ty: &Ty, f: &Finder) -> (r: bool)
    ensures
        r == ty_finds(*ty, *f),
    decreases ty, 1nat,
{
    match &ty.kind {
        TyKind::Path { qself, path } => {
            let q = match qself {
                Some(q) => ty_finds_exec(q, f),
                None => false,
            };
            proof {
                assert(decreases_to!(*ty => path.segments));
            }
            let h = qself.is_none() && path_hit_exec(path, f);
            let p = segs_find_exec(&path.segments, f);
            q || h || p
        },
        TyKind::Reference { elem, .. } => ty_finds_exec(elem, f),
        TyKind::ImplTrait(bounds) => {
            let b = bounds_find_exec(bounds, f);
            f.find_impl_trait || b
        },
        TyKind::Other(tys, bounds) => {
            let a = tys_find_exec(tys, f);
            let b = bounds_find_exec(bounds, f);
            a || b
        },
        TyKind::Expr(ts) => trees_find_exec(ts, f),
    }
}

fn trees_find_exec(ts: &Vec<Tree>, f: &Finder) -> (r: bool)
    ensures
        r == trees_find(ts@, *f),
    decreases ts, 0nat,
{
    let mut found = false;
    let mut i: usize = 0;
    while i < ts.len()
        invariant
            i <= ts.len(),
            found == trees_find(ts@.subrange(0, i as int), *f),
        decreases ts.len() - i,
    {
        proof {
            assert(decreases_to!(*ts => ts[i as int]));
        }
        let hit = match &ts[i] {
            Tree::Ident(s) => {
                let is_self = f.find_self && str_eq(s.as_str(), "Self");
                let after_sep = i >= 2 && match (&ts[i - 1], &ts[i - 2]) {
                    (Tree::Punct(c), Tree::Punct(d)) => *c == ':' && *d == ':',
                    _ => false,
                };
                let after_dot = i >= 1 && match &ts[i - 1] {
                    Tree::Punct(c) => *c == '.',
                    _ => false,
                };
                let is_root = match &f.ident {
                    Some(id) => str_eq(s.as_str(), id.as_str()) && !after_sep && !after_dot,
                    None => false,
                };
                assert(ts@.subrange(0, i as int).len() == i);
                assert(i >= 1 ==> ts@.subrange(0, i as int).last() == ts@[i - 1]);
                assert(i >= 2 ==> ts@.subrange(0, i as int)[i - 2] == ts@[i - 2]);
                is_self || is_root
            },
            Tree::Group(inner) => trees_find_exec(inner, f),
            _ => false,
        };
        assert(ts@.subrange(0, i + 1).drop_last() =~= ts@.subrange(0, i as int));
        found = found || hit;
        i += 1;
    }
    assert(ts@.subrange(0, ts.len() as int) =~= ts@);
    found
}

/// The search for `Self` (when `find_self`) and `impl Trait` (when
/// `find_impl_trait`).
pub open spec fn self_or_impl(find_self: bool, find_impl_trait: bool) -> Finder {
    Finder { find_self, find_impl_trait, ident: None }
}

/// Whether a type mentions `Self` and/or uses `impl Trait`, each toggled by a
/// flag. Either makes a method non-dyn-compatible.
pub fn type_finds(ty: &Ty, find_self: bool, find_impl_trait: bool) -> (r: bool)
    ensures
        r == ty_finds(*ty, self_or_impl(find_self, find_impl_trait)),
{
    let f = Finder { find_self, find_impl_trait, ident: None };
    ty_finds_exec(ty, &f)
}

/// True if a type mentions the given identifier anywhere, as the first
/// segment of a path with no leading `::` and no qualified self (`T`,
/// `T::Item`, `Vec<T>`, `<T as Iterator>::Item`).
pub fn type_mentions_ident(ty: &Ty, ident: &String) -> (r: bool)
    ensures
        r == ty_finds(*ty, Finder { find_self: false, find_impl_trait: false, ident: Some(*ident) }),
{
    let f = Finder { find_self: false, find_impl_trait: false, ident: Some(ident.clone()) };
    ty_finds_exec(ty, &f)
}

fn tys_find_exec(tys: &Vec<Ty>, f: &Finder) -> (r: bool)
    ensures
        r == tys_find(tys@, *f),
    decreases tys, 0nat,
{
    let mut found = false;
    let mut i: usize = 0;
    while i < tys.len()
        invariant
            i <= tys.len(),
            found == tys_find(tys@.subrange(0, i as int), *f),
        decreases tys.len() - i,
    {
        proof {
            assert(decreases_to!(*tys => tys[i as int]));
        }
        let hit = ty_finds_exec(&tys[i], f);
        assert(tys@.subrange(0, i + 1).drop_last() =~= tys@.subrange(0, i as int));
        found = found || hit;
        i += 1;
    }
    assert(tys@.subrange(0, tys.len() as int) =~= tys@);
    found
}

fn bounds_find_exec(bs: &Vec<Bound>, f: &Finder) -> (r: bool)
    ensures
        r == bounds_find(bs@, *f),
    decreases bs, 0nat,
{
    let mut found = false;
    let mut i: usize = 0;
    while i < bs.len()
        invariant
            i <= bs.len(),
            found == bounds_find(bs@.subrange(0, i as int), *f),
        decreases bs.len() - i,
    {
        proof {
            assert(decreases_to!(*bs => bs[i as int]));
        }
        let hit = match &bs[i].kind {
            BoundKind::Trait { path, .. } => {
                proof {
                    assert(decreases_to!(bs[i as int] => path.segments));
                }
                let h = path_hit_exec(path, f);
                let p = segs_find_exec(&path.segments, f);
                h || p
            },
            BoundKind::Other => false,
        };
        assert(bs@.subrange(0, i + 1).drop_last() =~= bs@.subrange(0, i as int));
        found = found || hit;
        i += 1;
    }
    assert(bs@.subrange(0, bs.len() as int) =~= bs@);
    found
}

fn segs_find_exec(segs: &Vec<PathSegment>, f: &Finder) -> (r: bool)
    ensures
        r == segs_find(segs@, *f),
    decreases segs, 0nat,
{
    let mut found = false;
    let mut i: usize = 0;
    while i < segs.len()
        invariant
            i <= segs.len(),
            found == segs_find(segs@.subrange(0, i as int), *f),
        decreases segs.len() - i,
    {
        proof {
            assert(decreases_to!(*segs => segs[i as int]));
        }
        let seg = &segs[i];
        let is_self = f.find_self && str_eq(seg.ident.as_str(), "Self");
        let in_args = match &seg.args {
            PathArguments::Plain => false,
            PathArguments::AngleBracketed(gs) => gas_find_exec(gs, f),
            PathArguments::Parenthesized(tys) => tys_find_exec(tys, f),
        };
        assert(segs@.subrange(0, i + 1).drop_last() =~= segs@.subrange(0, i as int));
        found = found || is_self || in_args;
        i += 1;
    }
    assert(segs@.subrange(0, segs.len() as int) =~= segs@);
    found
}

fn gas_find_exec(gs: &Vec<GenericArgument>, f: &Finder) -> (r: bool)
    ensures
        r == gas_find(gs@, *f),
    decreases gs, 0nat,
{
    let mut found = false;
    let mut i: usize = 0;
    while i < gs.len()
        invariant
            i <= gs.len(),
            found == gas_find(gs@.subrange(0, i as int), *f),
        decreases gs.len() - i,
    {
        proof {
            assert(decreases_to!(*gs => gs[i as int]));
        }
        let hit = match &gs[i] {
            GenericArgument::Type(t) => ty_finds_exec(t, f),
            GenericArgument::Other(tys, bs) => {
                let a = tys_find_exec(tys, f);
                let b = bounds_find_exec(bs, f);
                a || b
            },
        };
        assert(gs@.subrange(0, i + 1).drop_last() =~= gs@.subrange(0, i as int));
        found = found || hit;
        i += 1;
    }
    assert(gs@.subrange(0, gs.len() as int) =~= gs@);
    found
}

} // verus!
