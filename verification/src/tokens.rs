//! The attributes on their token input: the grammar of their arguments, and
//! each attribute from the tokens it is given to its expansion.
//!
//! `#[dyn_shim(Name[: Bounds][, reflexive = kind + kind])]`,
//! `#[dyn_shim_foreign(path::To::Source[, reflexive = ...])]`, and a bare
//! `+`-joined bound list for the others. The bounds, paths and the annotated
//! trait are read by `syn` (see [`crate::read`]); the rest of the grammar is
//! read here, on the top-level tokens.

use vstd::prelude::*;
use crate::attribute::{
    dyn_shim, dyn_shim_foreign, dyn_shim_foreign_spec, dyn_shim_recognized, dyn_shim_spec,
    dyn_shim_bind, trait_object, ForeignArgs, ShimArgs,
};
use crate::bounds::{reflexive_spec, Features, ReflexiveArg};
use crate::carrier::{expand_recognized_spec, expand_trait_object_spec};
use crate::expand::{expansion_view, fail, failed, Expansion};
use crate::model::{diags, Bound, ItemTrait, Site, Tree};
use crate::read::{
    arg_tokens, arg_trees_of, bounds_of, item_trait_of, path_of, read_bounds, read_item_trait,
    read_path, ArgToken,
};
use crate::render::strs;
use crate::visit::is_punct;

verus! {

// ---------------------------------------------------------------------------
// The grammar of the arguments.

/// The trees of the top-level tokens.
pub open spec fn trees_of(ts: Seq<ArgToken>) -> Seq<Tree> {
    ts.map_values(|t: ArgToken| t.tree)
}

/// Where a list of bounds or a path that starts at `i` ends: at the first
/// `,` outside `<...>` (a `>` right after `-` closes nothing), or at the end.
/// `depth` is the number of `<` still open.
pub open spec fn list_end(ts: Seq<Tree>, i: int, depth: int) -> int
    decreases ts.len() - i,
{
    if i < 0 || i >= ts.len() {
        ts.len() as int
    } else if is_punct(ts[i], ',') && depth <= 0 {
        i
    } else if is_punct(ts[i], '<') {
        list_end(ts, i + 1, depth + 1)
    } else if is_punct(ts[i], '>') && !(i > 0 && is_punct(ts[i - 1], '-')) {
        list_end(ts, i + 1, depth - 1)
    } else {
        list_end(ts, i + 1, depth)
    }
}

/// The message for a missing identifier.
pub open spec fn msg_expected_ident() -> Seq<char> {
    "expected identifier"@
}

/// The message for a token that the grammar does not allow there.
pub open spec fn msg_unexpected() -> Seq<char> {
    "unexpected token"@
}

/// The `+`-joined identifiers from position `j` to the end, or where and
/// why they cannot be read.
pub open spec fn kinds_from(ts: Seq<Tree>, j: int) -> Result<Seq<Seq<char>>, (int, Seq<char>)>
    decreases ts.len() - j,
{
    if j < 0 || j >= ts.len() || !(ts[j] is Ident) {
        Err((j, msg_expected_ident()))
    } else if j + 1 >= ts.len() {
        Ok(seq![ts[j]->Ident_0@])
    } else if is_punct(ts[j + 1], '+') {
        match kinds_from(ts, j + 2) {
            Ok(rest) => Ok(seq![ts[j]->Ident_0@] + rest),
            Err(e) => Err(e),
        }
    } else {
        Err((j + 1, msg_unexpected()))
    }
}

/// The optional `, reflexive = <kinds>` tail from position `i` to the end:
/// nothing, or the keyword as written and the kinds (none when the keyword
/// is another word, whose arguments are left unread); or where and why it
/// cannot be read.
pub open spec fn reflexive_tail(ts: Seq<Tree>, i: int) -> Result<Option<(Seq<char>, Seq<Seq<char>>)>, (int, Seq<char>)> {
    if i >= ts.len() {
        Ok(None)
    } else if !is_punct(ts[i], ',') {
        Err((i, msg_unexpected()))
    } else if i + 1 >= ts.len() || !(ts[i + 1] is Ident) {
        Err((i + 1, msg_expected_ident()))
    } else if ts[i + 1]->Ident_0@ != "reflexive"@ {
        Ok(Some((ts[i + 1]->Ident_0@, Seq::empty())))
    } else if i + 2 >= ts.len() || !is_punct(ts[i + 2], '=') {
        Err((i + 2, "expected `=`"@))
    } else {
        match kinds_from(ts, i + 3) {
            Ok(kinds) => Ok(Some(("reflexive"@, kinds))),
            Err(e) => Err(e),
        }
    }
}

/// How `#[dyn_shim(...)]`'s arguments lie in its tokens: the shim's name;
/// where its bounds stand, when a `:` follows the name; where the tail
/// starts; and the tail (see [`reflexive_tail`]). Or where and why the
/// arguments cannot be read.
pub open spec fn shim_layout(ts: Seq<Tree>) -> Result<(Seq<char>, Option<(int, int)>, int, Option<(Seq<char>, Seq<Seq<char>>)>), (int, Seq<char>)> {
    if ts.len() == 0 || !(ts[0] is Ident) {
        Err((0, msg_expected_ident()))
    } else {
        let name = ts[0]->Ident_0@;
        let (bounds, at) = if ts.len() > 1 && is_punct(ts[1], ':') {
            (Some((2int, list_end(ts, 2, 0))), list_end(ts, 2, 0))
        } else {
            (None, 1int)
        };
        match reflexive_tail(ts, at) {
            Ok(tail) => Ok((name, bounds, at, tail)),
            Err(e) => Err(e),
        }
    }
}

/// How `#[dyn_shim_foreign(...)]`'s arguments lie in its tokens: where the
/// source path ends (and the tail starts), and the tail; or where and why
/// the arguments cannot be read.
pub open spec fn foreign_layout(ts: Seq<Tree>) -> Result<(int, Option<(Seq<char>, Seq<Seq<char>>)>), (int, Seq<char>)> {
    let at = list_end(ts, 0, 0);
    match reflexive_tail(ts, at) {
        Ok(tail) => Ok((at, tail)),
        Err(e) => Err(e),
    }
}

/// A `reflexive` argument as its keyword and kinds.
pub open spec fn reflexive_view(r: Option<ReflexiveArg>) -> Option<(Seq<char>, Seq<Seq<char>>)> {
    match r {
        Some(a) => Some((a.key@, strs(a.kinds@))),
        None => None,
    }
}

fn is_punct_exec(t: &Tree, c: char) -> (r: bool)
    ensures
        r == is_punct(*t, c),
{
    match t {
        Tree::Punct(d) => *d == c,
        _ => false,
    }
}

fn ident_of(t: &Tree) -> (r: Option<&String>)
    ensures
        match r {
            Some(s) => *t == Tree::Ident(*s),
            None => !(*t is Ident),
        },
{
    match t {
        Tree::Ident(s) => Some(s),
        _ => None,
    }
}

/// Where a list of bounds or a path that starts at `from` ends.
pub fn list_end_exec(ts: &Vec<ArgToken>, from: usize) -> (r: usize)
    ensures
        r == list_end(trees_of(ts@), from as int, 0),
        r <= ts.len(),
{
    let ghost t = trees_of(ts@);
    let mut i: usize = from;
    let mut depth: i128 = 0;
    if i > ts.len() {
        return ts.len();
    }
    while i < ts.len()
        invariant
            from <= i <= ts.len(),
            t == trees_of(ts@),
            -(i - from) <= depth <= i - from,
            list_end(t, from as int, 0) == list_end(t, i as int, depth as int),
        decreases ts.len() - i,
    {
        let tree = &ts[i].tree;
        assert(t[i as int] == *tree);
        if is_punct_exec(tree, ',') && depth <= 0 {
            return i;
        } else if is_punct_exec(tree, '<') {
            depth = depth + 1;
        } else if is_punct_exec(tree, '>') && !(i > 0 && is_punct_exec(&ts[i - 1].tree, '-')) {
            proof {
                if i > 0 {
                    assert(t[i - 1] == ts@[i - 1].tree);
                }
            }
            depth = depth - 1;
        } else {
            proof {
                if i > 0 {
                    assert(t[i - 1] == ts@[i - 1].tree);
                }
            }
        }
        i += 1;
    }
    i
}

fn kinds_exec(ts: &Vec<ArgToken>, j: usize) -> (r: Result<Vec<String>, (usize, String)>)
    ensures
        match kinds_from(trees_of(ts@), j as int) {
            Ok(ks) => r matches Ok(v) && strs(v@) == ks,
            Err((i, m)) => r matches Err((k, s)) && k == i && s@ == m,
        },
{
    let ghost t = trees_of(ts@);
    let mut kinds: Vec<String> = Vec::new();
    let mut k: usize = j;
    loop
        invariant
            t == trees_of(ts@),
            j <= k,
            kinds_from(t, j as int) == match kinds_from(t, k as int) {
                Ok(rest) => Ok(strs(kinds@) + rest),
                Err(e) => Err::<Seq<Seq<char>>, (int, Seq<char>)>(e),
            },
        decreases ts.len() - k,
    {
        if k >= ts.len() {
            return Err((k, "expected identifier".to_owned()));
        }
        let name = match ident_of(&ts[k].tree) {
            Some(s) => s.clone(),
            None => return Err((k, "expected identifier".to_owned())),
        };
        let ghost before = kinds@;
        kinds.push(name);
        assert(strs(kinds@) =~= strs(before).push(t[k as int]->Ident_0@));
        if k + 1 >= ts.len() {
            assert(strs(before) + seq![t[k as int]->Ident_0@] =~= strs(kinds@));
            return Ok(kinds);
        }
        if !is_punct_exec(&ts[k + 1].tree, '+') {
            return Err((k + 1, "unexpected token".to_owned()));
        }
        proof {
            assert forall|rest: Seq<Seq<char>>| strs(before) + (seq![t[k as int]->Ident_0@] + rest) =~= strs(kinds@) + rest by {}
        }
        k = k + 2;
    }
}

/// The optional `, reflexive = <kinds>` tail from position `i`.
pub fn reflexive_tail_exec(ts: &Vec<ArgToken>, i: usize) -> (r: Result<Option<ReflexiveArg>, (usize, String)>)
    ensures
        match reflexive_tail(trees_of(ts@), i as int) {
            Ok(tail) => r matches Ok(a) && reflexive_view(a) == tail,
            Err((k, m)) => r matches Err((j, s)) && j == k && s@ == m,
        },
{
    let ghost t = trees_of(ts@);
    if i >= ts.len() {
        return Ok(None);
    }
    if !is_punct_exec(&ts[i].tree, ',') {
        return Err((i, "unexpected token".to_owned()));
    }
    if i + 1 >= ts.len() {
        return Err((i + 1, "expected identifier".to_owned()));
    }
    let key = match ident_of(&ts[i + 1].tree) {
        Some(s) => s.clone(),
        None => return Err((i + 1, "expected identifier".to_owned())),
    };
    proof {
        reveal_strlit("reflexive");
    }
    if !crate::text::str_eq(key.as_str(), "reflexive") {
        let kinds: Vec<String> = Vec::new();
        assert(strs(kinds@) =~= Seq::<Seq<char>>::empty());
        return Ok(Some(ReflexiveArg { key, kinds }));
    }
    if i + 2 >= ts.len() || !is_punct_exec(&ts[i + 2].tree, '=') {
        return Err((i + 2, "expected `=`".to_owned()));
    }
    match kinds_exec(ts, i + 3) {
        Ok(kinds) => Ok(Some(ReflexiveArg { key, kinds })),
        Err(e) => Err(e),
    }
}

/// How `#[dyn_shim(...)]`'s arguments lie in their tokens.
pub struct ShimLayout {
    pub name: String,
    pub bounds: Option<(usize, usize)>,
    pub tail_at: usize,
    pub reflexive: Option<ReflexiveArg>,
}

/// Read the layout of `#[dyn_shim(...)]`'s arguments.
pub fn shim_layout_exec(ts: &Vec<ArgToken>) -> (r: Result<ShimLayout, (usize, String)>)
    ensures
        match shim_layout(trees_of(ts@)) {
            Ok((name, bounds, at, tail)) => r matches Ok(l) && l.name@ == name && l.tail_at == at
                && reflexive_view(l.reflexive) == tail && match bounds {
                Some((a, b)) => l.bounds == Some((a as usize, b as usize)) && a <= b <= ts.len(),
                None => l.bounds is None,
            },
            Err((k, m)) => r matches Err((j, s)) && j == k && s@ == m,
        },
{
    if ts.len() == 0 {
        return Err((0, "expected identifier".to_owned()));
    }
    let name = match ident_of(&ts[0].tree) {
        Some(s) => s.clone(),
        None => return Err((0, "expected identifier".to_owned())),
    };
    let (bounds, at) = if ts.len() > 1 && is_punct_exec(&ts[1].tree, ':') {
        let e = list_end_exec(ts, 2);
        proof {
            lemma_list_end_from(trees_of(ts@), 2, 0);
        }
        (Some((2usize, e)), e)
    } else {
        (None, 1usize)
    };
    match reflexive_tail_exec(ts, at) {
        Ok(reflexive) => Ok(ShimLayout { name, bounds, tail_at: at, reflexive }),
        Err(e) => Err(e),
    }
}

proof fn lemma_list_end_from(ts: Seq<Tree>, i: int, depth: int)
    requires
        0 <= i,
    ensures
        i <= ts.len() ==> i <= list_end(ts, i, depth) <= ts.len(),
    decreases ts.len() - i,
{
    if i < ts.len() {
        lemma_list_end_from(ts, i + 1, depth + 1);
        lemma_list_end_from(ts, i + 1, depth - 1);
        lemma_list_end_from(ts, i + 1, depth);
    }
}

// ---------------------------------------------------------------------------
// The attributes on their tokens.

/// An attribute read from its tokens and expanded: the top-level tokens of
/// its arguments, the arguments and the annotated trait as far as they were
/// read, the spans of the bounds read and of the `reflexive` keyword and
/// kinds, and the expansion.
pub struct TokenExpansion<A> {
    pub tokens: Vec<ArgToken>,
    pub args: Option<A>,
    pub item: Option<ItemTrait>,
    pub bound_spans: Vec<proc_macro2::Span>,
    pub reflexive_spans: Vec<proc_macro2::Span>,
    pub expansion: Expansion,
}

/// The expansion stopped at one error, at a site that the reading function
/// chose.
pub open spec fn one_error(e: Expansion) -> bool {
    e.code@.len() == 0 && e.errors@.len() == 1
}

/// The spans of the `reflexive` keyword and of each kind after it, when the
/// tail starting at `at` names them.
fn reflexive_spans(ts: &Vec<ArgToken>, at: usize, arg: &Option<ReflexiveArg>) -> (r: Vec<proc_macro2::Span>) {
    let mut spans: Vec<proc_macro2::Span> = Vec::new();
    let n = match arg {
        Some(a) => a.kinds.len(),
        None => return spans,
    };
    if at >= ts.len() || ts.len() - at < 2 {
        return spans;
    }
    let mut idx: usize = at + 1;
    spans.push(ts[idx].span);
    let mut k: usize = 0;
    while k < n
        invariant
            k <= n,
            idx < ts.len(),
        decreases n - k,
    {
        if ts.len() - idx > 2 {
            idx = idx + 2;
            spans.push(ts[idx].span);
        } else {
            return spans;
        }
        k += 1;
    }
    spans
}

/// Stop with one error.
fn stop(site: Site, message: String) -> (r: Expansion)
    ensures
        expansion_view(r) == failed(site, message@),
        one_error(r),
        r.errors@[0].site == site,
{
    let r = fail(site, message);
    assert(diags(r.errors@).len() == 1);
    assert(diags(r.errors@)[0] == crate::model::diag_view(r.errors@[0]));
    r
}

fn with_expansion<A>(tokens: Vec<ArgToken>, args: Option<A>, item: Option<ItemTrait>, bound_spans: Vec<proc_macro2::Span>, reflexive_spans: Vec<proc_macro2::Span>, expansion: Expansion) -> (r: TokenExpansion<A>)
    ensures
        r.tokens == tokens,
        r.args == args,
        r.item == item,
        r.expansion == expansion,
{
    TokenExpansion { tokens, args, item, bound_spans, reflexive_spans, expansion }
}

/// The bounds `#[dyn_shim(...)]` reads at the place the layout gives them:
/// none when no `:` follows the name.
pub open spec fn shim_bounds_read(attr: proc_macro2::TokenStream, bounds: Option<(int, int)>) -> Result<Seq<Bound>, Seq<char>> {
    match bounds {
        None => Ok(Seq::empty()),
        Some((from, to)) => bounds_of(attr, from as usize, (to - from) as usize),
    }
}

/// `#[dyn_shim(...)]` on its tokens: the arguments are read by
/// [`shim_layout`] on the trees read from the attribute, with the bounds
/// read by `syn`; a `reflexive` argument that [`reflexive_spec`] refuses
/// stops the expansion before the trait is read; otherwise the trait read by
/// `syn` expands by [`dyn_shim`]. A read by `syn` that fails stops the
/// expansion with the parser's message.
pub fn dyn_shim_tokens(attr: &proc_macro2::TokenStream, item: &proc_macro2::TokenStream, features: Features) -> (r: TokenExpansion<ShimArgs>)
    ensures
        trees_of(r.tokens@) == arg_trees_of(*attr),
        match shim_layout(arg_trees_of(*attr)) {
            Err((i, m)) => r.args is None && r.item is None && expansion_view(r.expansion) == failed(Site::ArgToken(i as usize), m),
            Ok((name, bounds, _, tail)) => match shim_bounds_read(*attr, bounds) {
                Err(m) => r.args is None && r.item is None && expansion_view(r.expansion) == failed(
                    Site::ArgToken(bounds->Some_0.0 as usize),
                    m,
                ),
                Ok(bs) => r.args matches Some(a) && {
                    &&& a.shim_name@ == name
                    &&& reflexive_view(a.reflexive) == tail
                    &&& a.bounds@ == bs
                    &&& match reflexive_spec(a.reflexive) {
                        Err((site, m)) => r.item is None && expansion_view(r.expansion) == failed(site, m),
                        Ok(_) => match item_trait_of(*item) {
                            Err(m) => r.item is None && expansion_view(r.expansion) == failed(Site::CallSite, m),
                            Ok(it) => r.item == Some(it) && expansion_view(r.expansion) == if bs.len() < usize::MAX {
                                dyn_shim_spec(a, it, features)
                            } else {
                                failed(Site::Bounds, "too many bounds"@)
                            },
                        },
                    }
                },
            },
        },
{
    let tokens = arg_tokens(attr);
    let layout = match shim_layout_exec(&tokens) {
        Ok(l) => l,
        Err((i, m)) => {
            return with_expansion(tokens, None, None, Vec::new(), Vec::new(), stop(Site::ArgToken(i), m));
        },
    };
    let rspans = reflexive_spans(&tokens, layout.tail_at, &layout.reflexive);
    let (bounds, bound_spans) = match layout.bounds {
        None => (Vec::new(), Vec::new()),
        Some((from, to)) => match read_bounds(attr, from, to - from) {
            Ok(b) => b,
            Err(m) => {
                return with_expansion(tokens, None, None, Vec::new(), rspans, stop(Site::ArgToken(from), m));
            },
        },
    };
    let args = ShimArgs { shim_name: layout.name, bounds, reflexive: layout.reflexive };
    match crate::bounds::parse_reflexive(&args.reflexive) {
        Err((site, m)) => {
            return with_expansion(tokens, Some(args), None, bound_spans, rspans, stop(site, m));
        },
        Ok(_) => {},
    }
    let it = match read_item_trait(item) {
        Ok(it) => it,
        Err(m) => {
            return with_expansion(tokens, Some(args), None, bound_spans, rspans, stop(Site::CallSite, m));
        },
    };
    let e = if args.bounds.len() < usize::MAX {
        dyn_shim(&args, &it, features)
    } else {
        stop(Site::Bounds, "too many bounds".to_owned())
    };
    with_expansion(tokens, Some(args), Some(it), bound_spans, rspans, e)
}

/// `#[dyn_shim_foreign(...)]` on its tokens: the arguments are read by
/// [`foreign_layout`] on the trees read from the attribute, with the source
/// path read by `syn`; a `reflexive` argument that [`reflexive_spec`]
/// refuses stops the expansion before the trait is read; otherwise the trait
/// read by `syn` expands by [`dyn_shim_foreign`]. A read by `syn` that fails
/// stops the expansion with the parser's message.
pub fn dyn_shim_foreign_tokens(attr: &proc_macro2::TokenStream, item: &proc_macro2::TokenStream, features: Features) -> (r: TokenExpansion<ForeignArgs>)
    ensures
        trees_of(r.tokens@) == arg_trees_of(*attr),
        match foreign_layout(arg_trees_of(*attr)) {
            Err((i, m)) => r.args is None && r.item is None && expansion_view(r.expansion) == failed(Site::ArgToken(i as usize), m),
            Ok((at, tail)) => match path_of(*attr, 0, at as usize) {
                Err(m) => r.args is None && r.item is None && expansion_view(r.expansion) == failed(Site::ArgToken(0), m),
                Ok(source) => r.args matches Some(a) && {
                    &&& a.source == source
                    &&& reflexive_view(a.reflexive) == tail
                    &&& match reflexive_spec(a.reflexive) {
                        Err((site, m)) => r.item is None && expansion_view(r.expansion) == failed(site, m),
                        Ok(_) => match item_trait_of(*item) {
                            Err(m) => r.item is None && expansion_view(r.expansion) == failed(Site::CallSite, m),
                            Ok(it) => r.item == Some(it) && expansion_view(r.expansion) == if it.supertraits.len() < usize::MAX {
                                dyn_shim_foreign_spec(a, it, features)
                            } else {
                                failed(Site::Bounds, "too many supertraits"@)
                            },
                        },
                    }
                },
            },
        },
{
    let tokens = arg_tokens(attr);
    let at = list_end_exec(&tokens, 0);
    let reflexive = match reflexive_tail_exec(&tokens, at) {
        Ok(r) => r,
        Err((i, m)) => {
            return with_expansion(tokens, None, None, Vec::new(), Vec::new(), stop(Site::ArgToken(i), m));
        },
    };
    let rspans = reflexive_spans(&tokens, at, &reflexive);
    let source = match read_path(attr, 0, at) {
        Ok(p) => p,
        Err(m) => {
            return with_expansion(tokens, None, None, Vec::new(), rspans, stop(Site::ArgToken(0), m));
        },
    };
    let args = ForeignArgs { source, reflexive };
    match crate::bounds::parse_reflexive(&args.reflexive) {
        Err((site, m)) => {
            return with_expansion(tokens, Some(args), None, Vec::new(), rspans, stop(site, m));
        },
        Ok(_) => {},
    }
    let it = match read_item_trait(item) {
        Ok(it) => it,
        Err(m) => {
            return with_expansion(tokens, Some(args), None, Vec::new(), rspans, stop(Site::CallSite, m));
        },
    };
    let e = if it.supertraits.len() < usize::MAX {
        dyn_shim_foreign(&args, &it, features)
    } else {
        stop(Site::Bounds, "too many supertraits".to_owned())
    };
    with_expansion(tokens, Some(args), Some(it), Vec::new(), rspans, e)
}

/// How a bound-list attribute's reads end, before its own expansion: the
/// whole argument read as bounds, then the trait.
pub open spec fn bound_list_read(attr: proc_macro2::TokenStream, item: proc_macro2::TokenStream) -> Result<(Seq<Bound>, ItemTrait), (Site, Seq<char>)> {
    match bounds_of(attr, 0, arg_trees_of(attr).len() as usize) {
        Err(m) => Err((Site::ArgToken(0), m)),
        Ok(bs) => match item_trait_of(item) {
            Err(m) => Err((Site::CallSite, m)),
            Ok(it) => Ok((bs, it)),
        },
    }
}

/// The result of a bound-list attribute, given what its reads gave and its
/// own expansion of them.
pub open spec fn bound_list_result(r: TokenExpansion<Vec<Bound>>, attr: proc_macro2::TokenStream, item: proc_macro2::TokenStream, expand: spec_fn(Seq<Bound>, ItemTrait) -> (Seq<char>, Seq<(Site, Seq<char>)>)) -> bool {
    &&& trees_of(r.tokens@) == arg_trees_of(attr)
    &&& match bound_list_read(attr, item) {
        Err((site, m)) => r.item is None && expansion_view(r.expansion) == failed(site, m) && (site
            == Site::ArgToken(0) ==> r.args is None),
        Ok((bs, it)) => r.args matches Some(v) && v@ == bs && r.item == Some(it) && expansion_view(
            r.expansion,
        ) == expand(bs, it),
    }
}

/// The bound list and the annotated trait of `#[dyn_shim_recognized]`,
/// `#[trait_object]` and `#[dyn_shim_bind]`, read by `syn`: the whole
/// argument as a non-empty `+`-joined list, then the trait. A read that
/// fails stops with the parser's message.
fn read_bound_list(attr: &proc_macro2::TokenStream, item: &proc_macro2::TokenStream) -> (r: Result<(Vec<ArgToken>, Vec<Bound>, Vec<proc_macro2::Span>, ItemTrait), (Vec<ArgToken>, Option<Vec<Bound>>, Vec<proc_macro2::Span>, Expansion)>)
    ensures
        match r {
            Ok((tokens, bs, _, it)) => trees_of(tokens@) == arg_trees_of(*attr) && bound_list_read(*attr, *item)
                == Ok::<(Seq<Bound>, ItemTrait), (Site, Seq<char>)>((bs@, it)),
            Err((tokens, bs, _, e)) => trees_of(tokens@) == arg_trees_of(*attr) && match bound_list_read(*attr, *item) {
                Err((site, m)) => expansion_view(e) == failed(site, m) && (site == Site::ArgToken(0) ==> bs is None),
                Ok(_) => false,
            },
        },
{
    let tokens = arg_tokens(attr);
    let n = tokens.len();
    assert(trees_of(tokens@).len() == n);
    let (bounds, spans) = match read_bounds(attr, 0, n) {
        Ok(b) => b,
        Err(m) => {
            let e = stop(Site::ArgToken(0), m);
            return Err((tokens, None, Vec::new(), e));
        },
    };
    match read_item_trait(item) {
        Ok(it) => Ok((tokens, bounds, spans, it)),
        Err(m) => {
            let e = stop(Site::CallSite, m);
            Err((tokens, Some(bounds), spans, e))
        },
    }
}

/// What `#[dyn_shim_recognized(...)]` expands the bounds and trait read to.
pub open spec fn recognized_of(bs: Seq<Bound>, it: ItemTrait) -> (Seq<char>, Seq<(Site, Seq<char>)>) {
    if bs.len() < usize::MAX {
        expand_recognized_spec(it, bs)
    } else {
        failed(Site::Bounds, "too many bounds"@)
    }
}

/// What `#[trait_object(...)]` and `#[dyn_shim_bind(...)]` expand the bounds
/// and trait read to.
pub open spec fn trait_object_of(bs: Seq<Bound>, it: ItemTrait) -> (Seq<char>, Seq<(Site, Seq<char>)>) {
    expand_trait_object_spec(it, bs)
}

/// `#[dyn_shim_recognized(...)]` on its tokens: the bound list and the trait
/// read by `syn` expand by [`dyn_shim_recognized`].
pub fn dyn_shim_recognized_tokens(attr: &proc_macro2::TokenStream, item: &proc_macro2::TokenStream) -> (r: TokenExpansion<Vec<Bound>>)
    ensures
        bound_list_result(r, *attr, *item, |bs: Seq<Bound>, it: ItemTrait| recognized_of(bs, it)),
{
    match read_bound_list(attr, item) {
        Ok((tokens, bounds, spans, it)) => {
            let e = if bounds.len() < usize::MAX {
                dyn_shim_recognized(&bounds, &it)
            } else {
                stop(Site::Bounds, "too many bounds".to_owned())
            };
            with_expansion(tokens, Some(bounds), Some(it), spans, Vec::new(), e)
        },
        Err((tokens, bounds, spans, e)) => with_expansion(tokens, bounds, None, spans, Vec::new(), e),
    }
}

/// `#[trait_object(...)]` on its tokens: the bound list and the trait read
/// by `syn` expand by [`trait_object`].
pub fn trait_object_tokens(attr: &proc_macro2::TokenStream, item: &proc_macro2::TokenStream) -> (r: TokenExpansion<Vec<Bound>>)
    ensures
        bound_list_result(r, *attr, *item, |bs: Seq<Bound>, it: ItemTrait| trait_object_of(bs, it)),
{
    match read_bound_list(attr, item) {
        Ok((tokens, bounds, spans, it)) => {
            let e = trait_object(&bounds, &it);
            with_expansion(tokens, Some(bounds), Some(it), spans, Vec::new(), e)
        },
        Err((tokens, bounds, spans, e)) => with_expansion(tokens, bounds, None, spans, Vec::new(), e),
    }
}

/// `#[dyn_shim_bind(...)]` on its tokens: the bound list and the trait read
/// by `syn` expand by [`dyn_shim_bind`], exactly as for `#[trait_object]`.
pub fn dyn_shim_bind_tokens(attr: &proc_macro2::TokenStream, item: &proc_macro2::TokenStream) -> (r: TokenExpansion<Vec<Bound>>)
    ensures
        bound_list_result(r, *attr, *item, |bs: Seq<Bound>, it: ItemTrait| trait_object_of(bs, it)),
{
    match read_bound_list(attr, item) {
        Ok((tokens, bounds, spans, it)) => {
            let e = dyn_shim_bind(&bounds, &it);
            with_expansion(tokens, Some(bounds), Some(it), spans, Vec::new(), e)
        },
        Err((tokens, bounds, spans, e)) => with_expansion(tokens, bounds, None, spans, Vec::new(), e),
    }
}

} // verus!
