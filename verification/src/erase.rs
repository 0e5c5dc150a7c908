//! Lowering a method's generic parameters to trait objects
//! (`#[dyn_shim(erase)]`), renaming arguments for forwarding, and picking the
//! attributes a generated method carries.

use vstd::prelude::*;
use crate::bounds::{plain_path, plain_trait_bound};
use crate::model::{
    path_is_single_ident, Attribute, Bound, FnArg, GenericParam, Pat, Path, PathArguments,
    Signature, Site, Ty, TyKind, WherePredicate,
};
use crate::render::{decimal, decimal_text, edit_fits, opt_str, strs, SigEdit, SigEditSpec};
use crate::select::attr_is;
use crate::text::{push, str_eq};
use crate::visit::{ty_finds, type_mentions_ident, Finder};

verus! {

// ---------------------------------------------------------------------------
// Attributes carried onto generated methods.

/// The texts of the attributes named (when `keep_named`) or not named (when
/// not) by the single identifier `name`, in order.
pub open spec fn attr_texts(attrs: Seq<Attribute>, name: Seq<char>, keep_named: bool) -> Seq<Seq<char>>
    decreases attrs.len(),
{
    if attrs.len() == 0 {
        Seq::empty()
    } else {
        let prev = attr_texts(attrs.drop_last(), name, keep_named);
        let a = attrs.last();
        let named = a.ident matches Some(id) && id@ == name;
        if named == keep_named {
            prev.push(a.text@)
        } else {
            prev
        }
    }
}

/// The texts of the attributes named (or not named) `name`.
pub fn select_attrs(attrs: &Vec<Attribute>, name: &str, keep_named: bool) -> (r: Vec<String>)
    ensures
        strs(r@) == attr_texts(attrs@, name@, keep_named),
{
    let mut out: Vec<String> = Vec::new();
    let mut i: usize = 0;
    while i < attrs.len()
        invariant
            i <= attrs.len(),
            strs(out@) == attr_texts(attrs@.take(i as int), name@, keep_named),
        decreases attrs.len() - i,
    {
        assert(attrs@.take(i + 1).drop_last() =~= attrs@.take(i as int));
        if attr_is(&attrs[i], name) == keep_named {
            let ghost before = out@;
            out.push(attrs[i].text.clone());
            assert(strs(out@) =~= strs(before).push(attrs@[i as int].text@));
        }
        i += 1;
    }
    assert(attrs@.take(attrs.len() as int) =~= attrs@);
    out
}

/// A method's `#[cfg]` gates, the only attributes that carry onto a generated
/// forwarding method. A `#[cfg]`-gated method must stay gated everywhere it is
/// emitted, while attributes like `#[must_use]` and `#[deprecated]` are
/// rejected on trait methods in impl blocks.
pub fn cfg_gates(attrs: &Vec<Attribute>) -> (r: Vec<String>)
    ensures
        strs(r@) == attr_texts(attrs@, "cfg"@, true),
{
    select_attrs(attrs, "cfg", true)
}

// ---------------------------------------------------------------------------
// Argument names.

/// The name an input after the first is forwarded under: its declared
/// identifier, or `__a{i}` for any non-trivial pattern.
pub open spec fn arg_name(a: FnArg, i: nat) -> Seq<char> {
    match a {
        FnArg::Typed(pt) => match pt.pat {
            Pat::Ident { ident, by_ref, subpat, .. } => if !by_ref && !subpat {
                ident@
            } else {
                "__a"@ + decimal(i)
            },
            Pat::Other(_) => "__a"@ + decimal(i),
        },
        FnArg::Receiver(r) => r.text@,
    }
}

/// The names of the inputs after the first, in order.
pub open spec fn arg_names(sig: Signature) -> Seq<Seq<char>> {
    if sig.inputs@.len() == 0 {
        Seq::empty()
    } else {
        Seq::new((sig.inputs@.len() - 1) as nat, |i: int| arg_name(sig.inputs@[i + 1], i as nat))
    }
}

/// A character allowed in an identifier: an ASCII letter or digit, or `_`.
pub open spec fn ident_char(c: char) -> bool {
    ('a' <= c && c <= 'z') || ('A' <= c && c <= 'Z') || ('0' <= c && c <= '9') || c == '_'
}

/// An identifier: non-empty, made of identifier characters, not starting
/// with a digit.
pub open spec fn is_identifier(s: Seq<char>) -> bool {
    &&& s.len() > 0
    &&& !('0' <= s[0] && s[0] <= '9')
    &&& forall|i: int| 0 <= i < s.len() ==> ident_char(#[trigger] s[i])
}

proof fn lemma_decimal_digits(n: nat)
    ensures
        decimal(n).len() > 0,
        forall|i: int| 0 <= i < decimal(n).len() ==> '0' <= #[trigger] decimal(n)[i] && decimal(n)[i] <= '9',
    decreases n,
{
    reveal_strlit("0");
    reveal_strlit("1");
    reveal_strlit("2");
    reveal_strlit("3");
    reveal_strlit("4");
    reveal_strlit("5");
    reveal_strlit("6");
    reveal_strlit("7");
    reveal_strlit("8");
    reveal_strlit("9");
    if n >= 10 {
        lemma_decimal_digits(n / 10);
        let d = decimal(n / 10);
        let t = crate::render::digit_text(n % 10);
        assert(decimal(n) == d + t);
        assert forall|i: int| 0 <= i < decimal(n).len() implies '0' <= #[trigger] decimal(n)[i] && decimal(n)[i] <= '9' by {
            if i >= d.len() {
                assert(decimal(n)[i] == t[i - d.len()]);
            }
        }
    }
}

/// Each argument after the receiver is forwarded under an identifier: a
/// plain binding (`x`, `mut x`) under exactly the identifier it binds, any
/// other pattern under `__a` followed by its position. So, when the bound
/// identifiers are identifiers, every forwarded name is one, and it never
/// carries a pattern's `mut`, `ref` or spaces.
pub proof fn lemma_arg_names_are_identifiers(sig: Signature, k: int)
    requires
        0 <= k < arg_names(sig).len(),
        sig.inputs@[k + 1] is Typed,
    ensures
        ({
            let name = arg_names(sig)[k];
            let pat = sig.inputs@[k + 1]->Typed_0.pat;
            &&& (pat matches Pat::Ident { ident, by_ref, subpat, .. } && !by_ref && !subpat) ==> name
                == pat->Ident_ident@
            &&& !(pat matches Pat::Ident { ident, by_ref, subpat, .. } && !by_ref && !subpat) ==> name
                == "__a"@ + decimal(k as nat)
            &&& (pat matches Pat::Ident { ident, .. } ==> is_identifier(ident@)) ==> is_identifier(name)
        }),
{
    reveal_strlit("__a");
    lemma_decimal_digits(k as nat);
    let name = arg_names(sig)[k];
    let pat = sig.inputs@[k + 1]->Typed_0.pat;
    if !(pat matches Pat::Ident { ident, by_ref, subpat, .. } && !by_ref && !subpat) {
        let d = decimal(k as nat);
        assert(name == "__a"@ + d);
        assert forall|i: int| 0 <= i < name.len() implies ident_char(#[trigger] name[i]) by {
            if i >= 3 {
                assert(name[i] == d[i - 3]);
            }
        }
    }
}

/// The value arguments (everything after the receiver) renamed to their
/// declared idents, with a synthetic `__a{i}` for any non-trivial pattern.
/// Returns the names in order so a generated body can forward them.
pub fn rename_args(sig: &Signature) -> (r: Vec<String>)
    ensures
        strs(r@) == arg_names(*sig),
{
    let mut names: Vec<String> = Vec::new();
    if sig.inputs.len() == 0 {
        assert(strs(names@) =~= arg_names(*sig));
        return names;
    }
    let n = sig.inputs.len() - 1;
    let mut i: usize = 0;
    while i < n
        invariant
            i <= n,
            n == sig.inputs.len() - 1,
            strs(names@) == arg_names(*sig).take(i as int),
        decreases n - i,
    {
        let name = match &sig.inputs[i + 1] {
            FnArg::Typed(pt) => match &pt.pat {
                Pat::Ident { ident, by_ref, subpat, .. } => if !*by_ref && !*subpat {
                    ident.clone()
                } else {
                    synthetic_name(i)
                },
                Pat::Other(_) => synthetic_name(i),
            },
            FnArg::Receiver(r) => r.text.clone(),
        };
        names.push(name);
        assert(strs(names@) =~= arg_names(*sig).take(i + 1));
        i += 1;
    }
    assert(arg_names(*sig).take(n as int) =~= arg_names(*sig));
    names
}

fn synthetic_name(i: usize) -> (r: String)
    ensures
        r@ == "__a"@ + decimal(i as nat),
{
    let mut s = "__a".to_owned();
    let d = decimal_text(i);
    push(&mut s, d.as_str());
    s
}

// ---------------------------------------------------------------------------
// Erasing generic parameters.

/// How an erased argument is reborrowed when forwarding.
#[derive(Clone, Copy, PartialEq, Eq, Structural, Debug)]
pub enum Erased {
    /// `&P` was lowered to `&dyn Bound`; forward `&arg`.
    Shared,
    /// `&mut P` was lowered to `&mut dyn Bound`; forward `&mut arg`.
    Mut,
}

/// A method's type parameter that can be erased: `index` is its position
/// among the method's generic parameters, `bound` the position of its single
/// plain trait bound.
#[derive(Clone, Copy, PartialEq, Eq, Structural, Debug)]
pub struct ErasableParam {
    pub index: usize,
    pub bound: usize,
}

/// The number of plain trait bounds among the first `n`.
pub open spec fn plain_count(bs: Seq<Bound>, n: nat) -> nat
    decreases n,
{
    if n == 0 || n > bs.len() {
        0
    } else {
        plain_count(bs, (n - 1) as nat) + if plain_path(bs[n - 1]) is Some {
            1nat
        } else {
            0nat
        }
    }
}

/// The position of the last plain trait bound among the first `n`.
pub open spec fn last_plain(bs: Seq<Bound>, n: nat) -> int
    decreases n,
{
    if n == 0 || n > bs.len() {
        -1
    } else if plain_path(bs[n - 1]) is Some {
        n - 1
    } else {
        last_plain(bs, (n - 1) as nat)
    }
}

/// The message for a type parameter without exactly one trait bound.
pub open spec fn msg_one_bound(ident: Seq<char>) -> Seq<char> {
    "#[dyn_shim(erase)] needs `"@ + ident
        + "` to have exactly one trait bound to lower it to a single `dyn Bound`"@
}

/// The message for a const generic parameter.
pub open spec fn msg_const_param() -> Seq<char> {
    "#[dyn_shim(erase)] cannot erase a const generic parameter to a trait object"@
}

/// The erasable parameters among the first `n` generic parameters, or the
/// position of the first one that cannot be erased and why.
pub open spec fn erasable_prefix(ps: Seq<GenericParam>, n: nat) -> Result<Seq<ErasableParam>, (usize, Seq<char>)>
    decreases n,
{
    if n == 0 || n > ps.len() {
        Ok(Seq::empty())
    } else {
        match erasable_prefix(ps, (n - 1) as nat) {
            Err(e) => Err(e),
            Ok(prev) => match ps[n - 1] {
                GenericParam::Lifetime(_) => Ok(prev),
                GenericParam::Const(_) => Err(((n - 1) as usize, msg_const_param())),
                GenericParam::Type { ident, bounds, .. } => if plain_count(
                    bounds@,
                    bounds@.len(),
                ) == 1 {
                    Ok(
                        prev.push(
                            ErasableParam {
                                index: (n - 1) as usize,
                                bound: last_plain(bounds@, bounds@.len()) as usize,
                            },
                        ),
                    )
                } else {
                    Err(((n - 1) as usize, msg_one_bound(ident@)))
                },
            },
        }
    }
}

/// The identifier of the type parameter an erasable parameter names.
pub open spec fn ep_ident(sig: Signature, ep: ErasableParam) -> Seq<char> {
    match sig.params@[ep.index as int] {
        GenericParam::Type { ident, .. } => ident@,
        _ => Seq::empty(),
    }
}

/// The trait path an erasable parameter lowers to.
pub open spec fn ep_path(sig: Signature, ep: ErasableParam) -> Path {
    match sig.params@[ep.index as int] {
        GenericParam::Type { bounds, .. } => plain_path(bounds@[ep.bound as int])->Some_0,
        _ => arbitrary(),
    }
}

/// The position of the first erasable parameter named `id`.
pub open spec fn find_param(sig: Signature, eps: Seq<ErasableParam>, id: Seq<char>) -> Option<int> {
    if exists|j: int| 0 <= j < eps.len() && #[trigger] ep_ident(sig, eps[j]) == id {
        Some(
            choose|j: int|
                0 <= j < eps.len() && #[trigger] ep_ident(sig, eps[j]) == id && forall|m: int|
                    0 <= m < j ==> ep_ident(sig, #[trigger] eps[m]) != id,
        )
    } else {
        None
    }
}

/// How one argument type is erased.
#[derive(Clone, Copy, PartialEq, Eq, Structural, Debug)]
pub enum ArgErasure {
    /// Not erased.
    Keep,
    /// `&[mut] P` for erasable parameter `param` (a position in the erasable
    /// list).
    Param { mutable: bool, param: usize },
    /// `&[mut] impl Bound`, whose single plain bound is at position `bound`.
    Impl { mutable: bool, bound: usize },
}

/// The message for an `impl Trait` argument without exactly one trait bound.
pub open spec fn msg_impl_one_bound() -> Seq<char> {
    "#[dyn_shim(erase)] needs the `impl Trait` argument to have exactly one trait bound to lower it to a single `dyn Bound`"@
}

/// How an argument type is erased, or why it cannot be.
pub open spec fn arg_erasure(sig: Signature, eps: Seq<ErasableParam>, t: Ty) -> Result<ArgErasure, Seq<char>> {
    match t.kind {
        TyKind::Reference { mutable, elem, .. } => match elem.kind {
            TyKind::Path { qself, path } => if qself is None && path_is_single_ident(path) {
                match find_param(sig, eps, path.segments@[0].ident@) {
                    Some(j) => Ok(ArgErasure::Param { mutable, param: j as usize }),
                    None => Ok(ArgErasure::Keep),
                }
            } else {
                Ok(ArgErasure::Keep)
            },
            TyKind::ImplTrait(bounds) => if plain_count(bounds@, bounds@.len()) == 1 {
                Ok(
                    ArgErasure::Impl {
                        mutable,
                        bound: last_plain(bounds@, bounds@.len()) as usize,
                    },
                )
            } else {
                Err(msg_impl_one_bound())
            },
            _ => Ok(ArgErasure::Keep),
        },
        _ => Ok(ArgErasure::Keep),
    }
}

/// The erasure of input `k` (inputs that are not typed are kept).
pub open spec fn input_erasure(sig: Signature, eps: Seq<ErasableParam>, k: int) -> Result<ArgErasure, Seq<char>> {
    match sig.inputs@[k] {
        FnArg::Typed(pt) => arg_erasure(sig, eps, pt.ty),
        FnArg::Receiver(_) => Ok(ArgErasure::Keep),
    }
}

/// The erasures of inputs `1..n`, or the first input that cannot be erased.
pub open spec fn erasures_prefix(sig: Signature, eps: Seq<ErasableParam>, n: nat) -> Result<Seq<ArgErasure>, (usize, Seq<char>)>
    decreases n,
{
    if n <= 1 || n > sig.inputs@.len() {
        Ok(Seq::empty())
    } else {
        match erasures_prefix(sig, eps, (n - 1) as nat) {
            Err(e) => Err(e),
            Ok(prev) => match input_erasure(sig, eps, n - 1) {
                Err(m) => Err(((n - 1) as usize, m)),
                Ok(a) => Ok(prev.push(a)),
            },
        }
    }
}

/// How many arguments use erasable parameter `j`.
pub open spec fn uses(es: Seq<ArgErasure>, j: int) -> nat
    decreases es.len(),
{
    if es.len() == 0 {
        0
    } else {
        uses(es.drop_last(), j) + if es.last() matches ArgErasure::Param { param, .. } && param
            == j {
            1nat
        } else {
            0nat
        }
    }
}

/// The finder for a type parameter's identifier.
pub open spec fn ident_finder(id: String) -> Finder {
    Finder { find_self: false, find_impl_trait: false, ident: Some(id) }
}

/// The type parameter's identifier as written.
pub open spec fn ep_ident_string(sig: Signature, ep: ErasableParam) -> String {
    match sig.params@[ep.index as int] {
        GenericParam::Type { ident, .. } => ident,
        _ => arbitrary(),
    }
}

/// The first erasable parameter mentioned in the return type.
pub open spec fn first_in_output(sig: Signature, eps: Seq<ErasableParam>) -> Option<int> {
    match sig.output {
        None => None,
        Some(t) => if exists|j: int|
            0 <= j < eps.len() && #[trigger] ty_finds(t, ident_finder(ep_ident_string(sig, eps[j]))) {
            Some(
                choose|j: int|
                    0 <= j < eps.len() && #[trigger] ty_finds(
                        t,
                        ident_finder(ep_ident_string(sig, eps[j])),
                    ) && forall|m: int|
                        0 <= m < j ==> !ty_finds(
                            t,
                            ident_finder(ep_ident_string(sig, #[trigger] eps[m])),
                        ),
            )
        } else {
            None
        },
    }
}

/// The positions of the typed inputs after the receiver, among the first
/// `n`, whose type mentions the identifier (see [`ty_finds`]).
pub open spec fn mention_positions(sig: Signature, id: String, n: nat) -> Seq<usize>
    decreases n,
{
    if n <= 1 || n > sig.inputs@.len() {
        Seq::empty()
    } else {
        let prev = mention_positions(sig, id, (n - 1) as nat);
        if sig.inputs@[n - 1] matches FnArg::Typed(pt) && ty_finds(pt.ty, ident_finder(id)) {
            prev.push((n - 1) as usize)
        } else {
            prev
        }
    }
}

/// The message for a parameter that no argument uses behind a `&` or `&mut`.
pub open spec fn msg_unused(ident: Seq<char>) -> Seq<char> {
    "#[dyn_shim(erase)] cannot erase `"@ + ident
        + "`: it is not used behind a `&` or `&mut` argument (only such uses lower to a trait object)"@
}

/// The message for a parameter that more than one argument mentions.
pub open spec fn msg_shared(ident: Seq<char>) -> Seq<char> {
    "#[dyn_shim(erase)] cannot erase `"@ + ident
        + "`: it is used in more than one argument, which would force one reference type onto independent objects"@
}

/// Where and why erasable parameter `j` is not used in exactly one argument,
/// behind a `&` or `&mut`: no argument mentions it (reported at the
/// parameter); no argument takes it behind a reference, so the first one that
/// mentions it uses it otherwise (by value, or nested in another type); or
/// another argument mentions it besides (reported at the second argument that
/// mentions it).
pub open spec fn param_misuse(sig: Signature, eps: Seq<ErasableParam>, es: Seq<ArgErasure>, j: int, item: usize) -> Option<(Site, Seq<char>)> {
    let id = ep_ident_string(sig, eps[j]);
    let ms = mention_positions(sig, id, sig.inputs@.len());
    if ms.len() == 0 {
        Some((Site::MethodParam(item, eps[j].index), msg_unused(id@)))
    } else if uses(es, j) == 0 {
        Some((Site::ArgType(item, ms[0]), msg_unused(id@)))
    } else if ms.len() > 1 {
        Some((Site::ArgType(item, ms[1]), msg_shared(id@)))
    } else {
        None
    }
}

/// The first erasable parameter that is not used in exactly one argument,
/// behind a reference.
pub open spec fn first_misused(sig: Signature, eps: Seq<ErasableParam>, es: Seq<ArgErasure>, item: usize) -> Option<int> {
    if exists|j: int| 0 <= j < eps.len() && #[trigger] param_misuse(sig, eps, es, j, item) is Some {
        Some(
            choose|j: int|
                0 <= j < eps.len() && #[trigger] param_misuse(sig, eps, es, j, item) is Some && forall|m: int|
                    0 <= m < j ==> #[trigger] param_misuse(sig, eps, es, m, item) is None,
        )
    } else {
        None
    }
}

/// The message for a parameter that appears in the return type.
pub open spec fn msg_in_output(ident: Seq<char>) -> Seq<char> {
    "#[dyn_shim(erase)] cannot erase `"@ + ident + "`: it appears in the return type"@
}

/// Whether, and where and why not, a signature's generic parameters erase:
/// on success the erasable parameters and each later input's erasure.
pub open spec fn erase_check(sig: Signature, item: usize) -> Result<(Seq<ErasableParam>, Seq<ArgErasure>), (Site, Seq<char>)> {
    match erasable_prefix(sig.params@, sig.params@.len()) {
        Err((j, m)) => Err((Site::MethodParam(item, j), m)),
        Ok(eps) => match erasures_prefix(sig, eps, sig.inputs@.len()) {
            Err((k, m)) => Err((Site::ArgType(item, k), m)),
            Ok(es) => match first_in_output(sig, eps) {
                Some(j) => Err((Site::MethodOutput(item), msg_in_output(ep_ident(sig, eps[j])))),
                None => match first_misused(sig, eps, es, item) {
                    Some(j) => Err(param_misuse(sig, eps, es, j, item)->Some_0),
                    None => Ok((eps, es)),
                },
            },
        },
    }
}

/// The `&'a mut dyn Bound` type an erased reference is lowered to.
pub open spec fn lowered_ref_text(lifetime: Option<String>, mutable: bool, bound: Path) -> Seq<char> {
    "&"@ + (match lifetime {
        Some(l) => l@ + " "@,
        None => Seq::empty(),
    }) + (if mutable {
        "mut "@
    } else {
        Seq::empty()
    }) + "dyn "@ + bound.text@
}

/// The type text input `k` (after the first) is lowered to, if erased.
pub open spec fn lowered_text(sig: Signature, eps: Seq<ErasableParam>, a: ArgErasure, k: int) -> Option<Seq<char>> {
    match sig.inputs@[k] {
        FnArg::Typed(pt) => match pt.ty.kind {
            TyKind::Reference { lifetime, mutable, elem } => match a {
                ArgErasure::Keep => None,
                ArgErasure::Param { param, .. } => Some(
                    lowered_ref_text(lifetime, mutable, ep_path(sig, eps[param as int])),
                ),
                ArgErasure::Impl { bound, .. } => match elem.kind {
                    TyKind::ImplTrait(bs) => Some(
                        lowered_ref_text(lifetime, mutable, plain_path(bs@[bound as int])->Some_0),
                    ),
                    _ => None,
                },
            },
            _ => None,
        },
        FnArg::Receiver(_) => None,
    }
}

/// The reborrow kind of an erasure.
pub open spec fn erased_kind(a: ArgErasure) -> Option<Erased> {
    match a {
        ArgErasure::Keep => None,
        ArgErasure::Param { mutable, .. } => Some(
            if mutable {
                Erased::Mut
            } else {
                Erased::Shared
            },
        ),
        ArgErasure::Impl { mutable, .. } => Some(
            if mutable {
                Erased::Mut
            } else {
                Erased::Shared
            },
        ),
    }
}

/// The forwarding expression of an argument named `n`.
pub open spec fn forward_arg_text(kind: Option<Erased>, n: Seq<char>) -> Seq<char> {
    match kind {
        Some(Erased::Mut) => "&mut "@ + n,
        Some(Erased::Shared) => "& "@ + n,
        None => n,
    }
}

/// The rebinding that gives a mutably erased argument a mutable place.
pub open spec fn preamble_text(kind: Option<Erased>, n: Seq<char>) -> Seq<char> {
    match kind {
        Some(Erased::Mut) => "let mut "@ + n + " = "@ + n + "; "@,
        _ => Seq::empty(),
    }
}

/// A `where` predicate bounds one of the erased parameters.
pub open spec fn pred_bounds_erased(sig: Signature, eps: Seq<ErasableParam>, p: WherePredicate) -> bool {
    p matches WherePredicate::Type { bounded, .. } && bounded.kind matches TyKind::Path {
        path,
        ..
    } && path_is_single_ident(path) && exists|j: int|
        0 <= j < eps.len() && #[trigger] ep_ident(sig, eps[j]) == path.segments@[0].ident@
}

/// A method whose generic parameters have been lowered to trait objects,
/// ready to drop into a vtable.
pub struct ErasedFn {
    /// The edit that restates the dyn-compatible signature: every erased type
    /// parameter removed from the generics (and from the `where` clause) and
    /// its `&P` / `&mut P` argument retyped to `&dyn Bound` / `&mut dyn Bound`,
    /// with arguments renamed for forwarding.
    pub edit: SigEdit,
    /// `let mut <arg> = <arg>;` rebindings for each erased mutable argument.
    pub preamble: String,
    /// One forwarding expression per argument after the receiver.
    pub args: Vec<String>,
}

/// The edit that restates the erased signature: arguments renamed, each
/// erased argument retyped, the erased type parameters dropped from the
/// generics and from the `where` clause.
pub open spec fn erased_edit(sig: Signature, eps: Seq<ErasableParam>, es: Seq<ArgErasure>) -> SigEditSpec {
    SigEditSpec {
        box_receiver: false,
        names: Some(arg_names(sig)),
        lowered: Seq::new(es.len(), |k: int| lowered_text(sig, eps, es[k], k + 1)),
        keep_params: Seq::new(sig.params@.len(), |j: int| sig.params@[j] is Lifetime),
        keep_preds: Seq::new(
            sig.where_clause@.len(),
            |j: int| !pred_bounds_erased(sig, eps, sig.where_clause@[j]),
        ),
        output: None,
        extra_pred: None,
    }
}

/// The forwarding expression of each argument after the receiver.
pub open spec fn erased_args(sig: Signature, es: Seq<ArgErasure>) -> Seq<Seq<char>> {
    Seq::new(es.len(), |k: int| forward_arg_text(erased_kind(es[k]), arg_names(sig)[k]))
}

/// The rebindings that precede the forwarding call.
pub open spec fn erased_preamble(sig: Signature, es: Seq<ArgErasure>) -> Seq<char> {
    crate::render::concat(
        Seq::new(es.len(), |k: int| preamble_text(erased_kind(es[k]), arg_names(sig)[k])),
    )
}

/// The erased signature, rebindings and forwarding arguments agree with a
/// successful [`erase_check`].
pub open spec fn erased_fn_matches(sig: Signature, eps: Seq<ErasableParam>, es: Seq<ArgErasure>, r: ErasedFn) -> bool {
    &&& edit_fits(sig, r.edit@)
    &&& r.edit@ == erased_edit(sig, eps, es)
    &&& strs(r.args@) == erased_args(sig, es)
    &&& r.preamble@ == erased_preamble(sig, es)
}

proof fn lemma_erasures_at(sig: Signature, eps: Seq<ErasableParam>, n: nat, k: int)
    requires
        erasures_prefix(sig, eps, n) is Ok,
        n <= sig.inputs@.len(),
        0 <= k < erasures_prefix(sig, eps, n)->Ok_0.len(),
    ensures
        erasures_prefix(sig, eps, n)->Ok_0.len() == if n >= 1 { n - 1 } else { 0 },
        k + 1 < n,
        input_erasure(sig, eps, k + 1) == Ok::<ArgErasure, Seq<char>>(erasures_prefix(sig, eps, n)->Ok_0[k]),
    decreases n,
{
    if n > 1 {
        let prev = erasures_prefix(sig, eps, (n - 1) as nat)->Ok_0;
        if k < prev.len() {
            lemma_erasures_at(sig, eps, (n - 1) as nat, k);
        } else {
            lemma_erasures_len(sig, eps, (n - 1) as nat);
        }
    }
}

proof fn lemma_erasures_len(sig: Signature, eps: Seq<ErasableParam>, n: nat)
    requires
        erasures_prefix(sig, eps, n) is Ok,
        n <= sig.inputs@.len(),
    ensures
        erasures_prefix(sig, eps, n)->Ok_0.len() == if n >= 1 { n - 1 } else { 0 },
    decreases n,
{
    if n > 1 {
        lemma_erasures_len(sig, eps, (n - 1) as nat);
    }
}

/// An erased argument is reborrowed with the mutability it was declared
/// with: every argument the erasure lowers is a reference, a `&mut`
/// argument (to an erased type parameter or to an `impl Bound`) is forwarded
/// as `&mut name` after `let mut name = name;`, and a `&` argument as
/// `& name` with no rebinding.
pub proof fn lemma_erased_mutability(sig: Signature, item: usize, k: int)
    requires
        erase_check(sig, item) is Ok,
        0 <= k < erase_check(sig, item)->Ok_0.1.len(),
    ensures
        ({
            let (eps, es) = erase_check(sig, item)->Ok_0;
            let name = arg_names(sig)[k];
            !(es[k] is Keep) ==> (sig.inputs@[k + 1] matches FnArg::Typed(pt) && pt.ty.kind matches TyKind::Reference { mutable, .. } && {
                &&& erased_args(sig, es)[k] == if mutable { "&mut "@ + name } else { "& "@ + name }
                &&& preamble_text(erased_kind(es[k]), name) == if mutable {
                    "let mut "@ + name + " = "@ + name + "; "@
                } else {
                    Seq::<char>::empty()
                }
            })
        }),
{
    let eps = erasable_prefix(sig.params@, sig.params@.len())->Ok_0;
    let (eps2, es) = erase_check(sig, item)->Ok_0;
    assert(eps2 == eps);
    assert(erasures_prefix(sig, eps, sig.inputs@.len()) == Ok::<Seq<ArgErasure>, (usize, Seq<char>)>(es));
    lemma_erasures_at(sig, eps, sig.inputs@.len(), k);
}

/// Once a prefix of the generic parameters fails, the whole list fails the
/// same way.
proof fn lemma_erasable_sticky(ps: Seq<GenericParam>, n: nat)
    requires
        n <= ps.len(),
        erasable_prefix(ps, n) is Err,
    ensures
        erasable_prefix(ps, ps.len()) == erasable_prefix(ps, n),
    decreases ps.len() - n,
{
    if n < ps.len() {
        lemma_erasable_sticky(ps, n + 1);
    }
}

/// Every erasable parameter names a type parameter whose recorded bound is a
/// plain trait bound.
pub open spec fn eps_wf(sig: Signature, eps: Seq<ErasableParam>) -> bool {
    forall|j: int|
        0 <= j < eps.len() ==> {
            &&& (#[trigger] eps[j]).index < sig.params@.len()
            &&& sig.params@[eps[j].index as int] matches GenericParam::Type { bounds, .. } && eps[j].bound
                < bounds@.len() && plain_path(bounds@[eps[j].bound as int]) is Some
        }
}

proof fn lemma_erasable_wf(sig: Signature, n: nat)
    requires
        n <= sig.params@.len(),
        erasable_prefix(sig.params@, n) is Ok,
    ensures
        eps_wf(sig, erasable_prefix(sig.params@, n)->Ok_0),
    decreases n,
{
    if n > 0 {
        assert(erasable_prefix(sig.params@, (n - 1) as nat) is Ok);
        lemma_erasable_wf(sig, (n - 1) as nat);
        let prev = erasable_prefix(sig.params@, (n - 1) as nat)->Ok_0;
        let cur = erasable_prefix(sig.params@, n)->Ok_0;
        match sig.params@[n - 1] {
            GenericParam::Type { bounds, .. } => {
                if plain_count(bounds@, bounds@.len()) == 1 {
                    lemma_last_plain(bounds@, bounds@.len());
                    assert forall|j: int| 0 <= j < cur.len() implies {
                        &&& (#[trigger] cur[j]).index < sig.params@.len()
                        &&& sig.params@[cur[j].index as int] matches GenericParam::Type {
                            bounds,
                            ..
                        } && cur[j].bound < bounds@.len() && plain_path(
                            bounds@[cur[j].bound as int],
                        ) is Some
                    } by {
                        if j < prev.len() {
                            assert(cur[j] == prev[j]);
                        } else {
                            assert(j == prev.len());
                            let lp = last_plain(bounds@, bounds@.len());
                            assert(cur[j] == ErasableParam { index: (n - 1) as usize, bound: lp as usize });
                            assert(lp < bounds@.len());
                            assert(bounds.len() == bounds@.len());
                            assert(sig.params.len() == sig.params@.len());
                            assert((lp as usize) as int == lp);
                        }
                    }
                }
            },
            _ => {
                assert(cur == prev);
            },
        }
    }
}

proof fn lemma_last_plain(bs: Seq<Bound>, n: nat)
    requires
        n <= bs.len(),
        plain_count(bs, n) >= 1,
    ensures
        0 <= last_plain(bs, n) < n,
        plain_path(bs[last_plain(bs, n)]) is Some,
    decreases n,
{
    if n > 0 && plain_path(bs[n - 1]) is None {
        lemma_last_plain(bs, (n - 1) as nat);
    }
}

/// The position of the single plain trait bound of a list, if there is
/// exactly one.
fn unique_plain(bs: &Vec<Bound>) -> (r: Option<usize>)
    ensures
        match r {
            Some(b) => plain_count(bs@, bs@.len()) == 1 && b == last_plain(bs@, bs@.len()),
            None => plain_count(bs@, bs@.len()) != 1,
        },
{
    let mut count: usize = 0;
    let mut last: usize = 0;
    let mut i: usize = 0;
    while i < bs.len()
        invariant
            i <= bs.len(),
            count == plain_count(bs@, i as nat),
            count <= i,
            count > 0 ==> last == last_plain(bs@, i as nat),
        decreases bs.len() - i,
    {
        if plain_trait_bound(&bs[i]).is_some() {
            count += 1;
            last = i;
        }
        i += 1;
    }
    if count == 1 {
        Some(last)
    } else {
        None
    }
}

fn ep_ident_exec(sig: &Signature, ep: ErasableParam) -> (r: &String)
    requires
        ep.index < sig.params@.len(),
        sig.params@[ep.index as int] is Type,
    ensures
        r@ == ep_ident(*sig, ep),
        *r == ep_ident_string(*sig, ep),
{
    match &sig.params[ep.index] {
        GenericParam::Type { ident, .. } => ident,
        _ => &sig.ident,
    }
}

fn ep_path_exec(sig: &Signature, ep: ErasableParam) -> (r: Option<&Path>)
    requires
        ep.index < sig.params@.len(),
    ensures
        (sig.params@[ep.index as int] matches GenericParam::Type { bounds, .. } && ep.bound
            < bounds@.len() && plain_path(bounds@[ep.bound as int]) is Some) ==> (r matches Some(p)
            && *p == ep_path(*sig, ep)),
{
    match &sig.params[ep.index] {
        GenericParam::Type { bounds, .. } => if ep.bound < bounds.len() {
            plain_trait_bound(&bounds[ep.bound])
        } else {
            None
        },
        _ => None,
    }
}

fn find_param_exec(sig: &Signature, eps: &Vec<ErasableParam>, id: &String) -> (r: Option<usize>)
    requires
        eps_wf(*sig, eps@),
    ensures
        match r {
            Some(j) => find_param(*sig, eps@, id@) == Some(j as int) && j < eps@.len() && ep_ident(
                *sig,
                eps@[j as int],
            ) == id@,
            None => find_param(*sig, eps@, id@) is None,
        },
{
    let mut j: usize = 0;
    while j < eps.len()
        invariant
            j <= eps.len(),
            eps_wf(*sig, eps@),
            forall|m: int| 0 <= m < j ==> ep_ident(*sig, #[trigger] eps@[m]) != id@,
        decreases eps.len() - j,
    {
        assert(eps_wf(*sig, eps@) ==> eps@[j as int].index < sig.params@.len());
        let name = ep_ident_exec(sig, eps[j]);
        if str_eq(name.as_str(), id.as_str()) {
            assert(ep_ident(*sig, eps@[j as int]) == id@);
            let ghost c = find_param(*sig, eps@, id@)->Some_0;
            assert(c == j) by {
                if c < j {
                    assert(ep_ident(*sig, eps@[c]) != id@);
                } else if c > j {
                    assert(ep_ident(*sig, eps@[j as int]) != id@);
                }
            }
            return Some(j);
        }
        j += 1;
    }
    None
}

fn count_plain_path<'a>(bs: &'a Vec<Bound>, b: usize) -> (r: Option<&'a Path>)
    ensures
        b < bs@.len() && plain_path(bs@[b as int]) is Some ==> (r matches Some(p) && *p
            == plain_path(bs@[b as int])->Some_0),
{
    if b < bs.len() {
        plain_trait_bound(&bs[b])
    } else {
        None
    }
}

fn arg_erasure_exec(sig: &Signature, eps: &Vec<ErasableParam>, ty: &Ty) -> (r: Result<ArgErasure, String>)
    requires
        eps_wf(*sig, eps@),
    ensures
        match r {
            Ok(a) => arg_erasure(*sig, eps@, *ty) == Ok::<ArgErasure, Seq<char>>(a),
            Err(m) => arg_erasure(*sig, eps@, *ty) == Err::<ArgErasure, Seq<char>>(m@),
        },
        r matches Ok(ArgErasure::Param { param, .. }) ==> param < eps@.len(),
{
    let (mutable, elem) = match &ty.kind {
        TyKind::Reference { mutable, elem, .. } => (*mutable, elem),
        _ => return Ok(ArgErasure::Keep),
    };
    match &elem.kind {
        TyKind::Path { qself, path } => {
            let single = !path.leading_colon && path.segments.len() == 1 && match &path.segments[0].args {
                PathArguments::Plain => true,
                _ => false,
            };
            if qself.is_none() && single {
                match find_param_exec(sig, eps, &path.segments[0].ident) {
                    Some(j) => Ok(ArgErasure::Param { mutable, param: j }),
                    None => Ok(ArgErasure::Keep),
                }
            } else {
                Ok(ArgErasure::Keep)
            }
        },
        TyKind::ImplTrait(bounds) => match unique_plain(bounds) {
            Some(b) => Ok(ArgErasure::Impl { mutable, bound: b }),
            None => Err(
                "#[dyn_shim(erase)] needs the `impl Trait` argument to have exactly one trait bound to lower it to a single `dyn Bound`".to_owned(),
            ),
        },
        _ => Ok(ArgErasure::Keep),
    }
}

proof fn lemma_erasures_sticky(sig: Signature, eps: Seq<ErasableParam>, n: nat)
    requires
        n <= sig.inputs@.len(),
        erasures_prefix(sig, eps, n) is Err,
    ensures
        erasures_prefix(sig, eps, sig.inputs@.len()) == erasures_prefix(sig, eps, n),
    decreases sig.inputs@.len() - n,
{
    if n < sig.inputs@.len() {
        lemma_erasures_sticky(sig, eps, n + 1);
    }
}

fn count_uses(es: &Vec<ArgErasure>, j: usize) -> (r: usize)
    ensures
        r == uses(es@, j as int),
{
    let mut c: usize = 0;
    let mut k: usize = 0;
    while k < es.len()
        invariant
            k <= es.len(),
            c == uses(es@.take(k as int), j as int),
            c <= k,
        decreases es.len() - k,
    {
        assert(es@.take(k + 1).drop_last() =~= es@.take(k as int));
        match es[k] {
            ArgErasure::Param { param, .. } => {
                if param == j {
                    c += 1;
                }
            },
            _ => {},
        }
        k += 1;
    }
    assert(es@.take(es.len() as int) =~= es@);
    c
}

fn lowered_ref_exec(lifetime: &Option<String>, mutable: bool, bound: &Path) -> (r: String)
    ensures
        r@ == lowered_ref_text(*lifetime, mutable, *bound),
{
    let mut out = "&".to_owned();
    match lifetime {
        Some(l) => {
            push(&mut out, l.as_str());
            push(&mut out, " ");
        },
        None => {},
    }
    if mutable {
        push(&mut out, "mut ");
    }
    push(&mut out, "dyn ");
    push(&mut out, bound.text.as_str());
    assert(out@ =~= lowered_ref_text(*lifetime, mutable, *bound));
    out
}

fn lowered_exec(sig: &Signature, eps: &Vec<ErasableParam>, a: ArgErasure, k: usize) -> (r: Option<String>)
    requires
        k < sig.inputs@.len(),
        eps_wf(*sig, eps@),
        input_erasure(*sig, eps@, k as int) == Ok::<ArgErasure, Seq<char>>(a),
        a matches ArgErasure::Param { param, .. } ==> param < eps@.len(),
    ensures
        match lowered_text(*sig, eps@, a, k as int) {
            Some(t) => r matches Some(s) && s@ == t,
            None => r is None,
        },
{
    let pt = match &sig.inputs[k] {
        FnArg::Typed(pt) => pt,
        FnArg::Receiver(_) => return None,
    };
    let (lifetime, mutable, elem) = match &pt.ty.kind {
        TyKind::Reference { lifetime, mutable, elem } => (lifetime, *mutable, elem),
        _ => return None,
    };
    match a {
        ArgErasure::Keep => None,
        ArgErasure::Param { param, .. } => {
            match ep_path_exec(sig, eps[param]) {
                Some(p) => Some(lowered_ref_exec(lifetime, mutable, p)),
                None => None,
            }
        },
        ArgErasure::Impl { bound, .. } => match &elem.kind {
            TyKind::ImplTrait(bs) => {
                proof {
                    lemma_last_plain(bs@, bs@.len());
                    assert(bs.len() == bs@.len());
                }
                match count_plain_path(bs, bound) {
                    Some(p) => Some(lowered_ref_exec(lifetime, mutable, p)),
                    None => None,
                }
            },
            _ => None,
        },
    }
}

fn pred_bounds_erased_exec(sig: &Signature, eps: &Vec<ErasableParam>, p: &WherePredicate) -> (r: bool)
    requires
        eps_wf(*sig, eps@),
    ensures
        r == pred_bounds_erased(*sig, eps@, *p),
{
    let bounded = match p {
        WherePredicate::Type { bounded, .. } => bounded,
        WherePredicate::Other(_) => return false,
    };
    let path = match &bounded.kind {
        TyKind::Path { path, .. } => path,
        _ => return false,
    };
    let single = !path.leading_colon && path.segments.len() == 1 && match &path.segments[0].args {
        PathArguments::Plain => true,
        _ => false,
    };
    if !single {
        return false;
    }
    match find_param_exec(sig, eps, &path.segments[0].ident) {
        Some(j) => {
            assert(ep_ident(*sig, eps@[j as int]) == path.segments@[0].ident@);
            true
        },
        None => false,
    }
}

/// The first two typed inputs after the receiver whose type mentions `id`.
fn mentions(sig: &Signature, id: &String) -> (r: (Option<usize>, Option<usize>))
    ensures
        ({
            let ms = mention_positions(*sig, *id, sig.inputs@.len());
            &&& r.0 == (if ms.len() > 0 { Some(ms[0]) } else { None::<usize> })
            &&& r.1 == (if ms.len() > 1 { Some(ms[1]) } else { None::<usize> })
        }),
{
    let n = sig.inputs.len();
    if n == 0 {
        return (None, None);
    }
    let mut first: Option<usize> = None;
    let mut second: Option<usize> = None;
    let mut k: usize = 1;
    while k < n
        invariant
            1 <= k <= n,
            n == sig.inputs@.len(),
            ({
                let ms = mention_positions(*sig, *id, k as nat);
                &&& first == (if ms.len() > 0 { Some(ms[0]) } else { None::<usize> })
                &&& second == (if ms.len() > 1 { Some(ms[1]) } else { None::<usize> })
            }),
        decreases n - k,
    {
        let hit = match &sig.inputs[k] {
            FnArg::Typed(pt) => type_mentions_ident(&pt.ty, id),
            FnArg::Receiver(_) => false,
        };
        let ghost prev = mention_positions(*sig, *id, k as nat);
        assert(mention_positions(*sig, *id, (k + 1) as nat) == if hit {
            prev.push(k)
        } else {
            prev
        });
        if hit {
            if first.is_none() {
                first = Some(k);
            } else if second.is_none() {
                second = Some(k);
            }
        }
        k += 1;
    }
    (first, second)
}

fn unused_message(name: &str) -> (r: String)
    ensures
        r@ == msg_unused(name@),
{
    let mut m = "#[dyn_shim(erase)] cannot erase `".to_owned();
    push(&mut m, name);
    push(
        &mut m,
        "`: it is not used behind a `&` or `&mut` argument (only such uses lower to a trait object)",
    );
    m
}

fn shared_message(name: &str) -> (r: String)
    ensures
        r@ == msg_shared(name@),
{
    let mut m = "#[dyn_shim(erase)] cannot erase `".to_owned();
    push(&mut m, name);
    push(
        &mut m,
        "`: it is used in more than one argument, which would force one reference type onto independent objects",
    );
    m
}

/// The first erasable parameter mentioned in the return type, reported.
fn check_output(sig: &Signature, eps: &Vec<ErasableParam>, item: usize) -> (r: Option<(Site, String)>)
    requires
        eps_wf(*sig, eps@),
    ensures
        match r {
            Some((site, m)) => first_in_output(*sig, eps@) matches Some(j) && site == Site::MethodOutput(item)
                && m@ == msg_in_output(ep_ident(*sig, eps@[j])),
            None => first_in_output(*sig, eps@) is None,
        },
{
    match &sig.output {
        Some(t) => {
            let mut j: usize = 0;
            while j < eps.len()
                invariant
                    j <= eps.len(),
                    eps_wf(*sig, eps@),
                    sig.output == Some(*t),
                    forall|m: int|
                        0 <= m < j ==> !ty_finds(
                            *t,
                            ident_finder(ep_ident_string(*sig, #[trigger] eps@[m])),
                        ),
                decreases eps.len() - j,
            {
                assert(eps_wf(*sig, eps@) ==> eps@[j as int].index < sig.params@.len());
                let name = ep_ident_exec(sig, eps[j]);
                if type_mentions_ident(t, name) {
                    let ghost c = first_in_output(*sig, eps@)->Some_0;
                    assert(ty_finds(*t, ident_finder(ep_ident_string(*sig, eps@[j as int]))));
                    assert(c == j) by {
                        if c < j {
                            assert(!ty_finds(*t, ident_finder(ep_ident_string(*sig, eps@[c]))));
                        } else if c > j {
                            assert(!ty_finds(
                                *t,
                                ident_finder(ep_ident_string(*sig, eps@[j as int])),
                            ));
                        }
                    }
                    let mut m = "#[dyn_shim(erase)] cannot erase `".to_owned();
                    push(&mut m, name.as_str());
                    push(&mut m, "`: it appears in the return type");
                    assert(m@ == msg_in_output(ep_ident(*sig, eps@[j as int])));
                    return Some((Site::MethodOutput(item), m));
                }
                j += 1;
            }
        },
        None => {},
    }
    assert(first_in_output(*sig, eps@) is None);
    None
}

/// The first erasable parameter not used in exactly one argument, behind a
/// reference, reported.
fn check_uses(sig: &Signature, eps: &Vec<ErasableParam>, es: &Vec<ArgErasure>, item: usize) -> (r: Option<(Site, String)>)
    requires
        eps_wf(*sig, eps@),
    ensures
        match r {
            Some((site, m)) => first_misused(*sig, eps@, es@, item) matches Some(j)
                && param_misuse(*sig, eps@, es@, j, item) == Some((site, m@)),
            None => first_misused(*sig, eps@, es@, item) is None,
        },
{
    let mut j: usize = 0;
    while j < eps.len()
        invariant
            j <= eps.len(),
            eps_wf(*sig, eps@),
            forall|m: int| 0 <= m < j ==> #[trigger] param_misuse(*sig, eps@, es@, m, item) is None,
        decreases eps.len() - j,
    {
        assert(eps_wf(*sig, eps@) ==> eps@[j as int].index < sig.params@.len());
        let name = ep_ident_exec(sig, eps[j]);
        let (first, second) = mentions(sig, name);
        let c = count_uses(es, j);
        let misuse: Option<(Site, String)> = match first {
            None => Some((Site::MethodParam(item, eps[j].index), unused_message(name.as_str()))),
            Some(k0) => if c == 0 {
                Some((Site::ArgType(item, k0), unused_message(name.as_str())))
            } else {
                match second {
                    Some(k1) => Some((Site::ArgType(item, k1), shared_message(name.as_str()))),
                    None => None,
                }
            },
        };
        match misuse {
            Some((site, m)) => {
                assert(param_misuse(*sig, eps@, es@, j as int, item) == Some((site, m@)));
                let ghost f = first_misused(*sig, eps@, es@, item)->Some_0;
                assert(f == j) by {
                    if f < j {
                        assert(param_misuse(*sig, eps@, es@, f, item) is None);
                    } else if f > j {
                        assert(param_misuse(*sig, eps@, es@, j as int, item) is None);
                    }
                }
                return Some((site, m));
            },
            None => {
                assert(param_misuse(*sig, eps@, es@, j as int, item) is None);
            },
        }
        j += 1;
    }
    assert(first_misused(*sig, eps@, es@, item) is None);
    None
}

/// Lower a method's generic parameters, each bounded by a single trait and used
/// only behind a reference, to `&dyn Bound` / `&mut dyn Bound`. This is the
/// transform behind `#[dyn_shim(erase)]`: a generic argument such as `w: &mut
/// impl Write` (or a named `<W: Write>` used as `&mut W`) cannot enter a
/// vtable, but `w: &mut dyn Write` can. Forwarding reborrows the argument
/// (`&mut w`) so the source method's type parameter re-infers to the sized
/// reference type.
///
/// Fails for a parameter that cannot be erased: a const generic, more than one
/// trait bound, a mention in the return type, no argument of the form `&P` /
/// `&mut P`, or a mention in any argument besides that single one (by value,
/// nested in another type, or a second reference), reported at that argument.
/// `item` is the method's position in its trait, for the error site.
pub fn erase_generic(sig: &Signature, item: usize) -> (r: Result<ErasedFn, (Site, String)>)
    ensures
        match r {
            Ok(f) => erase_check(*sig, item) matches Ok((eps, es)) && erased_fn_matches(
                *sig,
                eps,
                es,
                f,
            ),
            Err((site, m)) => erase_check(*sig, item) == Err::<
                (Seq<ErasableParam>, Seq<ArgErasure>),
                (Site, Seq<char>),
            >((site, m@)),
        },
{
    // The erasable parameters.
    let mut eps: Vec<ErasableParam> = Vec::new();
    let mut i: usize = 0;
    while i < sig.params.len()
        invariant
            i <= sig.params.len(),
            erasable_prefix(sig.params@, i as nat) == Ok::<
                Seq<ErasableParam>,
                (usize, Seq<char>),
            >(eps@),
        decreases sig.params.len() - i,
    {
        match &sig.params[i] {
            GenericParam::Lifetime(_) => {},
            GenericParam::Const(_) => {
                proof {
                    lemma_erasable_sticky(sig.params@, (i + 1) as nat);
                }
                return Err(
                    (
                        Site::MethodParam(item, i),
                        "#[dyn_shim(erase)] cannot erase a const generic parameter to a trait object".to_owned(),
                    ),
                );
            },
            GenericParam::Type { ident, bounds, .. } => match unique_plain(bounds) {
                Some(b) => eps.push(ErasableParam { index: i, bound: b }),
                None => {
                    proof {
                        lemma_erasable_sticky(sig.params@, (i + 1) as nat);
                    }
                    let mut m = "#[dyn_shim(erase)] needs `".to_owned();
                    push(&mut m, ident.as_str());
                    push(
                        &mut m,
                        "` to have exactly one trait bound to lower it to a single `dyn Bound`",
                    );
                    return Err((Site::MethodParam(item, i), m));
                },
            },
        }
        i += 1;
    }
    proof {
        lemma_erasable_wf(*sig, sig.params@.len());
    }

    // How each argument after the first is erased.
    let n_in = sig.inputs.len();
    let mut es: Vec<ArgErasure> = Vec::new();
    let mut k: usize = 1;
    while k < n_in
        invariant
            1 <= k,
            n_in >= 1 ==> k <= n_in,
            n_in == 0 ==> k == 1,
            n_in == sig.inputs@.len(),
            forall|m: int|
                0 <= m < es@.len() ==> ((#[trigger] es@[m]) matches ArgErasure::Param { param, .. }
                    ==> param < eps@.len()),
            eps_wf(*sig, eps@),
            es@.len() == k - 1,
            erasures_prefix(*sig, eps@, k as nat) == Ok::<Seq<ArgErasure>, (usize, Seq<char>)>(
                es@,
            ),
            forall|m: int|
                0 <= m < es@.len() ==> input_erasure(*sig, eps@, m + 1) == Ok::<
                    ArgErasure,
                    Seq<char>,
                >(#[trigger] es@[m]),
        decreases n_in - k,
    {
        let a = match &sig.inputs[k] {
            FnArg::Typed(pt) => arg_erasure_exec(sig, &eps, &pt.ty),
            FnArg::Receiver(_) => Ok(ArgErasure::Keep),
        };
        match a {
            Err(m) => {
                proof {
                    lemma_erasures_sticky(*sig, eps@, (k + 1) as nat);
                }
                return Err((Site::ArgType(item, k), m));
            },
            Ok(a) => {
                es.push(a);
            },
        }
        k += 1;
    }
    let ghost es_all = es@;
    assert(erasures_prefix(*sig, eps@, sig.inputs@.len()) == Ok::<
        Seq<ArgErasure>,
        (usize, Seq<char>),
    >(es@));

    // A parameter used in the return type cannot be erased.
    match check_output(sig, &eps, item) {
        Some(e) => return Err(e),
        None => {},
    }


    // Each parameter must be used in exactly one argument, behind a reference.
    match check_uses(sig, &eps, &es, item) {
        Some(e) => return Err(e),
        None => {},
    }


    // The erased signature and the forwarding arguments.
    let names = rename_args(sig);
    let mut keep_params: Vec<bool> = Vec::new();
    let mut p: usize = 0;
    while p < sig.params.len()
        invariant
            p <= sig.params.len(),
            keep_params@.len() == p,
            forall|m: int| 0 <= m < p ==> keep_params@[m] == (sig.params@[m] is Lifetime),
        decreases sig.params.len() - p,
    {
        let keep = match &sig.params[p] {
            GenericParam::Lifetime(_) => true,
            _ => false,
        };
        keep_params.push(keep);
        p += 1;
    }
    let mut keep_preds: Vec<bool> = Vec::new();
    let mut w: usize = 0;
    while w < sig.where_clause.len()
        invariant
            w <= sig.where_clause.len(),
            eps_wf(*sig, eps@),
            keep_preds@.len() == w,
            forall|m: int|
                0 <= m < w ==> keep_preds@[m] == !pred_bounds_erased(
                    *sig,
                    eps@,
                    sig.where_clause@[m],
                ),
        decreases sig.where_clause.len() - w,
    {
        let b = pred_bounds_erased_exec(sig, &eps, &sig.where_clause[w]);
        keep_preds.push(!b);
        w += 1;
    }
    assert(names@.len() == strs(names@).len());
    let mut lowered: Vec<Option<String>> = Vec::new();
    let mut args: Vec<String> = Vec::new();
    let mut preamble = String::new();
    let n = es.len();
    let mut q: usize = 0;
    while q < n
        invariant
            q <= n,
            n == es@.len(),
            es@ == es_all,
            eps_wf(*sig, eps@),
            n == 0 || n == sig.inputs@.len() - 1,
            sig.inputs@.len() >= 1 ==> n == sig.inputs@.len() - 1,
            strs(names@) == arg_names(*sig),
            names@.len() == n,
            forall|m: int|
                0 <= m < es@.len() ==> input_erasure(*sig, eps@, m + 1) == Ok::<
                    ArgErasure,
                    Seq<char>,
                >(#[trigger] es@[m]),
            lowered@.len() == q,
            forall|m: int|
                0 <= m < es@.len() ==> ((#[trigger] es@[m]) matches ArgErasure::Param { param, .. }
                    ==> param < eps@.len()),
            forall|m: int|
                0 <= m < q ==> match #[trigger] lowered_text(*sig, eps@, es@[m], m + 1) {
                    Some(t) => lowered@[m] matches Some(s) && s@ == t,
                    None => lowered@[m] is None,
                },
            strs(args@) == Seq::new(
                n as nat,
                |m: int| forward_arg_text(erased_kind(es@[m]), arg_names(*sig)[m]),
            ).take(q as int),
            preamble@ == crate::render::concat(
                Seq::new(
                    n as nat,
                    |m: int| preamble_text(erased_kind(es@[m]), arg_names(*sig)[m]),
                ).take(q as int),
            ),
        decreases n - q,
    {
        let a = es[q];
        let l = lowered_exec(sig, &eps, a, q + 1);
        lowered.push(l);
        let name = names[q].as_str();
        assert(name@ == arg_names(*sig)[q as int]);
        let mut fwd = String::new();
        let ghost pre_before = preamble@;
        match a {
            ArgErasure::Keep => {
                push(&mut fwd, name);
            },
            ArgErasure::Param { mutable, .. } | ArgErasure::Impl { mutable, .. } => {
                if mutable {
                    push(&mut preamble, "let mut ");
                    push(&mut preamble, name);
                    push(&mut preamble, " = ");
                    push(&mut preamble, name);
                    push(&mut preamble, "; ");
                    push(&mut fwd, "&mut ");
                    push(&mut fwd, name);
                } else {
                    push(&mut fwd, "& ");
                    push(&mut fwd, name);
                }
            },
        }
        args.push(fwd);
        let ghost pre_seq = Seq::new(
            n as nat,
            |m: int| preamble_text(erased_kind(es@[m]), arg_names(*sig)[m]),
        );
        assert(pre_seq.take(q + 1).drop_last() =~= pre_seq.take(q as int));
        assert(preamble@ =~= pre_before + preamble_text(erased_kind(a), name@));
        assert(strs(args@) =~= Seq::new(
            n as nat,
            |m: int| forward_arg_text(erased_kind(es@[m]), arg_names(*sig)[m]),
        ).take(q + 1));
        q += 1;
    }
    assert(Seq::new(
        n as nat,
        |m: int| forward_arg_text(erased_kind(es@[m]), arg_names(*sig)[m]),
    ).take(n as int) =~= Seq::new(
        n as nat,
        |m: int| forward_arg_text(erased_kind(es@[m]), arg_names(*sig)[m]),
    ));
    assert(Seq::new(
        n as nat,
        |m: int| preamble_text(erased_kind(es@[m]), arg_names(*sig)[m]),
    ).take(n as int) =~= Seq::new(
        n as nat,
        |m: int| preamble_text(erased_kind(es@[m]), arg_names(*sig)[m]),
    ));
    let edit = SigEdit {
        box_receiver: false,
        names: Some(names),
        lowered,
        keep_params,
        keep_preds,
        output: None,
        extra_pred: None,
    };
    let r = ErasedFn { edit, preamble, args };
    assert(erase_check(*sig, item) == Ok::<(Seq<ErasableParam>, Seq<ArgErasure>), (Site, Seq<char>)>((eps@, es@)));
    assert(r.edit@.lowered =~= erased_edit(*sig, eps@, es@).lowered);
    assert(r.edit@.keep_params =~= erased_edit(*sig, eps@, es@).keep_params);
    assert(r.edit@.keep_preds =~= erased_edit(*sig, eps@, es@).keep_preds);
    assert(r.edit@ == erased_edit(*sig, eps@, es@));
    assert(edit_fits(*sig, r.edit@));
    Ok(r)
}

} // verus!
