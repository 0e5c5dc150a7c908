//! The shared expansion of the shim attributes: the shim trait, its blanket
//! impl, the recognized-bound machinery, the mount macro, and the reflexive
//! impls, or the error that stops them.

use vstd::prelude::*;
use crate::bounds::{
    classify_all, combos_spec, combos_view, dyn_supertrait_text, impl_bound_text,
    lemma_autos_at_most_five, lemma_classified_distinct, lemma_classified_indices, object_ty,
    rejected_message, ClassifiedBounds, ClassifiedSpec, Features, MarkerCombo, ObjectForm,
    RecognizedBound,
};
use crate::emit::{
    clean_spec, clean_text, doc_attrs, doc_attrs_text, method_text, method_text_exec,
    shim_doc, shim_doc_spec, skipped_view,
};
use crate::forward::{
    expand_recognized_bound, forward, forward_spec, recognized_machinery, spaced, spaced_strs,
};
use crate::model::{diags, Attribute, Bound, Diagnostic, ItemTrait, Site, TraitItem, TraitItemFn};
use crate::reflexive::{
    build_mount_macro, entries_spec, entries_view, mount_macro_spec, reflexive_entries,
};
use crate::render::{concat, join, join_strs, strs};
use crate::select::{
    attr_is, attr_is_dyn_shim, helper_of, helper_parse, is_provided, method_is_provided, skip,
    skip_reason, Helper,
};
use crate::text::push;

verus! {

// ---------------------------------------------------------------------------
// The result of an expansion.

/// What an attribute expands to: the generated code, and the errors to
/// report alongside it. An expansion stopped by an error has no code.
pub struct Expansion {
    pub code: String,
    pub errors: Vec<Diagnostic>,
}

/// The generated code and the reported errors, as plain values.
pub open spec fn expansion_view(e: Expansion) -> (Seq<char>, Seq<(Site, Seq<char>)>) {
    (e.code@, diags(e.errors@))
}

/// An expansion stopped by one error.
pub open spec fn failed(site: Site, msg: Seq<char>) -> (Seq<char>, Seq<(Site, Seq<char>)>) {
    (Seq::empty(), seq![(site, msg)])
}

/// Stop with one error.
pub fn fail(site: Site, message: String) -> (r: Expansion)
    ensures
        expansion_view(r) == failed(site, message@),
{
    let ghost m = message@;
    let mut errors: Vec<Diagnostic> = Vec::new();
    errors.push(Diagnostic { site, message });
    let r = Expansion { code: String::new(), errors };
    assert(diags(r.errors@) =~= seq![(site, m)]);
    r
}

// ---------------------------------------------------------------------------
// Checks on the annotated trait's items.

/// The item is a method carrying the `boxed` helper.
pub open spec fn is_boxed_method(it: TraitItem) -> bool {
    it matches TraitItem::Fn(m) && helper_of(m) matches Some(Helper::Boxed)
}

/// The position of the first `boxed` method from item `i` on.
pub open spec fn first_boxed_from(items: Seq<TraitItem>, i: nat) -> Option<nat>
    decreases items.len() - i,
{
    if i >= items.len() {
        None
    } else if is_boxed_method(items[i as int]) {
        Some(i)
    } else {
        first_boxed_from(items, i + 1)
    }
}

/// The message for a `boxed` builder on a reflexive shim with markers.
pub open spec fn msg_boxed_markers() -> Seq<char> {
    "#[dyn_shim(boxed)] does not yet support auto-trait markers on a reflexive shim: the boxed return `Box<dyn Shim>` cannot carry `+ Send` and similar"@
}

fn first_boxed(items: &Vec<TraitItem>) -> (r: Option<usize>)
    ensures
        match first_boxed_from(items@, 0) {
            Some(i) => r == Some(i as usize),
            None => r is None,
        },
{
    let mut i: usize = 0;
    while i < items.len()
        invariant
            i <= items.len(),
            first_boxed_from(items@, 0) == first_boxed_from(items@, i as nat),
        decreases items.len() - i,
    {
        let hit = match &items[i] {
            TraitItem::Fn(m) => matches!(Helper::of(m), Some(Helper::Boxed)),
            _ => false,
        };
        if hit {
            return Some(i);
        }
        i += 1;
    }
    None
}

/// The first `#[dyn_shim]` attribute from `j` on whose arguments do not
/// name a helper, with the reason.
pub open spec fn bad_helper_from(attrs: Seq<Attribute>, j: nat) -> Option<(nat, Seq<char>)>
    decreases attrs.len() - j,
{
    if j >= attrs.len() {
        None
    } else if attr_is_dyn_shim(attrs[j as int]) && helper_parse(attrs[j as int].args) is Err {
        Some((j, helper_parse(attrs[j as int].args)->Err_0))
    } else {
        bad_helper_from(attrs, j + 1)
    }
}

/// The first `#[dyn_shim]` attribute from `j` on.
pub open spec fn dyn_shim_attr_from(attrs: Seq<Attribute>, j: nat) -> Option<nat>
    decreases attrs.len() - j,
{
    if j >= attrs.len() {
        None
    } else if attr_is_dyn_shim(attrs[j as int]) {
        Some(j)
    } else {
        dyn_shim_attr_from(attrs, j + 1)
    }
}

/// A `#[dyn_shim]` attribute on an item other than a method.
pub open spec fn misplaced_helper(attrs: Seq<Attribute>, item: usize) -> Option<(Site, Seq<char>)> {
    match dyn_shim_attr_from(attrs, 0) {
        Some(j) => Some(
            (Site::ItemAttr(item, j as usize), "#[dyn_shim] attributes are only supported on methods"@),
        ),
        None => None,
    }
}

/// The error in item `item`'s helper attributes: on a method, a
/// `#[dyn_shim]` attribute that names no supported helper; on any other
/// item, a `#[dyn_shim]` attribute at all.
pub open spec fn item_attr_error(it: TraitItem, item: usize) -> Option<(Site, Seq<char>)> {
    match it {
        TraitItem::Fn(m) => match bad_helper_from(m.attrs@, 0) {
            Some((j, msg)) => Some((Site::ItemAttr(item, j as usize), msg)),
            None => None,
        },
        TraitItem::Const { attrs, .. } => misplaced_helper(attrs@, item),
        TraitItem::Type { attrs, .. } => misplaced_helper(attrs@, item),
        TraitItem::Macro { attrs, .. } => misplaced_helper(attrs@, item),
        TraitItem::Other(_) => None,
    }
}

/// The first helper-attribute error from item `i` on.
pub open spec fn attr_error_from(items: Seq<TraitItem>, i: nat) -> Option<(Site, Seq<char>)>
    decreases items.len() - i,
{
    if i >= items.len() {
        None
    } else {
        match item_attr_error(items[i as int], i as usize) {
            Some(e) => Some(e),
            None => attr_error_from(items, i + 1),
        }
    }
}

fn bad_helper(attrs: &Vec<Attribute>) -> (r: Option<(usize, String)>)
    ensures
        match bad_helper_from(attrs@, 0) {
            Some((j, m)) => r matches Some((k, t)) && k == j && t@ == m,
            None => r is None,
        },
{
    let mut j: usize = 0;
    while j < attrs.len()
        invariant
            j <= attrs.len(),
            bad_helper_from(attrs@, 0) == bad_helper_from(attrs@, j as nat),
        decreases attrs.len() - j,
    {
        if attr_is(&attrs[j], "dyn_shim") {
            match Helper::parse(&attrs[j]) {
                Err(m) => return Some((j, m)),
                Ok(_) => {},
            }
        }
        j += 1;
    }
    None
}

fn dyn_shim_attr(attrs: &Vec<Attribute>) -> (r: Option<usize>)
    ensures
        match dyn_shim_attr_from(attrs@, 0) {
            Some(j) => r == Some(j as usize),
            None => r is None,
        },
{
    let mut j: usize = 0;
    while j < attrs.len()
        invariant
            j <= attrs.len(),
            dyn_shim_attr_from(attrs@, 0) == dyn_shim_attr_from(attrs@, j as nat),
        decreases attrs.len() - j,
    {
        if attr_is(&attrs[j], "dyn_shim") {
            return Some(j);
        }
        j += 1;
    }
    None
}

fn misplaced(attrs: &Vec<Attribute>, item: usize) -> (r: Option<Diagnostic>)
    ensures
        match misplaced_helper(attrs@, item) {
            Some((site, m)) => r matches Some(d) && d.site == site && d.message@ == m,
            None => r is None,
        },
{
    match dyn_shim_attr(attrs) {
        Some(j) => Some(
            Diagnostic {
                site: Site::ItemAttr(item, j),
                message: "#[dyn_shim] attributes are only supported on methods".to_owned(),
            },
        ),
        None => None,
    }
}

/// Validate the `#[dyn_shim(...)]` helper attributes: on a method the
/// arguments must name one supported helper; on any other trait item the
/// attribute is rejected outright.
pub fn check_helper_attrs(items: &Vec<TraitItem>) -> (r: Option<Diagnostic>)
    ensures
        match attr_error_from(items@, 0) {
            Some((site, m)) => r matches Some(d) && d.site == site && d.message@ == m,
            None => r is None,
        },
{
    let mut i: usize = 0;
    while i < items.len()
        invariant
            i <= items.len(),
            attr_error_from(items@, 0) == attr_error_from(items@, i as nat),
        decreases items.len() - i,
    {
        let found = match &items[i] {
            TraitItem::Fn(m) => match bad_helper(&m.attrs) {
                Some((j, message)) => Some(Diagnostic { site: Site::ItemAttr(i, j), message }),
                None => None,
            },
            TraitItem::Const { attrs, .. } => misplaced(attrs, i),
            TraitItem::Type { attrs, .. } => misplaced(attrs, i),
            TraitItem::Macro { attrs, .. } => misplaced(attrs, i),
            TraitItem::Other(_) => None,
        };
        if found.is_some() {
            return found;
        }
        i += 1;
    }
    None
}

// ---------------------------------------------------------------------------
// The shim's methods.

/// The message for a foreign shim's provided method that cannot be a method
/// of the shim: the shim is its only home, so leaving it out would make it
/// vanish silently.
pub open spec fn msg_provided_not_dyn(name: Seq<char>, reason: Seq<char>) -> Seq<char> {
    "`"@ + name + "` has a default body, so the shim is its only home, but it is not dyn-compatible ("@
        + reason + ") and cannot be a method of the shim; make it dyn-compatible or opt it out with `#[dyn_shim(skip)]`"@
}

/// A method that is left off the shim although it has nowhere else to live:
/// a foreign shim's provided method that is not dyn-compatible, unless it is
/// opted out explicitly.
pub open spec fn provided_but_skipped(m: TraitItemFn, reemit: bool) -> bool {
    method_is_provided(m, reemit) && !(helper_of(m) matches Some(Helper::Skip))
}

/// The shim's declarations, the blanket impl's definitions, and the skipped
/// methods with their reasons, for the first `n` items; or the first error
/// a method raises: one from its helper or its forwarding, or a provided
/// method of a foreign shim that cannot be a method of the shim.
pub open spec fn methods_prefix(items: Seq<TraitItem>, shim: Seq<char>, src: Seq<char>, reemit: bool, n: nat) -> Result<(Seq<Seq<char>>, Seq<Seq<char>>, Seq<(Seq<char>, Seq<char>)>), (Site, Seq<char>)>
    decreases n,
{
    if n == 0 || n > items.len() {
        Ok((Seq::empty(), Seq::empty(), Seq::empty()))
    } else {
        match methods_prefix(items, shim, src, reemit, (n - 1) as nat) {
            Err(e) => Err(e),
            Ok((sigs, impls, skipped)) => match items[n - 1] {
                TraitItem::Fn(m) => match skip_reason(m) {
                    Some(reason) => if provided_but_skipped(m, reemit) {
                        Err((Site::MethodIdent((n - 1) as usize), msg_provided_not_dyn(m.sig.ident@, reason)))
                    } else {
                        Ok((sigs, impls, skipped.push((m.sig.ident@, reason))))
                    },
                    None => if method_is_provided(m, reemit) {
                        Ok((sigs.push(method_text(m)), impls, skipped))
                    } else {
                        match forward_spec(m, shim, src, (n - 1) as usize) {
                            Err(e) => Err(e),
                            Ok((d, b)) => Ok((sigs.push(d), impls.push(b), skipped)),
                        }
                    },
                },
                _ => Ok((sigs, impls, skipped)),
            },
        }
    }
}

proof fn lemma_methods_sticky(items: Seq<TraitItem>, shim: Seq<char>, src: Seq<char>, reemit: bool, n: nat)
    requires
        n <= items.len(),
        methods_prefix(items, shim, src, reemit, n) is Err,
    ensures
        methods_prefix(items, shim, src, reemit, items.len()) == methods_prefix(
            items,
            shim,
            src,
            reemit,
            n,
        ),
    decreases items.len() - n,
{
    if n < items.len() {
        lemma_methods_sticky(items, shim, src, reemit, n + 1);
    }
}

/// The number of methods among the first `n` items.
pub open spec fn method_count(items: Seq<TraitItem>, n: nat) -> nat
    decreases n,
{
    if n == 0 || n > items.len() {
        0
    } else {
        method_count(items, (n - 1) as nat) + if items[n - 1] is Fn {
            1nat
        } else {
            0nat
        }
    }
}

/// The number of methods among the first `n` items that cannot be
/// dispatched through a trait object.
pub open spec fn skipped_count(items: Seq<TraitItem>, n: nat) -> nat
    decreases n,
{
    if n == 0 || n > items.len() {
        0
    } else {
        skipped_count(items, (n - 1) as nat) + if (items[n - 1] matches TraitItem::Fn(m)
            && skip_reason(m) is Some) {
            1nat
        } else {
            0nat
        }
    }
}

/// The number of methods among the first `n` items that the blanket impl
/// forwards: dispatchable and not provided by the shim itself.
pub open spec fn forwarded_count(items: Seq<TraitItem>, reemit: bool, n: nat) -> nat
    decreases n,
{
    if n == 0 || n > items.len() {
        0
    } else {
        forwarded_count(items, reemit, (n - 1) as nat) + if (items[n - 1] matches TraitItem::Fn(m)
            && skip_reason(m) is None && !method_is_provided(m, reemit)) {
            1nat
        } else {
            0nat
        }
    }
}

/// Every method of the source trait is accounted for exactly once: it is
/// declared on the shim (forwarded, or provided by a foreign shim) or listed
/// in the shim's docs as skipped, and the blanket impl defines exactly the
/// forwarded ones.
pub proof fn lemma_methods_accounted(items: Seq<TraitItem>, shim: Seq<char>, src: Seq<char>, reemit: bool, n: nat)
    requires
        n <= items.len(),
        methods_prefix(items, shim, src, reemit, n) is Ok,
    ensures
        ({
            let (sigs, impls, skipped) = methods_prefix(items, shim, src, reemit, n)->Ok_0;
            &&& sigs.len() + skipped.len() == method_count(items, n)
            &&& skipped.len() == skipped_count(items, n)
            &&& impls.len() == forwarded_count(items, reemit, n)
        }),
    decreases n,
{
    if n > 0 {
        lemma_methods_accounted(items, shim, src, reemit, (n - 1) as nat);
    }
}

/// A foreign shim's provided method never vanishes silently: when the
/// methods split without error, each provided method among the first `n`
/// items is dyn-compatible (so it is declared on the shim) or was opted out
/// with `#[dyn_shim(skip)]`.
pub proof fn lemma_provided_kept(items: Seq<TraitItem>, shim: Seq<char>, src: Seq<char>, reemit: bool, n: nat, k: int)
    requires
        n <= items.len(),
        0 <= k < n,
        methods_prefix(items, shim, src, reemit, n) is Ok,
        items[k] matches TraitItem::Fn(m) && method_is_provided(m, reemit),
    ensures
        items[k] matches TraitItem::Fn(m) && (skip_reason(m) is None || helper_of(m) matches Some(Helper::Skip)),
    decreases n,
{
    if k < n - 1 {
        lemma_provided_kept(items, shim, src, reemit, (n - 1) as nat, k);
    }
}

/// A bound the shim can never carry (`Copy`, `Sized`, `Default`, the
/// comparison traits) stops the expansion of a non-generic trait, wherever it
/// stands in the list: no code is generated, and the first such bound is
/// reported with its targeted message.
pub proof fn lemma_rejected_bound_stops(
    shim: Seq<char>,
    bounds: Seq<Bound>,
    input: ItemTrait,
    src: Seq<char>,
    src_doc: Seq<char>,
    reemit: bool,
    reflexive: Seq<ObjectForm>,
    f: Features,
    i: int,
)
    requires
        input.generics@.len() == 0,
        0 <= i < bounds.len(),
        crate::bounds::classify_bound(bounds[i]) is Rejected,
        forall|j: int| 0 <= j < i ==> !(#[trigger] crate::bounds::classify_bound(bounds[j]) is Rejected),
    ensures
        expand_spec(shim, bounds, input, src, src_doc, reemit, reflexive, f) == failed(
            Site::Bound(i as usize),
            rejected_message(crate::bounds::classify_bound(bounds[i])->Rejected_0),
        ),
{
    crate::bounds::lemma_first_rejected(bounds, i);
}

/// The shim's methods split out of the source trait.
pub struct Methods {
    /// The shim trait's declarations (a forwarded method's signature, or a
    /// provided method restated whole).
    pub sigs: Vec<String>,
    /// The blanket impl's forwarding definitions.
    pub impls: Vec<String>,
    /// The methods left off the shim, with the reason each is skipped.
    pub skipped: Vec<(String, &'static str)>,
}

/// Split the source trait's methods: skipped ones are recorded with their
/// reason, a foreign shim's provided methods are restated whole, and every
/// other method is forwarded.
#[verifier::rlimit(50)]
pub fn shim_methods(items: &Vec<TraitItem>, shim: &str, src: &str, reemit: bool) -> (r: Result<Methods, Diagnostic>)
    ensures
        match methods_prefix(items@, shim@, src@, reemit, items@.len()) {
            Ok((sigs, impls, skipped)) => r matches Ok(ms) && strs(ms.sigs@) == sigs && strs(
                ms.impls@,
            ) == impls && skipped_view(ms.skipped@) == skipped,
            Err((site, m)) => r matches Err(d) && d.site == site && d.message@ == m,
        },
{
    let mut sigs: Vec<String> = Vec::new();
    let mut impls: Vec<String> = Vec::new();
    let mut skipped: Vec<(String, &'static str)> = Vec::new();
    assert(strs(sigs@) =~= Seq::<Seq<char>>::empty());
    assert(strs(impls@) =~= Seq::<Seq<char>>::empty());
    assert(skipped_view(skipped@) =~= Seq::<(Seq<char>, Seq<char>)>::empty());
    let mut i: usize = 0;
    while i < items.len()
        invariant
            i <= items.len(),
            methods_prefix(items@, shim@, src@, reemit, i as nat) == Ok::<
                (Seq<Seq<char>>, Seq<Seq<char>>, Seq<(Seq<char>, Seq<char>)>),
                (Site, Seq<char>),
            >((strs(sigs@), strs(impls@), skipped_view(skipped@))),
        decreases items.len() - i,
    {
        match &items[i] {
            TraitItem::Fn(method) => match skip(method) {
                Some(reason) => {
                    if is_provided(method, reemit) && !matches!(Helper::of(method), Some(Helper::Skip)) {
                        let mut m = "`".to_owned();
                        push(&mut m, method.sig.ident.as_str());
                        push(&mut m, "` has a default body, so the shim is its only home, but it is not dyn-compatible (");
                        push(&mut m, reason);
                        push(
                            &mut m,
                            ") and cannot be a method of the shim; make it dyn-compatible or opt it out with `#[dyn_shim(skip)]`",
                        );
                        proof {
                            lemma_methods_sticky(items@, shim@, src@, reemit, (i + 1) as nat);
                        }
                        return Err(Diagnostic { site: Site::MethodIdent(i), message: m });
                    }
                    let ghost before = skipped@;
                    let name = method.sig.ident.clone();
                    skipped.push((name, reason));
                    assert(skipped_view(skipped@) =~= skipped_view(before).push(
                        (method.sig.ident@, reason@),
                    ));
                },
                None => {
                    if is_provided(method, reemit) {
                        let t = method_text_exec(method);
                        let ghost before = sigs@;
                        sigs.push(t);
                        assert(strs(sigs@) =~= strs(before).push(t@));
                    } else {
                        match forward(method, shim, src, i) {
                            Ok(f) => {
                                let ghost bs = sigs@;
                                let ghost bi = impls@;
                                let ghost fs = f.sig@;
                                let ghost fb = f.body@;
                                sigs.push(f.sig);
                                impls.push(f.body);
                                assert(strs(sigs@) =~= strs(bs).push(fs));
                                assert(strs(impls@) =~= strs(bi).push(fb));
                            },
                            Err((site, message)) => {
                                proof {
                                    lemma_methods_sticky(items@, shim@, src@, reemit, (i + 1) as nat);
                                }
                                return Err(Diagnostic { site, message });
                            },
                        }
                    }
                },
            },
            _ => {},
        }
        i += 1;
    }
    Ok(Methods { sigs, impls, skipped })
}

// ---------------------------------------------------------------------------
// The shim trait and its blanket impl.

/// The texts of the bounds at the given positions.
pub open spec fn bound_texts(bounds: Seq<Bound>, idx: Seq<usize>) -> Seq<Seq<char>> {
    idx.map_values(|i: usize| bounds[i as int].text@)
}

/// The standalone carriers the recognized bounds add as supertraits under
/// the enabled features.
pub open spec fn dyn_supers(rs: Seq<RecognizedBound>, f: Features) -> Seq<Seq<char>>
    decreases rs.len(),
{
    if rs.len() == 0 {
        Seq::empty()
    } else {
        let prev = dyn_supers(rs.drop_last(), f);
        match dyn_supertrait_text(rs.last(), f) {
            Some(t) => prev.push(t),
            None => prev,
        }
    }
}

/// A supertrait list `: A + B`, or nothing when empty.
pub open spec fn supers_text(ss: Seq<Seq<char>>) -> Seq<char> {
    if ss.len() == 0 {
        Seq::empty()
    } else {
        ": "@ + join(ss, " + "@)
    }
}

/// Extra bounds ` + A + B` on the blanket impl's type parameter.
pub open spec fn plus_bounds(ts: Seq<Seq<char>>) -> Seq<char> {
    if ts.len() == 0 {
        Seq::empty()
    } else {
        " + "@ + join(ts, " + "@)
    }
}

/// The recognized bounds' std traits, each written ` + path`.
pub open spec fn recognized_bounds_text(rs: Seq<RecognizedBound>) -> Seq<char> {
    concat(rs.map_values(|k: RecognizedBound| " + "@ + impl_bound_text(k)))
}

/// The machinery of all recognized bounds, one after another: hidden
/// signatures, their definitions, and the bridge impls.
pub open spec fn machinery_all(rs: Seq<RecognizedBound>, shim: Seq<char>, combos: Seq<(Seq<char>, Seq<char>)>) -> (Seq<char>, Seq<char>, Seq<char>) {
    (
        concat(rs.map_values(|k: RecognizedBound| recognized_machinery(k, shim, combos).0)),
        concat(rs.map_values(|k: RecognizedBound| recognized_machinery(k, shim, combos).1)),
        concat(rs.map_values(|k: RecognizedBound| recognized_machinery(k, shim, combos).2)),
    )
}

/// The marker combinations an expansion covers: none when there is neither
/// a recognized bound nor a reflexive impl to cover them.
pub open spec fn combos_needed(c: ClassifiedSpec, reflexive: Seq<ObjectForm>) -> Seq<(Seq<char>, Seq<char>)> {
    if c.recognized.len() == 0 && reflexive.len() == 0 {
        Seq::empty()
    } else {
        combos_spec(c.autos)
    }
}

/// A requested reflexive form is stamped for every marker combination:
/// whenever a reflexive form is requested, recognized bounds or not, the
/// combinations covered are the `2^n` subsets of the `n` auto traits listed
/// in the bounds (combination `mask` holding exactly the traits whose bit is
/// set), and the invocations of each form are one per subset, in that
/// order.
pub proof fn lemma_reflexive_covers_every_marker_subset(bounds: Seq<Bound>, reflexive: Seq<ObjectForm>, shim: Seq<char>, k: ObjectForm)
    requires
        reflexive.len() > 0,
    ensures
        ({
            let autos = classify_all(bounds).autos;
            let n = vstd::arithmetic::power2::pow2(autos.len());
            let combos = combos_needed(classify_all(bounds), reflexive);
            &&& combos.len() == n
            &&& forall|mask: nat| mask < n ==> #[trigger] combos[mask as int] == crate::bounds::subset_combo(autos, mask)
            &&& invocations(shim, k, combos) == concat(
                Seq::new(n, |m: int| invocation(shim, k, crate::bounds::subset_combo(autos, m as nat).1)),
            )
        }),
{
    let autos = classify_all(bounds).autos;
    let n = vstd::arithmetic::power2::pow2(autos.len());
    let combos = combos_needed(classify_all(bounds), reflexive);
    crate::bounds::lemma_combos_len(autos);
    assert forall|mask: nat| mask < n implies #[trigger] combos[mask as int] == crate::bounds::subset_combo(autos, mask) by {
        crate::bounds::lemma_combo_is_subset(autos, mask);
    }
    let per = Seq::new(n, |m: int| invocation(shim, k, crate::bounds::subset_combo(autos, m as nat).1));
    let mapped = combos.map_values(|c: (Seq<char>, Seq<char>)| invocation(shim, k, c.1));
    assert(mapped =~= per) by {
        assert forall|m: int| 0 <= m < n implies #[trigger] mapped[m] == per[m] by {
            crate::bounds::lemma_combo_is_subset(autos, m as nat);
        }
    }
}

/// The entries of a placeable reflexive form.
pub open spec fn placeable(r: Result<Seq<Seq<char>>, Seq<(Site, Seq<char>)>>) -> Option<Seq<Seq<char>>> {
    match r {
        Ok(es) => Some(es),
        Err(_) => None,
    }
}

/// The documented shim trait: the forwarded declarations and the hidden
/// machinery's signatures, under the passed-through bounds and the carriers
/// the recognized bounds add.
pub open spec fn trait_part(
    input: ItemTrait,
    shim: Seq<char>,
    src_doc: Seq<char>,
    bounds: Seq<Bound>,
    c: ClassifiedSpec,
    f: Features,
    ms: (Seq<Seq<char>>, Seq<Seq<char>>, Seq<(Seq<char>, Seq<char>)>),
    combos: Seq<(Seq<char>, Seq<char>)>,
) -> Seq<char> {
    doc_attrs(shim_doc_spec(src_doc, shim, c.recognized, ms.2)) + input.vis@ + " trait "@ + shim
        + supers_text(bound_texts(bounds, c.supertraits) + dyn_supers(c.recognized, f)) + " { "@
        + spaced(ms.0) + machinery_all(c.recognized, shim, combos).0 + "} "@
}

/// The blanket impl of the shim for every implementor of the source trait
/// that meets the passed-through and recognized bounds.
pub open spec fn impl_part(
    shim: Seq<char>,
    src: Seq<char>,
    bounds: Seq<Bound>,
    c: ClassifiedSpec,
    ms: (Seq<Seq<char>>, Seq<Seq<char>>, Seq<(Seq<char>, Seq<char>)>),
    combos: Seq<(Seq<char>, Seq<char>)>,
) -> Seq<char> {
    "impl<__T: "@ + src + plus_bounds(bound_texts(bounds, c.supertraits))
        + recognized_bounds_text(c.recognized) + "> "@ + shim + " for __T { "@ + spaced(ms.1)
        + machinery_all(c.recognized, shim, combos).1 + "} "@
}

/// The code an expansion generates before any reflexive impl: the
/// re-emitted source trait (local form), the documented shim trait with the
/// forwarded declarations and the hidden machinery, the blanket impl, the
/// bridge impls, and the mount macro.
pub open spec fn shim_code(
    input: ItemTrait,
    shim: Seq<char>,
    src: Seq<char>,
    src_doc: Seq<char>,
    reemit: bool,
    bounds: Seq<Bound>,
    c: ClassifiedSpec,
    f: Features,
    ms: (Seq<Seq<char>>, Seq<Seq<char>>, Seq<(Seq<char>, Seq<char>)>),
    combos: Seq<(Seq<char>, Seq<char>)>,
) -> Seq<char> {
    (if reemit {
        clean_spec(input, shim) + " "@
    } else {
        Seq::empty()
    }) + trait_part(input, shim, src_doc, bounds, c, f, ms, combos) + impl_part(
        shim,
        src,
        bounds,
        c,
        ms,
        combos,
    ) + machinery_all(c.recognized, shim, combos).2 + mount_macro_spec(
        shim,
        src,
        placeable(entries_spec(ObjectForm::Bare, shim, input.items@, reemit)),
        placeable(entries_spec(ObjectForm::Boxed, shim, input.items@, reemit)),
    )
}

// ---------------------------------------------------------------------------
// The reflexive invocations.

/// The mount-macro arm an object form is stamped through.
pub open spec fn form_tag(k: ObjectForm) -> Seq<char> {
    match k {
        ObjectForm::Bare => "bare"@,
        ObjectForm::Boxed => "boxed"@,
    }
}

/// One invocation of the shim's mount macro, stamping the source trait onto
/// the shim's own object in form `k` carrying `markers`.
pub open spec fn invocation(shim: Seq<char>, k: ObjectForm, markers: Seq<char>) -> Seq<char> {
    shim + "! { @"@ + form_tag(k) + " "@ + object_ty(k, shim, markers) + " } "@
}

/// The invocations of one form, one per marker combination.
pub open spec fn invocations(shim: Seq<char>, k: ObjectForm, combos: Seq<(Seq<char>, Seq<char>)>) -> Seq<char> {
    concat(combos.map_values(|c: (Seq<char>, Seq<char>)| invocation(shim, k, c.1)))
}

/// The reflexive invocations of the first `n` requested forms, and the
/// errors of the requested forms that cannot be placed, in request order.
pub open spec fn reflexive_prefix(
    shim: Seq<char>,
    kinds: Seq<ObjectForm>,
    combos: Seq<(Seq<char>, Seq<char>)>,
    bare: Result<Seq<Seq<char>>, Seq<(Site, Seq<char>)>>,
    boxed: Result<Seq<Seq<char>>, Seq<(Site, Seq<char>)>>,
    n: nat,
) -> (Seq<char>, Seq<(Site, Seq<char>)>)
    decreases n,
{
    if n == 0 || n > kinds.len() {
        (Seq::empty(), Seq::empty())
    } else {
        let prev = reflexive_prefix(shim, kinds, combos, bare, boxed, (n - 1) as nat);
        let k = kinds[n - 1];
        match (if k == ObjectForm::Bare {
            bare
        } else {
            boxed
        }) {
            Ok(_) => (prev.0 + invocations(shim, k, combos), prev.1),
            Err(errs) => (prev.0, prev.1 + errs),
        }
    }
}

fn invocations_exec(shim: &str, k: ObjectForm, combos: &Vec<MarkerCombo>) -> (r: String)
    ensures
        r@ == invocations(shim@, k, combos_view(combos@)),
{
    let ghost cs = combos_view(combos@);
    let mut out = String::new();
    let mut i: usize = 0;
    while i < combos.len()
        invariant
            i <= combos.len(),
            cs == combos_view(combos@),
            out@ == invocations(shim@, k, cs.take(i as int)),
        decreases combos.len() - i,
    {
        let self_ty = k.ty(shim, combos[i].markers.as_str());
        let mut one = shim.to_owned();
        push(&mut one, "! { @");
        match k {
            ObjectForm::Bare => push(&mut one, "bare"),
            ObjectForm::Boxed => push(&mut one, "boxed"),
        }
        push(&mut one, " ");
        push(&mut one, self_ty.as_str());
        push(&mut one, " } ");
        assert(one@ =~= invocation(shim@, k, cs[i as int].1));
        assert(cs.take(i + 1).map_values(|c: (Seq<char>, Seq<char>)| invocation(shim@, k, c.1))
            =~= cs.take(i as int).map_values(
            |c: (Seq<char>, Seq<char>)| invocation(shim@, k, c.1),
        ).push(one@));
        proof {
            crate::render::lemma_concat_push(
                cs.take(i as int).map_values(|c: (Seq<char>, Seq<char>)| invocation(shim@, k, c.1)),
                one@,
            );
        }
        push(&mut out, one.as_str());
        i += 1;
    }
    assert(cs.take(combos.len() as int) =~= cs);
    out
}

// ---------------------------------------------------------------------------
// The whole expansion.

/// What the shim attributes expand to. The checks run in order and the first
/// failure stops the expansion: a generic source trait, a rejected bound, a
/// `boxed` builder on a reflexive shim with auto-trait markers, a malformed
/// or misplaced helper attribute, a helper a method cannot honor. Otherwise
/// the shim is generated; when a requested reflexive form cannot be placed,
/// its errors are reported and the reflexive impls are left out.
pub open spec fn expand_spec(
    shim: Seq<char>,
    bounds: Seq<Bound>,
    input: ItemTrait,
    src: Seq<char>,
    src_doc: Seq<char>,
    reemit: bool,
    reflexive: Seq<ObjectForm>,
    f: Features,
) -> (Seq<char>, Seq<(Site, Seq<char>)>) {
    let c = classify_all(bounds);
    if input.generics@.len() > 0 {
        failed(Site::TraitGeneric, "dyn_shim does not support generic source traits"@)
    } else if c.rejected.len() > 0 {
        failed(Site::Bound(c.rejected[0].0), rejected_message(c.rejected[0].1))
    } else if reflexive.len() > 0 && c.autos.len() > 0 && first_boxed_from(input.items@, 0) is Some {
        failed(
            Site::MethodIdent(first_boxed_from(input.items@, 0)->Some_0 as usize),
            msg_boxed_markers(),
        )
    } else {
        match attr_error_from(input.items@, 0) {
            Some((site, m)) => failed(site, m),
            None => match methods_prefix(input.items@, shim, src, reemit, input.items@.len()) {
                Err((site, m)) => failed(site, m),
                Ok(ms) => {
                    let combos = combos_needed(c, reflexive);
                    let code = shim_code(input, shim, src, src_doc, reemit, bounds, c, f, ms, combos);
                    let (toks, errs) = reflexive_prefix(
                        shim,
                        reflexive,
                        combos,
                        entries_spec(ObjectForm::Bare, shim, input.items@, reemit),
                        entries_spec(ObjectForm::Boxed, shim, input.items@, reemit),
                        reflexive.len(),
                    );
                    if errs.len() == 0 {
                        (code + toks, Seq::empty())
                    } else {
                        (code, errs)
                    }
                },
            },
        }
    }
}

fn bound_texts_exec(bounds: &Vec<Bound>, idx: &Vec<usize>) -> (r: Vec<String>)
    requires
        forall|j: int| 0 <= j < idx@.len() ==> #[trigger] idx@[j] < bounds@.len(),
    ensures
        strs(r@) == bound_texts(bounds@, idx@),
{
    let mut out: Vec<String> = Vec::new();
    let mut i: usize = 0;
    while i < idx.len()
        invariant
            i <= idx.len(),
            forall|j: int| 0 <= j < idx@.len() ==> #[trigger] idx@[j] < bounds@.len(),
            strs(out@) == bound_texts(bounds@, idx@.take(i as int)),
        decreases idx.len() - i,
    {
        let b = idx[i];
        assert(idx@[i as int] < bounds@.len());
        let ghost before = out@;
        let t = bounds[b].text.clone();
        out.push(t);
        assert(strs(out@) =~= strs(before).push(t@));
        assert(bound_texts(bounds@, idx@.take(i + 1)) =~= bound_texts(bounds@, idx@.take(i as int)).push(
            bounds@[b as int].text@,
        ));
        i += 1;
    }
    assert(idx@.take(idx.len() as int) =~= idx@);
    out
}

fn dyn_supers_exec(rs: &Vec<RecognizedBound>, f: Features) -> (r: Vec<String>)
    ensures
        strs(r@) == dyn_supers(rs@, f),
{
    let mut out: Vec<String> = Vec::new();
    let mut i: usize = 0;
    while i < rs.len()
        invariant
            i <= rs.len(),
            strs(out@) == dyn_supers(rs@.take(i as int), f),
        decreases rs.len() - i,
    {
        assert(rs@.take(i + 1).drop_last() =~= rs@.take(i as int));
        match rs[i].dyn_supertrait(f) {
            Some(t) => {
                let ghost before = out@;
                out.push(t.to_owned());
                assert(strs(out@) =~= strs(before).push(t@));
            },
            None => {},
        }
        i += 1;
    }
    assert(rs@.take(rs.len() as int) =~= rs@);
    out
}

fn recognized_bounds_exec(rs: &Vec<RecognizedBound>) -> (r: String)
    ensures
        r@ == recognized_bounds_text(rs@),
{
    let mut out = String::new();
    let mut i: usize = 0;
    while i < rs.len()
        invariant
            i <= rs.len(),
            out@ == recognized_bounds_text(rs@.take(i as int)),
        decreases rs.len() - i,
    {
        assert(rs@.take(i + 1).map_values(|k: RecognizedBound| " + "@ + impl_bound_text(k)).drop_last()
            =~= rs@.take(i as int).map_values(|k: RecognizedBound| " + "@ + impl_bound_text(k)));
        push(&mut out, " + ");
        push(&mut out, rs[i].impl_bound());
        i += 1;
    }
    assert(rs@.take(rs.len() as int) =~= rs@);
    out
}

fn machinery_exec(rs: &Vec<RecognizedBound>, shim: &str, combos: &Vec<MarkerCombo>) -> (r: (String, String, String))
    ensures
        (r.0@, r.1@, r.2@) == machinery_all(rs@, shim@, combos_view(combos@)),
{
    let ghost cs = combos_view(combos@);
    let mut sigs = String::new();
    let mut impls = String::new();
    let mut after = String::new();
    let mut i: usize = 0;
    while i < rs.len()
        invariant
            i <= rs.len(),
            cs == combos_view(combos@),
            (sigs@, impls@, after@) == machinery_all(rs@.take(i as int), shim@, cs),
        decreases rs.len() - i,
    {
        let m = expand_recognized_bound(rs[i], shim, combos);
        assert(combos@.map_values(|c: MarkerCombo| (c.suffix@, c.markers@)) =~= cs);
        let ghost t = rs@.take(i + 1);
        assert(t.map_values(|k: RecognizedBound| recognized_machinery(k, shim@, cs).0).drop_last()
            =~= rs@.take(i as int).map_values(
            |k: RecognizedBound| recognized_machinery(k, shim@, cs).0,
        ));
        assert(t.map_values(|k: RecognizedBound| recognized_machinery(k, shim@, cs).1).drop_last()
            =~= rs@.take(i as int).map_values(
            |k: RecognizedBound| recognized_machinery(k, shim@, cs).1,
        ));
        assert(t.map_values(|k: RecognizedBound| recognized_machinery(k, shim@, cs).2).drop_last()
            =~= rs@.take(i as int).map_values(
            |k: RecognizedBound| recognized_machinery(k, shim@, cs).2,
        ));
        assert((m.sigs@, m.impls@, m.after@) == recognized_machinery(rs@[i as int], shim@, cs));
        assert(t.last() == rs@[i as int]);
        assert(machinery_all(t, shim@, cs).0 == machinery_all(rs@.take(i as int), shim@, cs).0 + m.sigs@);
        assert(machinery_all(t, shim@, cs).1 == machinery_all(rs@.take(i as int), shim@, cs).1 + m.impls@);
        assert(machinery_all(t, shim@, cs).2 == machinery_all(rs@.take(i as int), shim@, cs).2 + m.after@);
        push(&mut sigs, m.sigs.as_str());
        push(&mut impls, m.impls.as_str());
        push(&mut after, m.after.as_str());
        i += 1;
    }
    assert(rs@.take(rs.len() as int) =~= rs@);
    (sigs, impls, after)
}

fn supers_exec(ss: &Vec<String>) -> (r: String)
    ensures
        r@ == supers_text(strs(ss@)),
{
    if ss.len() == 0 {
        String::new()
    } else {
        let mut out = ": ".to_owned();
        let j = join_strs(ss, " + ");
        push(&mut out, j.as_str());
        out
    }
}

fn plus_bounds_exec(ts: &Vec<String>) -> (r: String)
    ensures
        r@ == plus_bounds(strs(ts@)),
{
    if ts.len() == 0 {
        String::new()
    } else {
        let mut out = " + ".to_owned();
        let j = join_strs(ts, " + ");
        push(&mut out, j.as_str());
        out
    }
}

fn trait_part_exec(
    input: &ItemTrait,
    shim_name: &str,
    source_doc: &str,
    bounds: &Vec<Bound>,
    c: &ClassifiedBounds,
    features: Features,
    ms: &Methods,
    m_sigs: &String,
    ghost_combos: Ghost<Seq<(Seq<char>, Seq<char>)>>,
) -> (r: String)
    requires
        forall|j: int| 0 <= j < c.supertraits@.len() ==> #[trigger] c.supertraits@[j] < bounds@.len(),
        m_sigs@ == machinery_all(c.recognized@, shim_name@, ghost_combos@).0,
    ensures
        r@ == trait_part(
            *input,
            shim_name@,
            source_doc@,
            bounds@,
            c@,
            features,
            (strs(ms.sigs@), strs(ms.impls@), skipped_view(ms.skipped@)),
            ghost_combos@,
        ),
{
    let doc = shim_doc(source_doc, shim_name, &c.recognized, &ms.skipped);
    let mut tr = doc_attrs_text(&doc);
    let passed = bound_texts_exec(bounds, &c.supertraits);
    let mut supers = passed;
    let mut extra = dyn_supers_exec(&c.recognized, features);
    let ghost p0 = strs(supers@);
    let ghost x0 = strs(extra@);
    supers.append(&mut extra);
    assert(strs(supers@) =~= p0 + x0);
    let st = supers_exec(&supers);
    let sigs = spaced_strs(&ms.sigs);
    push(&mut tr, input.vis.as_str());
    push(&mut tr, " trait ");
    push(&mut tr, shim_name);
    push(&mut tr, st.as_str());
    push(&mut tr, " { ");
    push(&mut tr, sigs.as_str());
    push(&mut tr, m_sigs.as_str());
    push(&mut tr, "} ");
    tr
}

fn impl_part_exec(
    shim_name: &str,
    source_ref: &str,
    bounds: &Vec<Bound>,
    c: &ClassifiedBounds,
    ms: &Methods,
    m_impls: &String,
    ghost_combos: Ghost<Seq<(Seq<char>, Seq<char>)>>,
) -> (r: String)
    requires
        forall|j: int| 0 <= j < c.supertraits@.len() ==> #[trigger] c.supertraits@[j] < bounds@.len(),
        m_impls@ == machinery_all(c.recognized@, shim_name@, ghost_combos@).1,
    ensures
        r@ == impl_part(
            shim_name@,
            source_ref@,
            bounds@,
            c@,
            (strs(ms.sigs@), strs(ms.impls@), skipped_view(ms.skipped@)),
            ghost_combos@,
        ),
{
    let passed = bound_texts_exec(bounds, &c.supertraits);
    let pb = plus_bounds_exec(&passed);
    let rb = recognized_bounds_exec(&c.recognized);
    let impls = spaced_strs(&ms.impls);
    let mut im = "impl<__T: ".to_owned();
    push(&mut im, source_ref);
    push(&mut im, pb.as_str());
    push(&mut im, rb.as_str());
    push(&mut im, "> ");
    push(&mut im, shim_name);
    push(&mut im, " for __T { ");
    push(&mut im, impls.as_str());
    push(&mut im, m_impls.as_str());
    push(&mut im, "} ");
    im
}

/// Write the code an expansion generates before any reflexive impl (see
/// [`shim_code`]).
fn shim_code_exec(
    input: &ItemTrait,
    shim_name: &str,
    source_ref: &str,
    source_doc: &str,
    reemit: bool,
    bounds: &Vec<Bound>,
    c: &ClassifiedBounds,
    features: Features,
    ms: &Methods,
    combos: &Vec<MarkerCombo>,
    bare: &Result<Vec<String>, Vec<Diagnostic>>,
    boxed: &Result<Vec<String>, Vec<Diagnostic>>,
) -> (r: String)
    requires
        forall|j: int| 0 <= j < c.supertraits@.len() ==> #[trigger] c.supertraits@[j] < bounds@.len(),
        entries_view(*bare) == entries_spec(ObjectForm::Bare, shim_name@, input.items@, reemit),
        entries_view(*boxed) == entries_spec(ObjectForm::Boxed, shim_name@, input.items@, reemit),
    ensures
        r@ == shim_code(
            *input,
            shim_name@,
            source_ref@,
            source_doc@,
            reemit,
            bounds@,
            c@,
            features,
            (strs(ms.sigs@), strs(ms.impls@), skipped_view(ms.skipped@)),
            combos_view(combos@),
        ),
{
    let mut code = if reemit {
        let mut t = clean_text(input, shim_name);
        push(&mut t, " ");
        t
    } else {
        String::new()
    };
    let (m_sigs, m_impls, m_after) = machinery_exec(&c.recognized, shim_name, combos);
    let tr = trait_part_exec(
        input,
        shim_name,
        source_doc,
        bounds,
        c,
        features,
        ms,
        &m_sigs,
        Ghost(combos_view(combos@)),
    );
    let im = impl_part_exec(
        shim_name,
        source_ref,
        bounds,
        c,
        ms,
        &m_impls,
        Ghost(combos_view(combos@)),
    );
    let mount = build_mount_macro(shim_name, source_ref, bare, boxed);
    assert(placeable(entries_spec(ObjectForm::Bare, shim_name@, input.items@, reemit))
        == crate::reflexive::ok_entries(*bare));
    assert(placeable(entries_spec(ObjectForm::Boxed, shim_name@, input.items@, reemit))
        == crate::reflexive::ok_entries(*boxed));
    push(&mut code, tr.as_str());
    push(&mut code, im.as_str());
    push(&mut code, m_after.as_str());
    push(&mut code, mount.as_str());
    code
}

/// Write the reflexive invocations of the requested forms, or collect the
/// errors of the requested forms that cannot be placed.
fn reflexive_tokens(
    shim_name: &str,
    reflexive: &Vec<ObjectForm>,
    combos: &Vec<MarkerCombo>,
    bare: &Result<Vec<String>, Vec<Diagnostic>>,
    boxed: &Result<Vec<String>, Vec<Diagnostic>>,
) -> (r: (String, Vec<Diagnostic>))
    ensures
        (r.0@, diags(r.1@)) == reflexive_prefix(
            shim_name@,
            reflexive@,
            combos_view(combos@),
            entries_view(*bare),
            entries_view(*boxed),
            reflexive@.len(),
        ),
{
    let mut toks = String::new();
    let mut errors: Vec<Diagnostic> = Vec::new();
    assert(diags(errors@) =~= Seq::<(Site, Seq<char>)>::empty());
    let mut i: usize = 0;
    while i < reflexive.len()
        invariant
            i <= reflexive.len(),
            (toks@, diags(errors@)) == reflexive_prefix(
                shim_name@,
                reflexive@,
                combos_view(combos@),
                entries_view(*bare),
                entries_view(*boxed),
                i as nat,
            ),
        decreases reflexive.len() - i,
    {
        let k = reflexive[i];
        let entries = if k == ObjectForm::Bare {
            bare
        } else {
            boxed
        };
        match entries {
            Ok(_) => {
                let t = invocations_exec(shim_name, k, combos);
                push(&mut toks, t.as_str());
            },
            Err(errs) => {
                let ghost before = errors@;
                let mut j: usize = 0;
                while j < errs.len()
                    invariant
                        j <= errs.len(),
                        diags(errors@) == diags(before) + diags(errs@.take(j as int)),
                    decreases errs.len() - j,
                {
                    let d = Diagnostic { site: errs[j].site, message: errs[j].message.clone() };
                    let ghost b2 = errors@;
                    errors.push(d);
                    assert(diags(errors@) =~= diags(b2).push((d.site, d.message@)));
                    assert(diags(errs@.take(j + 1)) =~= diags(errs@.take(j as int)).push(
                        (d.site, d.message@),
                    ));
                    j += 1;
                }
                assert(errs@.take(errs.len() as int) =~= errs@);
            },
        }
        i += 1;
    }
    (toks, errors)
}

/// Shared expansion of [`crate::dyn_shim`] and [`crate::dyn_shim_foreign`].
/// `input` is the annotated trait, read for the shim's visibility, generics,
/// and method signatures (and, for the local form, re-emitted). `source_ref`
/// names the source trait in the blanket impl and the forwarding calls;
/// `source_doc` is its `::`-joined spelling for doc links. `reemit` is true
/// for the local form, which owns the source trait and re-emits it with a
/// doc note, and false for the foreign form, whose annotated trait is the
/// shim itself. `reflexive` lists the object forms that also get
/// `impl SourceTrait for <shim object>`.
pub fn expand(
    shim_name: &str,
    bounds: &Vec<Bound>,
    input: &ItemTrait,
    source_ref: &str,
    source_doc: &str,
    reemit: bool,
    reflexive: &Vec<ObjectForm>,
    features: Features,
) -> (r: Expansion)
    requires
        bounds.len() < usize::MAX,
    ensures
        expansion_view(r) == expand_spec(
            shim_name@,
            bounds@,
            *input,
            source_ref@,
            source_doc@,
            reemit,
            reflexive@,
            features,
        ),
{
    match crate::emit::reject_generics(input, "dyn_shim does not support generic source traits") {
        Some(d) => return fail(d.site, d.message),
        None => {},
    }
    let c = ClassifiedBounds::classify(bounds);
    proof {
        lemma_classified_indices(bounds@, bounds@.len());
        lemma_classified_distinct(bounds@, bounds@.len());
        lemma_autos_at_most_five(c.autos@);
        assert forall|j: int| 0 <= j < c.supertraits@.len() implies #[trigger] c.supertraits@[j]
            < bounds@.len() by {
            assert(c.supertraits@[j] == crate::bounds::classify_prefix(
                bounds@,
                bounds@.len(),
            ).supertraits[j]);
        }
    }
    if c.rejected.len() > 0 {
        let (i, k) = c.rejected[0];
        return fail(Site::Bound(i), k.message().to_owned());
    }
    if reflexive.len() > 0 && c.autos.len() > 0 {
        match first_boxed(&input.items) {
            Some(i) => return fail(
                Site::MethodIdent(i),
                "#[dyn_shim(boxed)] does not yet support auto-trait markers on a reflexive shim: the boxed return `Box<dyn Shim>` cannot carry `+ Send` and similar".to_owned(),
            ),
            None => {},
        }
    }
    match check_helper_attrs(&input.items) {
        Some(d) => return fail(d.site, d.message),
        None => {},
    }
    let ms = match shim_methods(&input.items, shim_name, source_ref, reemit) {
        Ok(ms) => ms,
        Err(d) => return fail(d.site, d.message),
    };
    let combos: Vec<MarkerCombo> = if c.recognized.len() == 0 && reflexive.len() == 0 {
        let v: Vec<MarkerCombo> = Vec::new();
        assert(combos_view(v@) =~= Seq::<(Seq<char>, Seq<char>)>::empty());
        v
    } else {
        MarkerCombo::all(&c.autos)
    };
    assert(combos_view(combos@) == combos_needed(c@, reflexive@));
    let bare = reflexive_entries(ObjectForm::Bare, shim_name, &input.items, reemit);
    let boxed = reflexive_entries(ObjectForm::Boxed, shim_name, &input.items, reemit);
    let mut code = shim_code_exec(
        input,
        shim_name,
        source_ref,
        source_doc,
        reemit,
        bounds,
        &c,
        features,
        &ms,
        &combos,
        &bare,
        &boxed,
    );
    let (toks, errors) = reflexive_tokens(shim_name, reflexive, &combos, &bare, &boxed);
    if errors.len() == 0 {
        push(&mut code, toks.as_str());
    }
    Expansion { code, errors }
}

} // verus!
