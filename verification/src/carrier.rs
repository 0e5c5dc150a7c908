//! Carriers: a recognized std trait exposed as a standalone shim
//! (`dyn_shim_recognized`), and carriers mounted onto the trait objects of a
//! dyn-compatible trait (`trait_object`).

use vstd::prelude::*;
use crate::bounds::{
    classify_all, classify_bound, combos_spec, combos_view, doc_line_text, impl_bound_text,
    lemma_autos_at_most_five, lemma_classified_distinct, lemma_classified_indices, plain_path,
    push_new, AutoTrait, Classified, ClassifiedBounds, MarkerCombo, RecognizedBound,
};
use crate::emit::{
    attrs_texts, doc_attrs, doc_attrs_text, inherits, last_ident, msg_missing_carrier,
    require_carrier,
};
use crate::expand::{expansion_view, fail, failed, Expansion};
use crate::forward::{
    expand_recognized_bound, mount_arm, mount_arm_text, recognized_machinery, spaced,
    spaced_strs,
};
use crate::model::{Bound, Diagnostic, ItemTrait, Path, Site};
use crate::render::{concat, strs};
use crate::text::push;

verus! {

// ---------------------------------------------------------------------------
// A recognized trait as a standalone shim.

/// The message for a bound that is neither recognized nor an auto trait.
pub open spec fn msg_expects_recognized() -> Seq<char> {
    "dyn_shim_recognized expects a recognized trait (`Clone` or `Hash`), optionally followed by auto-trait markers"@
}

/// The standalone shim for recognized trait `k`: the annotated trait's
/// attributes and a doc line naming the capability, the shim trait holding
/// the hidden machinery, its blanket impl for every implementor of `k`, the
/// bridge impls, and the mount macro that backs `#[trait_object(Shim)]`.
pub open spec fn recognized_code(input: ItemTrait, k: RecognizedBound, combos: Seq<(Seq<char>, Seq<char>)>) -> Seq<char> {
    let shim = input.ident@;
    let m = recognized_machinery(k, shim, combos);
    spaced(attrs_texts(input.attrs@)) + doc_attrs(seq![Seq::empty(), doc_line_text(k, shim)])
        + input.vis@ + " trait "@ + shim + " { "@ + m.0 + "} "@ + "impl<__T: "@ + impl_bound_text(k)
        + "> "@ + shim + " for __T { "@ + m.1 + "} "@ + m.2
        + "#[allow(non_local_definitions)] #[macro_export] #[doc(hidden)] macro_rules! "@ + shim
        + " { (@mount ($principal:path) ($($marker:tt)*)) => { "@ + mount_arm_text(k, shim)
        + "}; } "@
}

/// What `#[dyn_shim_recognized(...)]` expands to. The annotated trait must be
/// non-generic with no items or supertraits of its own; the attribute must
/// list exactly one recognized trait, optionally followed by auto-trait
/// markers, which select the covered `dyn` variants.
pub open spec fn expand_recognized_spec(input: ItemTrait, bounds: Seq<Bound>) -> (Seq<char>, Seq<(Site, Seq<char>)>) {
    let c = classify_all(bounds);
    if input.generics@.len() > 0 {
        failed(Site::TraitGeneric, "dyn_shim_recognized does not support generic shims"@)
    } else if input.items@.len() > 0 {
        failed(
            Site::Item(0),
            "a dyn_shim_recognized shim has no items of its own; its contents are generated from the recognized trait"@,
        )
    } else if input.supertraits@.len() > 0 {
        failed(
            Site::Supertrait(0),
            "list auto-trait markers in the attribute (`dyn_shim_recognized(Clone + Send)`), not as supertraits of the shim"@,
        )
    } else if c.rejected.len() > 0 {
        failed(Site::Bound(c.rejected[0].0), msg_expects_recognized())
    } else if c.passthrough.len() > 0 {
        failed(Site::Bound(c.passthrough[0]), msg_expects_recognized())
    } else if c.recognized.len() > 1 {
        failed(Site::Bounds, "expected a single recognized trait (`Clone` or `Hash`)"@)
    } else if c.recognized.len() == 0 {
        failed(Site::Bounds, "dyn_shim_recognized expects a recognized trait (`Clone` or `Hash`)"@)
    } else {
        (recognized_code(input, c.recognized[0], combos_spec(c.autos)), Seq::empty())
    }
}

/// Expansion for `dyn_shim_recognized`: emit a standalone shim whose only
/// contents are a recognized std trait's generated machinery. The annotated
/// trait supplies the shim's name and visibility.
pub fn expand_recognized(input: &ItemTrait, bounds: &Vec<Bound>) -> (r: Expansion)
    requires
        bounds.len() < usize::MAX,
    ensures
        expansion_view(r) == expand_recognized_spec(*input, bounds@),
{
    match crate::emit::reject_generics(input, "dyn_shim_recognized does not support generic shims") {
        Some(d) => return fail(d.site, d.message),
        None => {},
    }
    if input.items.len() > 0 {
        return fail(
            Site::Item(0),
            "a dyn_shim_recognized shim has no items of its own; its contents are generated from the recognized trait".to_owned(),
        );
    }
    if input.supertraits.len() > 0 {
        return fail(
            Site::Supertrait(0),
            "list auto-trait markers in the attribute (`dyn_shim_recognized(Clone + Send)`), not as supertraits of the shim".to_owned(),
        );
    }
    let c = ClassifiedBounds::classify(bounds);
    proof {
        lemma_classified_distinct(bounds@, bounds@.len());
        lemma_autos_at_most_five(c.autos@);
    }
    if c.rejected.len() > 0 {
        return fail(
            Site::Bound(c.rejected[0].0),
            "dyn_shim_recognized expects a recognized trait (`Clone` or `Hash`), optionally followed by auto-trait markers".to_owned(),
        );
    }
    if c.passthrough.len() > 0 {
        return fail(
            Site::Bound(c.passthrough[0]),
            "dyn_shim_recognized expects a recognized trait (`Clone` or `Hash`), optionally followed by auto-trait markers".to_owned(),
        );
    }
    if c.recognized.len() > 1 {
        return fail(
            Site::Bounds,
            "expected a single recognized trait (`Clone` or `Hash`)".to_owned(),
        );
    }
    if c.recognized.len() == 0 {
        return fail(
            Site::Bounds,
            "dyn_shim_recognized expects a recognized trait (`Clone` or `Hash`)".to_owned(),
        );
    }
    let k = c.recognized[0];
    let shim = input.ident.as_str();
    let combos = MarkerCombo::all(&c.autos);
    let m = expand_recognized_bound(k, shim, &combos);
    assert(combos@.map_values(|c: MarkerCombo| (c.suffix@, c.markers@)) =~= combos_view(combos@));

    let mut attrs: Vec<String> = Vec::new();
    let mut i: usize = 0;
    while i < input.attrs.len()
        invariant
            i <= input.attrs.len(),
            strs(attrs@) == attrs_texts(input.attrs@).take(i as int),
        decreases input.attrs.len() - i,
    {
        attrs.push(input.attrs[i].text.clone());
        assert(strs(attrs@) =~= attrs_texts(input.attrs@).take(i + 1));
        i += 1;
    }
    assert(strs(attrs@) =~= attrs_texts(input.attrs@));
    let mut lines: Vec<String> = Vec::new();
    lines.push(String::new());
    lines.push(k.doc_line(shim));
    assert(strs(lines@) =~= seq![Seq::<char>::empty(), doc_line_text(k, shim@)]);

    let mut code = spaced_strs(&attrs);
    let docs = doc_attrs_text(&lines);
    push(&mut code, docs.as_str());
    push(&mut code, input.vis.as_str());
    push(&mut code, " trait ");
    push(&mut code, shim);
    push(&mut code, " { ");
    push(&mut code, m.sigs.as_str());
    push(&mut code, "} ");
    push(&mut code, "impl<__T: ");
    push(&mut code, k.impl_bound());
    push(&mut code, "> ");
    push(&mut code, shim);
    push(&mut code, " for __T { ");
    push(&mut code, m.impls.as_str());
    push(&mut code, "} ");
    push(&mut code, m.after.as_str());
    push(&mut code, "#[allow(non_local_definitions)] #[macro_export] #[doc(hidden)] macro_rules! ");
    push(&mut code, shim);
    push(&mut code, " { (@mount ($principal:path) ($($marker:tt)*)) => { ");
    let arm = mount_arm(k, shim);
    push(&mut code, arm.as_str());
    push(&mut code, "}; } ");
    assert(code@ =~= recognized_code(*input, k, combos_spec(c.autos@)));
    Expansion { code, errors: Vec::new() }
}

// ---------------------------------------------------------------------------
// Mounting carriers onto a trait's objects.

/// The message for a recognized capability named where a carrier is
/// expected.
pub open spec fn msg_capability() -> Seq<char> {
    "name the carrier trait, not the capability: write `DynClone` / `DynHash` (gated on the `dyn_clone` / `dyn_hash` feature) and inherit it as a supertrait"@
}

/// The message for a carrier that is not a plain trait path.
pub open spec fn msg_not_plain() -> Seq<char> {
    "a carrier must be a plain trait path (no `?`, no higher-ranked binder)"@
}

/// The positions of the carriers and the auto-trait markers among the first
/// `n` bounds of a `trait_object` list, or the first bound that is neither.
pub open spec fn carriers_prefix(bs: Seq<Bound>, n: nat) -> Result<(Seq<usize>, Seq<AutoTrait>), (Site, Seq<char>)>
    decreases n,
{
    if n == 0 || n > bs.len() {
        Ok((Seq::empty(), Seq::empty()))
    } else {
        match carriers_prefix(bs, (n - 1) as nat) {
            Err(e) => Err(e),
            Ok((carriers, autos)) => match classify_bound(bs[n - 1]) {
                Classified::Auto(a) => Ok((carriers, push_new(autos, a))),
                Classified::Recognized(_) => Err((Site::Bound((n - 1) as usize), msg_capability())),
                _ => match plain_path(bs[n - 1]) {
                    None => Err((Site::Bound((n - 1) as usize), msg_not_plain())),
                    Some(p) => Ok((carriers.push((n - 1) as usize), autos)),
                },
            },
        }
    }
}

/// The trait path of the carrier bound at position `i`.
pub open spec fn carrier_path(bs: Seq<Bound>, i: usize) -> Path {
    plain_path(bs[i as int])->Some_0
}

/// The name of the first carrier from `i` on that the trait does not
/// inherit.
pub open spec fn missing_carrier_from(input: ItemTrait, bs: Seq<Bound>, carriers: Seq<usize>, i: nat) -> Option<Seq<char>>
    decreases carriers.len() - i,
{
    if i >= carriers.len() {
        None
    } else if !inherits(input, last_ident(carrier_path(bs, carriers[i as int]))) {
        Some(last_ident(carrier_path(bs, carriers[i as int])))
    } else {
        missing_carrier_from(input, bs, carriers, i + 1)
    }
}

/// One invocation of a carrier's mount macro onto `dyn principal markers`.
pub open spec fn mount_call(carrier: Path, principal: Seq<char>, markers: Seq<char>) -> Seq<char> {
    carrier.text@ + "! { @mount ("@ + principal + ") ("@ + markers + ") } "@
}

/// The invocations of one carrier's mount macro, one per marker combination.
pub open spec fn carrier_mounts(carrier: Path, principal: Seq<char>, combos: Seq<(Seq<char>, Seq<char>)>) -> Seq<char> {
    concat(combos.map_values(|c: (Seq<char>, Seq<char>)| mount_call(carrier, principal, c.1)))
}

/// The invocations of every carrier's mount macro.
pub open spec fn all_mounts(bs: Seq<Bound>, carriers: Seq<usize>, principal: Seq<char>, combos: Seq<(Seq<char>, Seq<char>)>) -> Seq<char> {
    concat(carriers.map_values(|i: usize| carrier_mounts(carrier_path(bs, i), principal, combos)))
}

/// The message for a list without a carrier.
pub open spec fn msg_no_carrier() -> Seq<char> {
    "trait_object expects at least one carrier trait to mount (`DynClone`, `DynHash`, or a `#[dyn_shim]` shim), optionally followed by auto-trait markers"@
}

/// What `#[trait_object(...)]` expands to: the annotated trait unchanged,
/// followed by one invocation of each listed carrier's mount macro per
/// marker combination. The trait must be non-generic, the list must name at
/// least one carrier (a plain trait path, not a bare `Clone` or `Hash`), and
/// the trait must inherit every carrier it names.
pub open spec fn expand_trait_object_spec(input: ItemTrait, bounds: Seq<Bound>) -> (Seq<char>, Seq<(Site, Seq<char>)>) {
    if input.generics@.len() > 0 {
        failed(Site::TraitGeneric, "trait_object does not support generic traits"@)
    } else {
        match carriers_prefix(bounds, bounds.len()) {
            Err((site, m)) => failed(site, m),
            Ok((carriers, autos)) => if carriers.len() == 0 {
                failed(Site::Bounds, msg_no_carrier())
            } else {
                match missing_carrier_from(input, bounds, carriers, 0) {
                    Some(name) => failed(Site::TraitIdent, msg_missing_carrier(name, input.ident@)),
                    None => (
                        input.text@ + " "@ + all_mounts(
                            bounds,
                            carriers,
                            input.ident@,
                            combos_spec(autos),
                        ),
                        Seq::empty(),
                    ),
                }
            },
        }
    }
}

proof fn lemma_carriers_sticky(bs: Seq<Bound>, n: nat)
    requires
        n <= bs.len(),
        carriers_prefix(bs, n) is Err,
    ensures
        carriers_prefix(bs, bs.len()) == carriers_prefix(bs, n),
    decreases bs.len() - n,
{
    if n < bs.len() {
        lemma_carriers_sticky(bs, n + 1);
    }
}

/// Every carrier position of a successful scan points at a plain trait
/// bound of the list.
pub open spec fn carriers_wf(bs: Seq<Bound>, carriers: Seq<usize>) -> bool {
    forall|j: int|
        0 <= j < carriers.len() ==> (#[trigger] carriers[j] as int) < bs.len() && plain_path(
            bs[carriers[j] as int],
        ) is Some
}

proof fn lemma_carrier_autos_distinct(bs: Seq<Bound>, n: nat)
    requires
        carriers_prefix(bs, n) is Ok,
    ensures
        carriers_prefix(bs, n)->Ok_0.1.no_duplicates(),
    decreases n,
{
    if n > 0 && n <= bs.len() {
        lemma_carrier_autos_distinct(bs, (n - 1) as nat);
        let prev = carriers_prefix(bs, (n - 1) as nat)->Ok_0;
        match classify_bound(bs[n - 1]) {
            Classified::Auto(a) => {
                let s = prev.1;
                if !s.contains(a) {
                    let t = s.push(a);
                    assert forall|i: int, j: int|
                        0 <= i < t.len() && 0 <= j < t.len() && i != j implies t[i] != t[j] by {
                        if i < s.len() && j < s.len() {
                            assert(t[i] == s[i] && t[j] == s[j]);
                        } else if i == s.len() {
                            assert(t[j] == s[j]);
                        } else {
                            assert(t[i] == s[i]);
                        }
                    }
                }
            },
            _ => {},
        }
    }
}

fn contains_auto(v: &Vec<AutoTrait>, a: AutoTrait) -> (r: bool)
    ensures
        r == v@.contains(a),
{
    let mut i: usize = 0;
    while i < v.len()
        invariant
            i <= v.len(),
            forall|j: int| 0 <= j < i ==> v@[j] != a,
        decreases v.len() - i,
    {
        if v[i] == a {
            assert(v@[i as int] == a);
            return true;
        }
        i += 1;
    }
    false
}

fn mounts_exec(bounds: &Vec<Bound>, carriers: &Vec<usize>, principal: &str, combos: &Vec<MarkerCombo>) -> (r: String)
    requires
        carriers_wf(bounds@, carriers@),
    ensures
        r@ == all_mounts(bounds@, carriers@, principal@, combos_view(combos@)),
{
    let ghost cs = combos_view(combos@);
    let mut out = String::new();
    let mut i: usize = 0;
    while i < carriers.len()
        invariant
            i <= carriers.len(),
            carriers_wf(bounds@, carriers@),
            cs == combos_view(combos@),
            out@ == all_mounts(bounds@, carriers@.take(i as int), principal@, cs),
        decreases carriers.len() - i,
    {
        let idx = carriers[i];
        assert((carriers@[i as int] as int) < bounds@.len());
        let carrier = match crate::bounds::plain_trait_bound(&bounds[idx]) {
            Some(p) => p,
            None => {
                assert(false);
                return out;
            },
        };
        assert(*carrier == carrier_path(bounds@, idx));
        let mut one = String::new();
        let mut j: usize = 0;
        while j < combos.len()
            invariant
                j <= combos.len(),
                cs == combos_view(combos@),
                one@ == carrier_mounts(*carrier, principal@, cs.take(j as int)),
            decreases combos.len() - j,
        {
            let mut call = carrier.text.clone();
            push(&mut call, "! { @mount (");
            push(&mut call, principal);
            push(&mut call, ") (");
            push(&mut call, combos[j].markers.as_str());
            push(&mut call, ") } ");
            assert(call@ =~= mount_call(*carrier, principal@, cs[j as int].1));
            assert(cs.take(j + 1).map_values(
                |c: (Seq<char>, Seq<char>)| mount_call(*carrier, principal@, c.1),
            ) =~= cs.take(j as int).map_values(
                |c: (Seq<char>, Seq<char>)| mount_call(*carrier, principal@, c.1),
            ).push(call@));
            proof {
                crate::render::lemma_concat_push(
                    cs.take(j as int).map_values(
                        |c: (Seq<char>, Seq<char>)| mount_call(*carrier, principal@, c.1),
                    ),
                    call@,
                );
            }
            push(&mut one, call.as_str());
            j += 1;
        }
        assert(cs.take(combos.len() as int) =~= cs);
        assert(carriers@.take(i + 1).map_values(
            |k: usize| carrier_mounts(carrier_path(bounds@, k), principal@, cs),
        ) =~= carriers@.take(i as int).map_values(
            |k: usize| carrier_mounts(carrier_path(bounds@, k), principal@, cs),
        ).push(one@));
        proof {
            crate::render::lemma_concat_push(
                carriers@.take(i as int).map_values(
                    |k: usize| carrier_mounts(carrier_path(bounds@, k), principal@, cs),
                ),
                one@,
            );
        }
        push(&mut out, one.as_str());
        i += 1;
    }
    assert(carriers@.take(carriers.len() as int) =~= carriers@);
    out
}

/// Expansion for `trait_object`: re-emit the annotated trait unchanged and
/// mount each listed carrier onto its `dyn` objects by invoking that
/// carrier's mount macro. Auto traits in the list are markers selecting the
/// covered `dyn` variants.
pub fn expand_trait_object(input: &ItemTrait, bounds: &Vec<Bound>) -> (r: Expansion)
    ensures
        expansion_view(r) == expand_trait_object_spec(*input, bounds@),
{
    match crate::emit::reject_generics(input, "trait_object does not support generic traits") {
        Some(d) => return fail(d.site, d.message),
        None => {},
    }
    let mut carriers: Vec<usize> = Vec::new();
    let mut autos: Vec<AutoTrait> = Vec::new();
    let mut i: usize = 0;
    while i < bounds.len()
        invariant
            i <= bounds.len(),
            carriers_wf(bounds@, carriers@),
            carriers_prefix(bounds@, i as nat) == Ok::<
                (Seq<usize>, Seq<AutoTrait>),
                (Site, Seq<char>),
            >((carriers@, autos@)),
        decreases bounds.len() - i,
    {
        match Classified::of(&bounds[i]) {
            Classified::Auto(a) => {
                if !contains_auto(&autos, a) {
                    autos.push(a);
                }
            },
            Classified::Recognized(_) => {
                proof {
                    lemma_carriers_sticky(bounds@, (i + 1) as nat);
                }
                return fail(
                    Site::Bound(i),
                    "name the carrier trait, not the capability: write `DynClone` / `DynHash` (gated on the `dyn_clone` / `dyn_hash` feature) and inherit it as a supertrait".to_owned(),
                );
            },
            _ => match crate::bounds::plain_trait_bound(&bounds[i]) {
                None => {
                    proof {
                        lemma_carriers_sticky(bounds@, (i + 1) as nat);
                    }
                    return fail(
                        Site::Bound(i),
                        "a carrier must be a plain trait path (no `?`, no higher-ranked binder)".to_owned(),
                    );
                },
                Some(_) => {
                    carriers.push(i);
                },
            },
        }
        i += 1;
    }
    if carriers.len() == 0 {
        return fail(
            Site::Bounds,
            "trait_object expects at least one carrier trait to mount (`DynClone`, `DynHash`, or a `#[dyn_shim]` shim), optionally followed by auto-trait markers".to_owned(),
        );
    }
    let mut k: usize = 0;
    while k < carriers.len()
        invariant
            k <= carriers.len(),
            carriers_wf(bounds@, carriers@),
            missing_carrier_from(*input, bounds@, carriers@, 0) == missing_carrier_from(
                *input,
                bounds@,
                carriers@,
                k as nat,
            ),
        decreases carriers.len() - k,
    {
        let idx = carriers[k];
        assert((carriers@[k as int] as int) < bounds@.len());
        match crate::bounds::plain_trait_bound(&bounds[idx]) {
            Some(p) => {
                match require_carrier(input, p) {
                    Err(d) => return fail(d.site, d.message),
                    Ok(()) => {},
                }
            },
            None => {},
        }
        k += 1;
    }
    proof {
        lemma_carrier_autos_distinct(bounds@, bounds@.len());
        lemma_autos_at_most_five(autos@);
    }
    let combos = MarkerCombo::all(&autos);
    let mounts = mounts_exec(bounds, &carriers, input.ident.as_str(), &combos);
    let mut code = input.text.clone();
    push(&mut code, " ");
    push(&mut code, mounts.as_str());
    Expansion { code, errors: Vec::new() }
}

} // verus!
