//! Forwarding methods: the shim's signature for a source method and the
//! blanket impl's body that calls the source method, plus the hidden
//! machinery of the recognized `Clone` and `Hash` bounds.

use vstd::prelude::*;
use crate::bounds::{object_ty, MarkerCombo, ObjectForm};
use crate::erase::{
    arg_names, attr_texts, cfg_gates, erase_check, erase_generic, erased_args, erased_edit,
    erased_preamble, rename_args, select_attrs,
};
use crate::model::{ty_is_bare_self, FnArg, Signature, Site, TraitItemFn};
use crate::render::{concat, edit_fits, n_after_first, render_sig, sig_text, strs, SigEdit, SigEditSpec};
use crate::select::{
    has_type_or_const_generics, helper_of, receiver_kind, sig_has_type_or_const_generics,
    skip_reason, Helper, ReceiverKind,
};
use crate::text::push;
use crate::visit::{self_or_impl, ty_finds, type_finds};

verus! {

// ---------------------------------------------------------------------------
// Small pieces of text.

/// Each text followed by a space, one after another.
pub open spec fn spaced(texts: Seq<Seq<char>>) -> Seq<char> {
    concat(texts.map_values(|t: Seq<char>| t + " "@))
}

/// Each text preceded by `, `, one after another.
pub open spec fn comma_args(texts: Seq<Seq<char>>) -> Seq<char> {
    concat(texts.map_values(|t: Seq<char>| ", "@ + t))
}

/// Write each string followed by a space.
pub fn spaced_strs(parts: &Vec<String>) -> (r: String)
    ensures
        r@ == spaced(strs(parts@)),
{
    let mut out = String::new();
    let mut i: usize = 0;
    while i < parts.len()
        invariant
            i <= parts.len(),
            out@ == spaced(strs(parts@).take(i as int)),
        decreases parts.len() - i,
    {
        assert(strs(parts@).take(i + 1).map_values(|t: Seq<char>| t + " "@).drop_last()
            =~= strs(parts@).take(i as int).map_values(|t: Seq<char>| t + " "@));
        push(&mut out, parts[i].as_str());
        push(&mut out, " ");
        i += 1;
    }
    assert(strs(parts@).take(parts.len() as int) =~= strs(parts@));
    out
}

/// Write each string preceded by `, `.
pub fn comma_strs(parts: &Vec<String>) -> (r: String)
    ensures
        r@ == comma_args(strs(parts@)),
{
    let mut out = String::new();
    let mut i: usize = 0;
    while i < parts.len()
        invariant
            i <= parts.len(),
            out@ == comma_args(strs(parts@).take(i as int)),
        decreases parts.len() - i,
    {
        assert(strs(parts@).take(i + 1).map_values(|t: Seq<char>| ", "@ + t).drop_last()
            =~= strs(parts@).take(i as int).map_values(|t: Seq<char>| ", "@ + t));
        push(&mut out, ", ");
        push(&mut out, parts[i].as_str());
        i += 1;
    }
    assert(strs(parts@).take(parts.len() as int) =~= strs(parts@));
    out
}

// ---------------------------------------------------------------------------
// Forwarding a source method.

/// A shim method: its declaration on the shim trait and its forwarding
/// definition in the blanket impl.
pub struct Forwarded {
    pub sig: String,
    pub body: String,
}

/// The receiver of a method whose first input is a receiver is by value.
pub open spec fn by_value(m: TraitItemFn) -> bool {
    m.sig.inputs@[0] matches FnArg::Receiver(r) && receiver_kind(r) == ReceiverKind::Value
}

/// How the forwarding call passes the receiver: a by-value `self`, boxed in
/// the shim, is dereferenced.
pub open spec fn self_expr(m: TraitItemFn) -> Seq<char> {
    if by_value(m) {
        "*self"@
    } else {
        "self"@
    }
}

/// The call of the source method on the implementor.
pub open spec fn source_call(src: Seq<char>, name: Seq<char>, recv: Seq<char>, args: Seq<Seq<char>>) -> Seq<char> {
    "<__T as "@ + src + ">::"@ + name + "("@ + recv + comma_args(args) + ")"@
}

/// The declaration a forwarded method gets on the shim: its attributes other
/// than the `#[dyn_shim]` helpers, then the restated signature.
pub open spec fn shim_decl(m: TraitItemFn, sig: Seq<char>) -> Seq<char> {
    spaced(attr_texts(m.attrs@, "dyn_shim"@, false)) + sig + ";"@
}

/// The definition a forwarded method gets in the blanket impl: its `#[cfg]`
/// gates, an allowance for calling a deprecated method, the signature and the
/// body.
pub open spec fn impl_def(m: TraitItemFn, sig: Seq<char>, body: Seq<char>) -> Seq<char> {
    spaced(attr_texts(m.attrs@, "cfg"@, true)) + "#[allow(deprecated)] "@ + sig + " { "@ + body
        + " }"@
}

/// The edit that restates a forwarded method: a by-value receiver boxed
/// when `box_receiver`, arguments renamed, nothing else changed.
pub open spec fn renaming_edit(sig: Signature, box_receiver: bool) -> SigEditSpec {
    SigEditSpec {
        box_receiver,
        names: Some(arg_names(sig)),
        lowered: Seq::new(n_after_first(sig), |k: int| None),
        keep_params: Seq::new(sig.params@.len(), |k: int| true),
        keep_preds: Seq::new(sig.where_clause@.len(), |k: int| true),
        output: None,
        extra_pred: None,
    }
}

/// The edit of a `boxed` builder: the receiver treated as for a plain
/// forward, the return type replaced by the boxed shim object and the
/// `'static` bound appended.
pub open spec fn boxed_edit(m: TraitItemFn, shim: Seq<char>) -> SigEditSpec {
    SigEditSpec {
        output: Some(boxed_return(shim, Seq::empty())),
        extra_pred: Some(static_bound(Seq::empty())),
        ..renaming_edit(m.sig, by_value(m))
    }
}

/// The shim declaration and the blanket-impl definition of a method
/// forwarded through the shim, or where and why the method's helper cannot
/// be honored: `erase` lowers the generic arguments, `boxed` boxes a
/// `-> Self` return, and any other method is forwarded as written.
pub open spec fn forward_spec(m: TraitItemFn, shim: Seq<char>, src: Seq<char>, item: usize) -> Result<(Seq<char>, Seq<char>), (Site, Seq<char>)> {
    match helper_of(m) {
        Some(Helper::Erase) => match erase_check(m.sig, item) {
            Err(e) => Err(e),
            Ok((eps, es)) => {
                let e = SigEditSpec { box_receiver: by_value(m), ..erased_edit(m.sig, eps, es) };
                let sig = sig_text(m.sig, e);
                Ok(
                    (
                        shim_decl(m, sig),
                        impl_def(
                            m,
                            sig,
                            erased_preamble(m.sig, es) + source_call(
                                src,
                                m.sig.ident@,
                                self_expr(m),
                                erased_args(m.sig, es),
                            ),
                        ),
                    ),
                )
            },
        },
        Some(Helper::Boxed) => match boxed_check(m, item) {
            Some(e) => Err(e),
            None => {
                let sig = sig_text(m.sig, boxed_edit(m, shim));
                Ok(
                    (
                        shim_decl(m, sig),
                        impl_def(
                            m,
                            sig,
                            boxed_body(
                                source_call(src, m.sig.ident@, self_expr(m), arg_names(m.sig)),
                            ),
                        ),
                    ),
                )
            },
        },
        _ => {
            let sig = sig_text(m.sig, renaming_edit(m.sig, by_value(m)));
            Ok(
                (
                    shim_decl(m, sig),
                    impl_def(
                        m,
                        sig,
                        source_call(src, m.sig.ident@, self_expr(m), arg_names(m.sig)),
                    ),
                ),
            )
        },
    }
}

/// Build the edit that renames a method's arguments, boxing a receiver in
/// first position when `box_receiver`.
pub fn renaming(sig: &Signature, box_receiver: bool) -> (e: SigEdit)
    ensures
        e@ == renaming_edit(*sig, box_receiver),
        edit_fits(*sig, e@),
{
    let names = rename_args(sig);
    let mut lowered: Vec<Option<String>> = Vec::new();
    let n = if sig.inputs.len() == 0 {
        0
    } else {
        sig.inputs.len() - 1
    };
    let mut i: usize = 0;
    while i < n
        invariant
            i <= n,
            lowered@.len() == i,
            forall|k: int| 0 <= k < i ==> lowered@[k] is None,
        decreases n - i,
    {
        lowered.push(None);
        i += 1;
    }
    assert(names@.len() == strs(names@).len());
    let e = SigEdit {
        box_receiver,
        names: Some(names),
        lowered,
        keep_params: crate::render::all_true(sig.params.len()),
        keep_preds: crate::render::all_true(sig.where_clause.len()),
        output: None,
        extra_pred: None,
    };
    assert(e@.lowered =~= renaming_edit(*sig, box_receiver).lowered);
    assert(e@.keep_params =~= renaming_edit(*sig, box_receiver).keep_params);
    assert(e@.keep_preds =~= renaming_edit(*sig, box_receiver).keep_preds);
    e
}

fn is_by_value(method: &TraitItemFn) -> (r: bool)
    requires
        method.sig.inputs@.len() > 0,
        method.sig.inputs@[0] is Receiver,
    ensures
        r == by_value(*method),
{
    match &method.sig.inputs[0] {
        FnArg::Receiver(r) => matches!(ReceiverKind::of(r), ReceiverKind::Value),
        FnArg::Typed(_) => false,
    }
}

fn self_expr_exec(method: &TraitItemFn) -> (r: &'static str)
    requires
        method.sig.inputs@.len() > 0,
    ensures
        r@ == self_expr(*method),
{
    match &method.sig.inputs[0] {
        FnArg::Receiver(r) => if matches!(ReceiverKind::of(r), ReceiverKind::Value) {
            "*self"
        } else {
            "self"
        },
        FnArg::Typed(_) => "self",
    }
}

fn decl_text(method: &TraitItemFn, sig: &String) -> (r: String)
    ensures
        r@ == shim_decl(*method, sig@),
{
    let attrs = select_attrs(&method.attrs, "dyn_shim", false);
    let mut out = spaced_strs(&attrs);
    push(&mut out, sig.as_str());
    push(&mut out, ";");
    out
}

fn def_text(method: &TraitItemFn, sig: &String, body: &String) -> (r: String)
    ensures
        r@ == impl_def(*method, sig@, body@),
{
    let cfgs = cfg_gates(&method.attrs);
    let mut out = spaced_strs(&cfgs);
    push(&mut out, "#[allow(deprecated)] ");
    push(&mut out, sig.as_str());
    push(&mut out, " { ");
    push(&mut out, body.as_str());
    push(&mut out, " }");
    out
}

fn call_text(src: &str, name: &str, recv: &str, args: &Vec<String>) -> (r: String)
    ensures
        r@ == source_call(src@, name@, recv@, strs(args@)),
{
    let mut out = "<__T as ".to_owned();
    push(&mut out, src);
    push(&mut out, ">::");
    push(&mut out, name);
    push(&mut out, "(");
    push(&mut out, recv);
    let c = comma_strs(args);
    push(&mut out, c.as_str());
    push(&mut out, ")");
    assert(out@ =~= source_call(src@, name@, recv@, strs(args@)));
    out
}

/// Build the shim signature and the forwarding impl body for a method
/// forwarded as written (no `erase` or `boxed` helper). A by-value `self` is
/// rewritten to `self: Box<Self>` and forwarded by dereferencing the box.
pub fn forward_plain(method: &TraitItemFn, src: &str) -> (r: Forwarded)
    requires
        method.sig.inputs@.len() > 0,
        method.sig.inputs@[0] is Receiver,
    ensures
        r.sig@ == shim_decl(*method, sig_text(method.sig, renaming_edit(method.sig, by_value(*method)))),
        r.body@ == impl_def(
            *method,
            sig_text(method.sig, renaming_edit(method.sig, by_value(*method))),
            source_call(src@, method.sig.ident@, self_expr(*method), arg_names(method.sig)),
        ),
{
    let e = renaming(&method.sig, is_by_value(method));
    let sig = render_sig(&method.sig, &e);
    let names = rename_args(&method.sig);
    let call = call_text(src, method.sig.ident.as_str(), self_expr_exec(method), &names);
    let decl = decl_text(method, &sig);
    let def = def_text(method, &sig, &call);
    Forwarded { sig: decl, body: def }
}

/// Build the shim signature and forwarding body for an `#[dyn_shim(erase)]`
/// method, lowering its generic parameters to trait objects. The shim method
/// is non-generic and so enters the vtable, while the forwarding call
/// reborrows each erased argument so the source method's type parameter
/// re-infers to the sized reference type.
pub fn forward_erased(method: &TraitItemFn, src: &str, item: usize) -> (r: Result<Forwarded, (Site, String)>)
    requires
        method.sig.inputs@.len() > 0,
        method.sig.inputs@[0] is Receiver,
    ensures
        match erase_check(method.sig, item) {
            Err((site, m)) => r matches Err((s, t)) && s == site && t@ == m,
            Ok((eps, es)) => r matches Ok(f) && {
                let e = SigEditSpec { box_receiver: by_value(*method), ..erased_edit(method.sig, eps, es) };
                &&& f.sig@ == shim_decl(*method, sig_text(method.sig, e))
                &&& f.body@ == impl_def(
                    *method,
                    sig_text(method.sig, e),
                    erased_preamble(method.sig, es) + source_call(
                        src@,
                        method.sig.ident@,
                        self_expr(*method),
                        erased_args(method.sig, es),
                    ),
                )
            },
        },
{
    let erased = match erase_generic(&method.sig, item) {
        Ok(f) => f,
        Err(e) => return Err(e),
    };
    let crate::erase::ErasedFn { edit, preamble, args } = erased;
    let e = SigEdit { box_receiver: is_by_value(method), ..edit };
    let sig = render_sig(&method.sig, &e);
    let call = call_text(src, method.sig.ident.as_str(), self_expr_exec(method), &args);
    let mut body = preamble;
    push(&mut body, call.as_str());
    let decl = decl_text(method, &sig);
    let def = def_text(method, &sig, &body);
    Ok(Forwarded { sig: decl, body: def })
}

/// Why a `#[dyn_shim(boxed)]` method cannot be boxed, if it cannot.
pub open spec fn boxed_check(m: TraitItemFn, item: usize) -> Option<(Site, Seq<char>)> {
    match m.sig.output {
        None => Some(
            (
                Site::MethodIdent(item),
                "#[dyn_shim(boxed)] expects a method returning `Self`, to box into the shim object"@,
            ),
        ),
        Some(ret) => if !ty_is_bare_self(ret) {
            Some(
                (
                    Site::MethodOutput(item),
                    "#[dyn_shim(boxed)] expects the return type to be exactly `Self`; only a bare `Self` can be boxed into the shim's trait object"@,
                ),
            )
        } else if sig_has_type_or_const_generics(m.sig) {
            Some(
                (
                    Site::MethodIdent(item),
                    "#[dyn_shim(boxed)] cannot apply to a generic method (combining it with `erase` is not yet supported)"@,
                ),
            )
        } else if exists|k: int|
            1 <= k < m.sig.inputs@.len() && #[trigger] arg_mentions_self(m.sig.inputs@[k]) {
            let k = choose|k: int|
                1 <= k < m.sig.inputs@.len() && #[trigger] arg_mentions_self(m.sig.inputs@[k])
                    && forall|j: int|
                    1 <= j < k ==> !arg_mentions_self(#[trigger] m.sig.inputs@[j]);
            Some(
                (
                    Site::ArgType(item, k as usize),
                    "#[dyn_shim(boxed)] cannot forward a method that mentions `Self` in an argument; only a `-> Self` return is boxed"@,
                ),
            )
        } else {
            None
        },
    }
}

/// The input is a typed argument whose type mentions `Self`.
pub open spec fn arg_mentions_self(a: FnArg) -> bool {
    a matches FnArg::Typed(pt) && ty_finds(pt.ty, self_or_impl(true, false))
}

/// The return type of a boxing method: the shim's trait object carrying the
/// markers, boxed.
pub open spec fn boxed_return(shim: Seq<char>, markers: Seq<char>) -> Seq<char> {
    "::std::boxed::Box<dyn "@ + shim + markers + ">"@
}

/// The bound of a boxing method that licenses the unsizing coercion.
pub open spec fn static_bound(markers: Seq<char>) -> Seq<char> {
    "Self: 'static"@ + markers
}

/// The body of a boxing method: the expression, boxed.
pub open spec fn boxed_body(call: Seq<char>) -> Seq<char> {
    "::std::boxed::Box::new("@ + call + ")"@
}

/// Build the shim signature and forwarding body for a `#[dyn_shim(boxed)]`
/// method: a `-> Self` builder made dyn-compatible by boxing its result into
/// `Box<dyn shim>`. Fails, where the user opted in, when the shape cannot be
/// boxed: a return that is not exactly `Self`, a generic method, or `Self`
/// used in an argument.
pub fn forward_boxed(method: &TraitItemFn, shim: &str, src: &str, item: usize) -> (r: Result<Forwarded, (Site, String)>)
    requires
        method.sig.inputs@.len() > 0,
        method.sig.inputs@[0] is Receiver,
    ensures
        match boxed_check(*method, item) {
            Some((site, m)) => r matches Err((s, t)) && s == site && t@ == m,
            None => r matches Ok(f) && {
                &&& f.sig@ == shim_decl(*method, sig_text(method.sig, boxed_edit(*method, shim@)))
                &&& f.body@ == impl_def(
                    *method,
                    sig_text(method.sig, boxed_edit(*method, shim@)),
                    boxed_body(
                        source_call(
                            src@,
                            method.sig.ident@,
                            self_expr(*method),
                            arg_names(method.sig),
                        ),
                    ),
                )
            },
        },
{
    let sig = &method.sig;
    match &sig.output {
        None => return Err(
            (
                Site::MethodIdent(item),
                "#[dyn_shim(boxed)] expects a method returning `Self`, to box into the shim object".to_owned(),
            ),
        ),
        Some(ret) => {
            if !crate::select::is_bare_self(ret) {
                return Err(
                    (
                        Site::MethodOutput(item),
                        "#[dyn_shim(boxed)] expects the return type to be exactly `Self`; only a bare `Self` can be boxed into the shim's trait object".to_owned(),
                    ),
                );
            }
        },
    }
    if has_type_or_const_generics(sig) {
        return Err(
            (
                Site::MethodIdent(item),
                "#[dyn_shim(boxed)] cannot apply to a generic method (combining it with `erase` is not yet supported)".to_owned(),
            ),
        );
    }
    let mut k: usize = 1;
    while k < sig.inputs.len()
        invariant
            1 <= k,
            k <= sig.inputs.len(),
            forall|j: int| 1 <= j < k ==> !arg_mentions_self(#[trigger] sig.inputs@[j]),
        decreases sig.inputs.len() - k,
    {
        let hit = match &sig.inputs[k] {
            FnArg::Typed(pt) => type_finds(&pt.ty, true, false),
            FnArg::Receiver(_) => false,
        };
        if hit {
            assert(arg_mentions_self(sig.inputs@[k as int]));
            let ghost c = choose|c: int|
                1 <= c < sig.inputs@.len() && #[trigger] arg_mentions_self(sig.inputs@[c])
                    && forall|j: int| 1 <= j < c ==> !arg_mentions_self(#[trigger] sig.inputs@[j]);
            assert(c == k) by {
                if c < k {
                    assert(!arg_mentions_self(sig.inputs@[c]));
                } else if c > k {
                    assert(!arg_mentions_self(sig.inputs@[k as int]));
                }
            }
            return Err(
                (
                    Site::ArgType(item, k),
                    "#[dyn_shim(boxed)] cannot forward a method that mentions `Self` in an argument; only a `-> Self` return is boxed".to_owned(),
                ),
            );
        }
        k += 1;
    }
    assert(boxed_check(*method, item) is None);
    let plain = renaming(&method.sig, is_by_value(method));
    let mut out_ty = "::std::boxed::Box<dyn ".to_owned();
    push(&mut out_ty, shim);
    push(&mut out_ty, ">");
    assert(out_ty@ =~= boxed_return(shim@, Seq::empty()));
    let bound = "Self: 'static".to_owned();
    assert(bound@ =~= static_bound(Seq::empty()));
    let e = SigEdit { output: Some(out_ty), extra_pred: Some(bound), ..plain };
    let sig_s = render_sig(&method.sig, &e);
    let names = rename_args(&method.sig);
    let call = call_text(src, method.sig.ident.as_str(), self_expr_exec(method), &names);
    let mut body = "::std::boxed::Box::new(".to_owned();
    push(&mut body, call.as_str());
    push(&mut body, ")");
    let decl = decl_text(method, &sig_s);
    let def = def_text(method, &sig_s, &body);
    assert(e@ == boxed_edit(*method, shim@));
    Ok(Forwarded { sig: decl, body: def })
}

/// Build the shim signature and the forwarding impl body for one method: a
/// method marked `#[dyn_shim(erase)]` is routed through [`forward_erased`],
/// one marked `#[dyn_shim(boxed)]` through [`forward_boxed`], any other is
/// forwarded as written.
pub fn forward(method: &TraitItemFn, shim: &str, src: &str, item: usize) -> (r: Result<Forwarded, (Site, String)>)
    requires
        skip_reason(*method) is None,
    ensures
        match forward_spec(*method, shim@, src@, item) {
            Ok((d, b)) => r matches Ok(f) && f.sig@ == d && f.body@ == b,
            Err((site, m)) => r matches Err((s, t)) && s == site && t@ == m,
        },
{
    match Helper::of(method) {
        Some(Helper::Erase) => forward_erased(method, src, item),
        Some(Helper::Boxed) => forward_boxed(method, shim, src, item),
        _ => Ok(forward_plain(method, src)),
    }
}

// ---------------------------------------------------------------------------
// The recognized `Clone` and `Hash` bounds.

/// The hidden boxing-clone method's name for a marker combination.
pub open spec fn clone_method(suffix: Seq<char>) -> Seq<char> {
    "__dyn_shim_clone_box"@ + suffix
}

/// The hidden boxing-clone method's signature for a marker combination.
pub open spec fn clone_sig(shim: Seq<char>, suffix: Seq<char>, markers: Seq<char>) -> Seq<char> {
    "fn "@ + clone_method(suffix) + "(&self) -> "@ + boxed_return(shim, markers) + " where "@
        + static_bound(markers)
}

/// The bridge impls that put `Clone` on a trait object: `Clone` for
/// `Box<dyn principal markers>` and `ToOwned` for `dyn principal markers`,
/// given the cloning expression for the `Clone` receiver (`&**self`) and the
/// `ToOwned` receiver (`self`).
pub open spec fn clone_bridge_text(principal: Seq<char>, markers: Seq<char>, clone_call: Seq<char>, to_owned_call: Seq<char>) -> Seq<char> {
    let boxed = object_ty(ObjectForm::Boxed, principal, markers);
    let bare = object_ty(ObjectForm::Bare, principal, markers);
    "impl ::std::clone::Clone for "@ + boxed + " { fn clone(&self) -> Self { "@ + clone_call
        + " } } impl ::std::borrow::ToOwned for "@ + bare + " { type Owned = "@ + boxed
        + "; fn to_owned(&self) -> Self::Owned { "@ + to_owned_call + " } } "@
}

/// The call of the shim's own hidden clone method on a receiver.
pub open spec fn clone_carrier_call(shim: Seq<char>, markers: Seq<char>, suffix: Seq<char>, recv: Seq<char>) -> Seq<char> {
    "<"@ + object_ty(ObjectForm::Bare, shim, markers) + " as "@ + shim + ">::"@ + clone_method(suffix)
        + "("@ + recv + ")"@
}

/// The hidden signatures, their definitions, and the bridge impls a
/// recognized bound generates.
pub struct Machinery {
    pub sigs: String,
    pub impls: String,
    pub after: String,
}

/// The `Clone` machinery for one marker combination.
pub open spec fn clone_parts(shim: Seq<char>, c: (Seq<char>, Seq<char>)) -> (Seq<char>, Seq<char>, Seq<char>) {
    let sig = clone_sig(shim, c.0, c.1);
    (
        "#[doc(hidden)] "@ + sig + "; "@,
        sig + " { "@ + boxed_body("::std::clone::Clone::clone(self)"@) + " } "@,
        clone_bridge_text(
            shim,
            c.1,
            clone_carrier_call(shim, c.1, c.0, "&**self"@),
            clone_carrier_call(shim, c.1, c.0, "self"@),
        ),
    )
}

/// The `Clone` machinery for every marker combination, one after another.
pub open spec fn clone_machinery(shim: Seq<char>, combos: Seq<(Seq<char>, Seq<char>)>) -> (Seq<char>, Seq<char>, Seq<char>) {
    (
        concat(combos.map_values(|c: (Seq<char>, Seq<char>)| clone_parts(shim, c).0)),
        concat(combos.map_values(|c: (Seq<char>, Seq<char>)| clone_parts(shim, c).1)),
        concat(combos.map_values(|c: (Seq<char>, Seq<char>)| clone_parts(shim, c).2)),
    )
}

fn object_text(form: ObjectForm, principal: &str, markers: &str) -> (r: String)
    ensures
        r@ == object_ty(form, principal@, markers@),
{
    form.ty(principal, markers)
}

fn carrier_call_exec(shim: &str, markers: &str, suffix: &str, recv: &str) -> (r: String)
    ensures
        r@ == clone_carrier_call(shim@, markers@, suffix@, recv@),
{
    let bare = object_text(ObjectForm::Bare, shim, markers);
    let mut out = "<".to_owned();
    push(&mut out, bare.as_str());
    push(&mut out, " as ");
    push(&mut out, shim);
    push(&mut out, ">::");
    push(&mut out, "__dyn_shim_clone_box");
    push(&mut out, suffix);
    push(&mut out, "(");
    push(&mut out, recv);
    push(&mut out, ")");
    assert(out@ =~= clone_carrier_call(shim@, markers@, suffix@, recv@));
    out
}

/// Write the bridge impls that put `Clone` on `Box<dyn principal markers>`
/// and `ToOwned` on `dyn principal markers`.
pub fn clone_bridge_exec(principal: &str, markers: &str, clone_call: &str, to_owned_call: &str) -> (r: String)
    ensures
        r@ == clone_bridge_text(principal@, markers@, clone_call@, to_owned_call@),
{
    let boxed = object_text(ObjectForm::Boxed, principal, markers);
    let bare = object_text(ObjectForm::Bare, principal, markers);
    let mut out = "impl ::std::clone::Clone for ".to_owned();
    push(&mut out, boxed.as_str());
    push(&mut out, " { fn clone(&self) -> Self { ");
    push(&mut out, clone_call);
    push(&mut out, " } } impl ::std::borrow::ToOwned for ");
    push(&mut out, bare.as_str());
    push(&mut out, " { type Owned = ");
    push(&mut out, boxed.as_str());
    push(&mut out, "; fn to_owned(&self) -> Self::Owned { ");
    push(&mut out, to_owned_call);
    push(&mut out, " } } ");
    assert(out@ =~= clone_bridge_text(principal@, markers@, clone_call@, to_owned_call@));
    out
}

fn clone_parts_exec(shim: &str, c: &MarkerCombo) -> (r: (String, String, String))
    ensures
        (r.0@, r.1@, r.2@) == clone_parts(shim@, (c.suffix@, c.markers@)),
{
    let mut method = "__dyn_shim_clone_box".to_owned();
    push(&mut method, c.suffix.as_str());
    let mut sig = "fn ".to_owned();
    push(&mut sig, method.as_str());
    push(&mut sig, "(&self) -> ");
    push(&mut sig, "::std::boxed::Box<dyn ");
    push(&mut sig, shim);
    push(&mut sig, c.markers.as_str());
    push(&mut sig, ">");
    push(&mut sig, " where ");
    push(&mut sig, "Self: 'static");
    push(&mut sig, c.markers.as_str());
    assert(sig@ =~= clone_sig(shim@, c.suffix@, c.markers@));
    let mut decl = "#[doc(hidden)] ".to_owned();
    push(&mut decl, sig.as_str());
    push(&mut decl, "; ");
    let mut def = sig.clone();
    push(&mut def, " { ");
    push(&mut def, "::std::boxed::Box::new(");
    push(&mut def, "::std::clone::Clone::clone(self)");
    push(&mut def, ")");
    push(&mut def, " } ");
    let clone_call = carrier_call_exec(shim, c.markers.as_str(), c.suffix.as_str(), "&**self");
    let to_owned_call = carrier_call_exec(shim, c.markers.as_str(), c.suffix.as_str(), "self");
    let after = clone_bridge_exec(shim, c.markers.as_str(), clone_call.as_str(), to_owned_call.as_str());
    assert(decl@ =~= clone_parts(shim@, (c.suffix@, c.markers@)).0);
    assert(def@ =~= clone_parts(shim@, (c.suffix@, c.markers@)).1);
    assert(after@ =~= clone_parts(shim@, (c.suffix@, c.markers@)).2);
    (decl, def, after)
}

/// Machinery for a recognized `Clone` bound: per marker combination, a hidden
/// boxing method cloning into a fresh box, a `Clone` impl for that box calling
/// it, and a `ToOwned` impl for the borrowed trait object.
pub fn expand_clone(shim: &str, combos: &Vec<MarkerCombo>) -> (r: Machinery)
    ensures
        (r.sigs@, r.impls@, r.after@) == clone_machinery(
            shim@,
            combos@.map_values(|c: MarkerCombo| (c.suffix@, c.markers@)),
        ),
{
    let ghost cs = combos@.map_values(|c: MarkerCombo| (c.suffix@, c.markers@));
    let mut sigs = String::new();
    let mut impls = String::new();
    let mut after = String::new();
    let mut i: usize = 0;
    while i < combos.len()
        invariant
            i <= combos.len(),
            cs == combos@.map_values(|c: MarkerCombo| (c.suffix@, c.markers@)),
            (sigs@, impls@, after@) == clone_machinery(shim@, cs.take(i as int)),
        decreases combos.len() - i,
    {
        let (a, b, c) = clone_parts_exec(shim, &combos[i]);
        let ghost t = cs.take(i + 1);
        assert(t.drop_last() =~= cs.take(i as int));
        assert(t.map_values(|c: (Seq<char>, Seq<char>)| clone_parts(shim@, c).0).drop_last()
            =~= cs.take(i as int).map_values(|c: (Seq<char>, Seq<char>)| clone_parts(shim@, c).0));
        assert(t.map_values(|c: (Seq<char>, Seq<char>)| clone_parts(shim@, c).1).drop_last()
            =~= cs.take(i as int).map_values(|c: (Seq<char>, Seq<char>)| clone_parts(shim@, c).1));
        assert(t.map_values(|c: (Seq<char>, Seq<char>)| clone_parts(shim@, c).2).drop_last()
            =~= cs.take(i as int).map_values(|c: (Seq<char>, Seq<char>)| clone_parts(shim@, c).2));
        push(&mut sigs, a.as_str());
        push(&mut impls, b.as_str());
        push(&mut after, c.as_str());
        i += 1;
    }
    assert(cs.take(combos.len() as int) =~= cs);
    Machinery { sigs, impls, after }
}

/// The hidden hashing method's signature: `Hash::hash` with its generic
/// hasher lowered to `&mut dyn Hasher`.
pub open spec fn hash_sig() -> Seq<char> {
    "fn __dyn_shim_hash(&self, state: &mut dyn ::std::hash::Hasher)"@
}

/// The bridge impl that puts `Hash` on `dyn principal markers`, forwarding
/// through `carrier`'s hidden hashing method.
pub open spec fn hash_bridge_text(principal: Seq<char>, markers: Seq<char>, carrier: Seq<char>) -> Seq<char> {
    "impl ::std::hash::Hash for "@ + object_ty(ObjectForm::Bare, principal, markers)
        + " { fn hash<__H: ::std::hash::Hasher>(&self, state: &mut __H) { <Self as "@ + carrier
        + ">::__dyn_shim_hash(self, state) } } "@
}

/// The `Hash` machinery: one hidden erased hashing method, and a `Hash` impl
/// on each marker combination's `dyn` type.
pub open spec fn hash_machinery(shim: Seq<char>, combos: Seq<(Seq<char>, Seq<char>)>) -> (Seq<char>, Seq<char>, Seq<char>) {
    (
        "#[doc(hidden)] "@ + hash_sig() + "; "@,
        hash_sig() + " { let mut state = state; <__T as ::std::hash::Hash>::hash(self, &mut state) } "@,
        concat(combos.map_values(|c: (Seq<char>, Seq<char>)| hash_bridge_text(shim, c.1, shim))),
    )
}

fn hash_bridge_exec(principal: &str, markers: &str, carrier: &str) -> (r: String)
    ensures
        r@ == hash_bridge_text(principal@, markers@, carrier@),
{
    let bare = object_text(ObjectForm::Bare, principal, markers);
    let mut out = "impl ::std::hash::Hash for ".to_owned();
    push(&mut out, bare.as_str());
    push(&mut out, " { fn hash<__H: ::std::hash::Hasher>(&self, state: &mut __H) { <Self as ");
    push(&mut out, carrier);
    push(&mut out, ">::__dyn_shim_hash(self, state) } } ");
    assert(out@ =~= hash_bridge_text(principal@, markers@, carrier@));
    out
}

/// Machinery for a recognized `Hash` bound: one hidden method erasing the
/// generic `H: Hasher` parameter to `&mut dyn Hasher`, and a `Hash` impl on
/// each `dyn` type calling it. Hashing only reads, so one hidden method serves
/// every marker combination.
pub fn expand_hash(shim: &str, combos: &Vec<MarkerCombo>) -> (r: Machinery)
    ensures
        (r.sigs@, r.impls@, r.after@) == hash_machinery(
            shim@,
            combos@.map_values(|c: MarkerCombo| (c.suffix@, c.markers@)),
        ),
{
    let ghost cs = combos@.map_values(|c: MarkerCombo| (c.suffix@, c.markers@));
    let mut sigs = "#[doc(hidden)] ".to_owned();
    push(&mut sigs, "fn __dyn_shim_hash(&self, state: &mut dyn ::std::hash::Hasher)");
    push(&mut sigs, "; ");
    let mut impls = "fn __dyn_shim_hash(&self, state: &mut dyn ::std::hash::Hasher)".to_owned();
    push(
        &mut impls,
        " { let mut state = state; <__T as ::std::hash::Hash>::hash(self, &mut state) } ",
    );
    assert(sigs@ =~= hash_machinery(shim@, cs).0);
    assert(impls@ =~= hash_machinery(shim@, cs).1);
    let mut after = String::new();
    let mut i: usize = 0;
    while i < combos.len()
        invariant
            i <= combos.len(),
            cs == combos@.map_values(|c: MarkerCombo| (c.suffix@, c.markers@)),
            after@ == concat(
                cs.take(i as int).map_values(
                    |c: (Seq<char>, Seq<char>)| hash_bridge_text(shim@, c.1, shim@),
                ),
            ),
        decreases combos.len() - i,
    {
        let b = hash_bridge_exec(shim, combos[i].markers.as_str(), shim);
        assert(cs.take(i + 1).map_values(
            |c: (Seq<char>, Seq<char>)| hash_bridge_text(shim@, c.1, shim@),
        ).drop_last() =~= cs.take(i as int).map_values(
            |c: (Seq<char>, Seq<char>)| hash_bridge_text(shim@, c.1, shim@),
        ));
        push(&mut after, b.as_str());
        i += 1;
    }
    assert(cs.take(combos.len() as int) =~= cs);
    Machinery { sigs, impls, after }
}

/// The body of the `@mount` arm a recognized carrier's mount macro expands
/// to: the bridge impls on `dyn $principal $($marker)*`.
pub open spec fn mount_arm_text(k: crate::bounds::RecognizedBound, carrier: Seq<char>) -> Seq<char> {
    match k {
        crate::bounds::RecognizedBound::Clone => "impl ::std::clone::Clone for ::std::boxed::Box<dyn $principal $($marker)*> { fn clone(&self) -> Self { $crate::__clone_box(&**self) } } impl ::std::borrow::ToOwned for dyn $principal $($marker)* { type Owned = ::std::boxed::Box<dyn $principal $($marker)*>; fn to_owned(&self) -> Self::Owned { $crate::__clone_box(self) } } "@,
        crate::bounds::RecognizedBound::Hash => hash_bridge_text("$principal"@, " $($marker)*"@, carrier),
    }
}

/// The body of the `@mount` arm of a recognized carrier's mount macro: the
/// bridge impls that put the capability on `dyn $principal $($marker)*`.
/// `Clone` reconstructs `Box<dyn $principal>` through the crate's
/// `__clone_box`; `Hash` forwards through the carrier's `__dyn_shim_hash`.
pub fn mount_arm(k: crate::bounds::RecognizedBound, carrier: &str) -> (r: String)
    ensures
        r@ == mount_arm_text(k, carrier@),
{
    match k {
        crate::bounds::RecognizedBound::Clone => "impl ::std::clone::Clone for ::std::boxed::Box<dyn $principal $($marker)*> { fn clone(&self) -> Self { $crate::__clone_box(&**self) } } impl ::std::borrow::ToOwned for dyn $principal $($marker)* { type Owned = ::std::boxed::Box<dyn $principal $($marker)*>; fn to_owned(&self) -> Self::Owned { $crate::__clone_box(self) } } ".to_owned(),
        crate::bounds::RecognizedBound::Hash => hash_bridge_exec("$principal", " $($marker)*", carrier),
    }
}

/// The machinery a recognized bound generates on `shim`.
pub open spec fn recognized_machinery(k: crate::bounds::RecognizedBound, shim: Seq<char>, combos: Seq<(Seq<char>, Seq<char>)>) -> (Seq<char>, Seq<char>, Seq<char>) {
    match k {
        crate::bounds::RecognizedBound::Clone => clone_machinery(shim, combos),
        crate::bounds::RecognizedBound::Hash => hash_machinery(shim, combos),
    }
}

/// Generate the machinery for one recognized bound: hidden method signatures
/// for the shim trait, their bodies for the blanket impl, and the standalone
/// trait impls emitted after both.
pub fn expand_recognized_bound(k: crate::bounds::RecognizedBound, shim: &str, combos: &Vec<MarkerCombo>) -> (r: Machinery)
    ensures
        (r.sigs@, r.impls@, r.after@) == recognized_machinery(
            k,
            shim@,
            combos@.map_values(|c: MarkerCombo| (c.suffix@, c.markers@)),
        ),
{
    match k {
        crate::bounds::RecognizedBound::Clone => expand_clone(shim, combos),
        crate::bounds::RecognizedBound::Hash => expand_hash(shim, combos),
    }
}

} // verus!
