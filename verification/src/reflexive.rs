//! The reflexive impl, `impl SourceTrait for <shim object>`, and the shim's
//! mount macro that stamps it onto the shim's own objects or onto any
//! principal trait that inherits the shim.

use vstd::prelude::*;
use crate::bounds::ObjectForm;
use crate::erase::{arg_names, attr_texts, cfg_gates, rename_args};
use crate::forward::{comma_args, comma_strs, renaming, renaming_edit, spaced, spaced_strs};
use crate::model::{diags, ty_is_bare_self, Diagnostic, FnArg, Site, TraitItem, TraitItemFn};
use crate::render::{opt_str, render_sig, sig_text, strs};
use crate::select::{
    helper_of, is_bare_self, is_provided, method_is_provided, receiver_kind, requires_self_sized,
    sig_requires_self_sized, skip, skip_reason, Helper, ReceiverKind,
};
use crate::text::{literal, push, str_literal};

verus! {

// ---------------------------------------------------------------------------
// Stub bodies.

/// The message a `#[dyn_shim(panic)]` stub panics with.
pub open spec fn panic_message(name: Seq<char>, shim: Seq<char>) -> Seq<char> {
    "`"@ + name + "` is not available on the type-erased `"@ + shim + "` shim"@
}

/// The fallback body a helper supplies for a method that cannot forward:
/// `panic` panics with a generated message naming the method and the shim,
/// `stub = <expr>` evaluates the expression; other helpers supply none.
pub open spec fn stub_body_spec(h: Option<Helper>, shim: Seq<char>, name: Seq<char>) -> Option<Seq<char>> {
    match h {
        Some(Helper::Stub(None)) => Some(
            "::std::panic!("@ + str_literal(panic_message(name, shim)) + ")"@,
        ),
        Some(Helper::Stub(Some(e))) => Some(e@),
        _ => None,
    }
}

impl Helper {
    /// The fallback body for a non-forwardable method's reflexive stub, if
    /// this helper supplies one.
    pub fn stub_body(&self, shim: &str, name: &str) -> (r: Option<String>)
        ensures
            opt_str(r) == stub_body_spec(Some(*self), shim@, name@),
    {
        match self {
            Helper::Stub(None) => {
                let mut msg = "`".to_owned();
                push(&mut msg, name);
                push(&mut msg, "` is not available on the type-erased `");
                push(&mut msg, shim);
                push(&mut msg, "` shim");
                assert(msg@ =~= panic_message(name@, shim@));
                let mut out = "::std::panic!(".to_owned();
                let lit = literal(msg.as_str());
                push(&mut out, lit.as_str());
                push(&mut out, ")");
                Some(out)
            },
            Helper::Stub(Some(e)) => Some(e.clone()),
            _ => None,
        }
    }
}

// ---------------------------------------------------------------------------
// Receivers and by-value `Self`.

/// The receiver expression passed to the shim method when forwarding through
/// the reflexive impl, adjusted for the impl's self type: `Box<dyn Shim>`
/// (boxed) dereferences to reach the `dyn` type, `dyn Shim` (bare) is already
/// there. `None` for a receiver the reflexive impl does not support.
pub open spec fn receiver_expr(kind: ObjectForm, rk: ReceiverKind) -> Option<Seq<char>> {
    match rk {
        ReceiverKind::Value => Some("self"@),
        ReceiverKind::Boxed => match kind {
            ObjectForm::Boxed => Some("*self"@),
            ObjectForm::Bare => Some("self"@),
        },
        ReceiverKind::Ref => match kind {
            ObjectForm::Boxed => Some("&**self"@),
            ObjectForm::Bare => Some("self"@),
        },
        ReceiverKind::RefMut => match kind {
            ObjectForm::Boxed => Some("&mut **self"@),
            ObjectForm::Bare => Some("self"@),
        },
        ReceiverKind::Other => None,
    }
}

/// How a reference receiver reaches the object in each form. In the boxed
/// form, whose `self` is `&Box<dyn Shim>` or `&mut Box<dyn Shim>`, the
/// receiver dereferences exactly twice (through the reference, then the
/// box) and reborrows with the receiver's own mutability; the `&mut` form is
/// the `&` form with `mut ` after the `&`. In the bare form, whose `self` is
/// already `&dyn Shim` or `&mut dyn Shim`, it passes `self` with no
/// dereference.
pub proof fn lemma_reference_receivers()
    ensures
        ({
            let shared = receiver_expr(ObjectForm::Boxed, ReceiverKind::Ref)->Some_0;
            let unique = receiver_expr(ObjectForm::Boxed, ReceiverKind::RefMut)->Some_0;
            &&& receiver_expr(ObjectForm::Boxed, ReceiverKind::Ref) is Some
            &&& receiver_expr(ObjectForm::Boxed, ReceiverKind::RefMut) is Some
            &&& crate::bounds::count_char(shared, '*') == 2
            &&& crate::bounds::count_char(unique, '*') == 2
            &&& shared[0] == '&'
            &&& unique == seq!['&'] + "mut "@ + shared.drop_first()
            &&& shared.drop_first().subrange(shared.len() - 5, shared.len() - 1) == "self"@
        }),
        receiver_expr(ObjectForm::Bare, ReceiverKind::Ref) == Some("self"@),
        receiver_expr(ObjectForm::Bare, ReceiverKind::RefMut) == Some("self"@),
{
    reveal_strlit("&**self");
    reveal_strlit("&mut **self");
    reveal_strlit("mut ");
    reveal_strlit("self");
    reveal_with_fuel(crate::bounds::count_char, 12);
    let shared = receiver_expr(ObjectForm::Boxed, ReceiverKind::Ref)->Some_0;
    let unique = receiver_expr(ObjectForm::Boxed, ReceiverKind::RefMut)->Some_0;
    assert(unique =~= seq!['&'] + "mut "@ + shared.drop_first());
    assert(shared.drop_first().subrange(shared.len() - 5, shared.len() - 1) =~= "self"@);
}

/// The message for a receiver the reflexive impl does not support.
pub open spec fn msg_receiver(name: Seq<char>) -> Seq<char> {
    "`"@ + name
        + "`'s `self` receiver is not yet supported in a reflexive impl (only `self`, `&self`, `&mut self`, and `self: Box<Self>` are)"@
}

fn receiver_expr_exec(kind: ObjectForm, rk: ReceiverKind) -> (r: Option<&'static str>)
    ensures
        match r {
            Some(s) => receiver_expr(kind, rk) == Some(s@),
            None => receiver_expr(kind, rk) is None,
        },
{
    match rk {
        ReceiverKind::Value => Some("self"),
        ReceiverKind::Boxed => match kind {
            ObjectForm::Boxed => Some("*self"),
            ObjectForm::Bare => Some("self"),
        },
        ReceiverKind::Ref => match kind {
            ObjectForm::Boxed => Some("&**self"),
            ObjectForm::Bare => Some("self"),
        },
        ReceiverKind::RefMut => match kind {
            ObjectForm::Boxed => Some("&mut **self"),
            ObjectForm::Bare => Some("self"),
        },
        ReceiverKind::Other => None,
    }
}

/// The input is a typed argument of exactly the type `Self`.
pub open spec fn arg_is_bare_self(a: FnArg) -> bool {
    a matches FnArg::Typed(pt) && ty_is_bare_self(pt.ty)
}

/// Where and why a method cannot be expressed in a `reflexive = bare` impl,
/// whose `Self` is the unsized `dyn` shim: it places `Self` by value, through
/// a by-value `self` receiver, a bare `-> Self` return, or a bare `Self`
/// argument (the first such, in that order).
pub open spec fn bare_inexpressible_spec(m: TraitItemFn, item: usize) -> Option<(Site, Seq<char>)> {
    let name = m.sig.ident@;
    if m.sig.inputs@.len() > 0 && (m.sig.inputs@[0] matches FnArg::Receiver(r) && receiver_kind(r)
        == ReceiverKind::Value) {
        Some(
            (
                Site::MethodReceiver(item),
                "`reflexive = bare` cannot include `"@ + name
                    + "`: its by-value `self` receiver would take the unsized `dyn` shim by value. Use `reflexive = boxed`."@,
            ),
        )
    } else if (m.sig.output matches Some(t) && ty_is_bare_self(t)) {
        Some(
            (
                Site::MethodOutput(item),
                "`reflexive = bare` cannot include `"@ + name
                    + "`: it returns `Self` by value, which is unsized as the `dyn` shim. Use `reflexive = boxed`."@,
            ),
        )
    } else if exists|k: int| 1 <= k < m.sig.inputs@.len() && #[trigger] arg_is_bare_self(m.sig.inputs@[k]) {
        let k = choose|k: int|
            1 <= k < m.sig.inputs@.len() && #[trigger] arg_is_bare_self(m.sig.inputs@[k]) && forall|j: int|
                1 <= j < k ==> !arg_is_bare_self(#[trigger] m.sig.inputs@[j]);
        Some(
            (
                Site::ArgType(item, k as usize),
                "`reflexive = bare` cannot include `"@ + name
                    + "`: it takes `Self` by value, which is unsized as the `dyn` shim. Use `reflexive = boxed`."@,
            ),
        )
    } else {
        None
    }
}

/// If a method cannot be expressed in a `reflexive = bare` impl, where and
/// why.
pub fn bare_inexpressible(method: &TraitItemFn, item: usize) -> (r: Option<(Site, String)>)
    ensures
        match bare_inexpressible_spec(*method, item) {
            Some((site, m)) => r matches Some((s, t)) && s == site && t@ == m,
            None => r is None,
        },
{
    let sig = &method.sig;
    let name = sig.ident.as_str();
    if sig.inputs.len() > 0 {
        match &sig.inputs[0] {
            FnArg::Receiver(recv) => {
                if matches!(ReceiverKind::of(recv), ReceiverKind::Value) {
                    let mut m = "`reflexive = bare` cannot include `".to_owned();
                    push(&mut m, name);
                    push(
                        &mut m,
                        "`: its by-value `self` receiver would take the unsized `dyn` shim by value. Use `reflexive = boxed`.",
                    );
                    return Some((Site::MethodReceiver(item), m));
                }
            },
            FnArg::Typed(_) => {},
        }
    }
    match &sig.output {
        Some(t) => {
            if is_bare_self(t) {
                let mut m = "`reflexive = bare` cannot include `".to_owned();
                push(&mut m, name);
                push(
                    &mut m,
                    "`: it returns `Self` by value, which is unsized as the `dyn` shim. Use `reflexive = boxed`.",
                );
                return Some((Site::MethodOutput(item), m));
            }
        },
        None => {},
    }
    let mut k: usize = 1;
    while k < sig.inputs.len()
        invariant
            1 <= k,
            k <= sig.inputs.len() || sig.inputs.len() == 0,
            forall|j: int| 1 <= j < k && j < sig.inputs@.len() ==> !arg_is_bare_self(#[trigger] sig.inputs@[j]),
        decreases sig.inputs.len() - k,
    {
        let hit = match &sig.inputs[k] {
            FnArg::Typed(pt) => is_bare_self(&pt.ty),
            FnArg::Receiver(_) => false,
        };
        if hit {
            assert(arg_is_bare_self(sig.inputs@[k as int]));
            let ghost c = choose|c: int|
                1 <= c < sig.inputs@.len() && #[trigger] arg_is_bare_self(sig.inputs@[c]) && forall|j: int|
                    1 <= j < c ==> !arg_is_bare_self(#[trigger] sig.inputs@[j]);
            assert(c == k) by {
                if c < k {
                    assert(!arg_is_bare_self(sig.inputs@[c]));
                } else if c > k {
                    assert(!arg_is_bare_self(sig.inputs@[k as int]));
                }
            }
            let mut m = "`reflexive = bare` cannot include `".to_owned();
            push(&mut m, name);
            push(
                &mut m,
                "`: it takes `Self` by value, which is unsized as the `dyn` shim. Use `reflexive = boxed`.",
            );
            return Some((Site::ArgType(item, k), m));
        }
        k += 1;
    }
    None
}

// ---------------------------------------------------------------------------
// One method of the reflexive impl.

/// The message for a method that cannot forward and has no fallback.
pub open spec fn msg_unplaced(name: Seq<char>, reason: Seq<char>) -> Seq<char> {
    "`"@ + name + "` is not dyn-compatible ("@ + reason
        + "), so the reflexive impl cannot forward it; provide a fallback with `#[dyn_shim(panic)]` or `#[dyn_shim(stub = <expr>)]`, or give it a default body"@
}

/// A method of the reflexive impl: its `#[cfg]` gates, an allowance for
/// unused arguments when the body is a stub, an allowance for calling a
/// deprecated method, the restated signature and the body.
pub open spec fn reflexive_entry(m: TraitItemFn, sig: Seq<char>, stub: bool, body: Seq<char>) -> Seq<char> {
    spaced(attr_texts(m.attrs@, "cfg"@, true)) + (if stub {
        "#[allow(unused_variables)] "@
    } else {
        Seq::empty()
    }) + "#[allow(deprecated)] "@ + sig + " { "@ + body + " }"@
}

/// The call that dispatches a method through the shim by name, so `Self`
/// infers to the `dyn` type.
pub open spec fn shim_call(shim: Seq<char>, name: Seq<char>, recv: Seq<char>, args: Seq<Seq<char>>) -> Seq<char> {
    shim + "::"@ + name + "("@ + recv + comma_args(args) + ")"@
}

/// How a method is placed in the reflexive impl of one object form:
/// `Ok(Some(None))` forwards through the shim, `Ok(Some(Some(b)))` is a stub
/// with body `b`, `Ok(None)` leaves the method out (a `where Self: Sized`
/// method on the bare form, or one with a default body), and `Err` is a
/// method that cannot be placed.
pub open spec fn placement(kind: ObjectForm, shim: Seq<char>, m: TraitItemFn, item: usize) -> Result<Option<Option<Seq<char>>>, (Site, Seq<char>)> {
    if skip_reason(m) is None {
        Ok(Some(None))
    } else if kind == ObjectForm::Bare && sig_requires_self_sized(m.sig) {
        Ok(None)
    } else if m.default is Some {
        Ok(None)
    } else {
        match stub_body_spec(helper_of(m), shim, m.sig.ident@) {
            Some(b) => Ok(Some(Some(b))),
            None => Err((Site::MethodIdent(item), msg_unplaced(m.sig.ident@, skip_reason(m)->Some_0))),
        }
    }
}

/// One method of the reflexive impl for an object form: the method to emit,
/// `None` to leave it out, or where and why it cannot be placed.
pub open spec fn reflexive_method_spec(kind: ObjectForm, shim: Seq<char>, m: TraitItemFn, item: usize) -> Result<Option<Seq<char>>, (Site, Seq<char>)> {
    match placement(kind, shim, m, item) {
        Err(e) => Err(e),
        Ok(None) => Ok(None),
        Ok(Some(stub)) => match (if kind == ObjectForm::Bare {
            bare_inexpressible_spec(m, item)
        } else {
            None
        }) {
            Some(e) => Err(e),
            None => {
                let sig = sig_text(m.sig, renaming_edit(m.sig, false));
                match stub {
                    Some(b) => Ok(Some(reflexive_entry(m, sig, true, b))),
                    None => match receiver_expr(kind, receiver_kind(m.sig.inputs@[0]->Receiver_0)) {
                        None => Err((Site::MethodReceiver(item), msg_receiver(m.sig.ident@))),
                        Some(recv) => Ok(
                            Some(
                                reflexive_entry(
                                    m,
                                    sig,
                                    false,
                                    shim_call(shim, m.sig.ident@, recv, arg_names(m.sig)),
                                ),
                            ),
                        ),
                    },
                }
            },
        },
    }
}

fn entry_text(method: &TraitItemFn, sig: &String, stub: bool, body: &str) -> (r: String)
    ensures
        r@ == reflexive_entry(*method, sig@, stub, body@),
{
    let cfgs = cfg_gates(&method.attrs);
    let mut out = spaced_strs(&cfgs);
    if stub {
        push(&mut out, "#[allow(unused_variables)] ");
    }
    push(&mut out, "#[allow(deprecated)] ");
    push(&mut out, sig.as_str());
    push(&mut out, " { ");
    push(&mut out, body);
    push(&mut out, " }");
    assert(out@ =~= reflexive_entry(*method, sig@, stub, body@));
    out
}

/// Build one method of the reflexive impl for an object form. A forwardable
/// method dispatches through the shim; a non-forwardable one is left out when
/// it has a default body or (on the bare form) requires `Self: Sized`, gets
/// the fallback body of its `panic` / `stub` helper, or is reported.
pub fn reflexive_method(kind: ObjectForm, shim: &str, method: &TraitItemFn, item: usize) -> (r: Result<Option<String>, (Site, String)>)
    ensures
        match reflexive_method_spec(kind, shim@, *method, item) {
            Ok(o) => r matches Ok(x) && opt_str(x) == o,
            Err((site, m)) => r matches Err((s, t)) && s == site && t@ == m,
        },
{
    let name = method.sig.ident.as_str();
    let stub: Option<String> = match skip(method) {
        None => None,
        Some(reason) => {
            if kind == ObjectForm::Bare && requires_self_sized(&method.sig) {
                return Ok(None);
            }
            if method.default.is_some() {
                return Ok(None);
            }
            let body = match Helper::of(method) {
                Some(h) => h.stub_body(shim, name),
                None => None,
            };
            match body {
                Some(b) => Some(b),
                None => {
                    let mut m = "`".to_owned();
                    push(&mut m, name);
                    push(&mut m, "` is not dyn-compatible (");
                    push(&mut m, reason);
                    push(
                        &mut m,
                        "), so the reflexive impl cannot forward it; provide a fallback with `#[dyn_shim(panic)]` or `#[dyn_shim(stub = <expr>)]`, or give it a default body",
                    );
                    return Err((Site::MethodIdent(item), m));
                },
            }
        },
    };
    if kind == ObjectForm::Bare {
        match bare_inexpressible(method, item) {
            Some(e) => return Err(e),
            None => {},
        }
    }
    let e = renaming(&method.sig, false);
    let sig = render_sig(&method.sig, &e);
    match stub {
        Some(b) => Ok(Some(entry_text(method, &sig, true, b.as_str()))),
        None => {
            let rk = match &method.sig.inputs[0] {
                FnArg::Receiver(recv) => ReceiverKind::of(recv),
                FnArg::Typed(_) => ReceiverKind::Other,
            };
            match receiver_expr_exec(kind, rk) {
                None => {
                    let mut m = "`".to_owned();
                    push(&mut m, name);
                    push(
                        &mut m,
                        "`'s `self` receiver is not yet supported in a reflexive impl (only `self`, `&self`, `&mut self`, and `self: Box<Self>` are)",
                    );
                    Err((Site::MethodReceiver(item), m))
                },
                Some(recv) => {
                    let names = rename_args(&method.sig);
                    let mut call = shim.to_owned();
                    push(&mut call, "::");
                    push(&mut call, name);
                    push(&mut call, "(");
                    push(&mut call, recv);
                    let c = comma_strs(&names);
                    push(&mut call, c.as_str());
                    push(&mut call, ")");
                    assert(call@ =~= shim_call(shim@, name@, recv@, arg_names(method.sig)));
                    Ok(Some(entry_text(method, &sig, false, call.as_str())))
                },
            }
        },
    }
}

/// `reflexive = bare` cannot hold a forwarded method that takes `self` by
/// value: the unsized `dyn` shim cannot be taken by value, so the method is
/// reported.
pub proof fn lemma_bare_rejects_by_value(shim: Seq<char>, m: TraitItemFn, item: usize)
    requires
        skip_reason(m) is None,
        m.sig.inputs@.len() > 0,
        m.sig.inputs@[0] matches FnArg::Receiver(r) && receiver_kind(r) == ReceiverKind::Value,
    ensures
        reflexive_method_spec(ObjectForm::Bare, shim, m, item) == Err::<Option<Seq<char>>, (Site, Seq<char>)>(
            bare_inexpressible_spec(m, item)->Some_0,
        ),
        bare_inexpressible_spec(m, item)->Some_0.0 == Site::MethodReceiver(item),
{
}

/// `reflexive = boxed` forwards every method the shim forwards, whatever its
/// receiver (`self`, `&self`, `&mut self`, `self: Box<Self>`), through the
/// shim method of the same name.
pub proof fn lemma_boxed_forwards(shim: Seq<char>, m: TraitItemFn, item: usize)
    requires
        skip_reason(m) is None,
        m.sig.inputs@.len() > 0,
        m.sig.inputs@[0] matches FnArg::Receiver(r) && receiver_kind(r) != ReceiverKind::Other,
    ensures
        reflexive_method_spec(ObjectForm::Boxed, shim, m, item) == Ok::<Option<Seq<char>>, (Site, Seq<char>)>(
            Some(
                reflexive_entry(
                    m,
                    sig_text(m.sig, renaming_edit(m.sig, false)),
                    false,
                    shim_call(
                        shim,
                        m.sig.ident@,
                        receiver_expr(ObjectForm::Boxed, receiver_kind(m.sig.inputs@[0]->Receiver_0))->Some_0,
                        arg_names(m.sig),
                    ),
                ),
            ),
        ),
{
}

// ---------------------------------------------------------------------------
// All methods of the reflexive impl.

/// The entries and the errors of the reflexive impl for the first `n` items.
pub open spec fn entries_prefix(kind: ObjectForm, shim: Seq<char>, items: Seq<TraitItem>, reemit: bool, n: nat) -> (Seq<Seq<char>>, Seq<(Site, Seq<char>)>)
    decreases n,
{
    if n == 0 || n > items.len() {
        (Seq::empty(), Seq::empty())
    } else {
        let prev = entries_prefix(kind, shim, items, reemit, (n - 1) as nat);
        match items[n - 1] {
            TraitItem::Fn(m) => if method_is_provided(m, reemit) {
                prev
            } else {
                match reflexive_method_spec(kind, shim, m, (n - 1) as usize) {
                    Ok(Some(e)) => (prev.0.push(e), prev.1),
                    Ok(None) => prev,
                    Err(d) => (prev.0, prev.1.push(d)),
                }
            },
            _ => prev,
        }
    }
}

/// The methods of `impl SourceTrait for <object>` in one object form, or
/// every method that cannot be placed, in order. A method the shim provides
/// itself is not a method of the source trait and is left out.
pub open spec fn entries_spec(kind: ObjectForm, shim: Seq<char>, items: Seq<TraitItem>, reemit: bool) -> Result<Seq<Seq<char>>, Seq<(Site, Seq<char>)>> {
    let (es, errs) = entries_prefix(kind, shim, items, reemit, items.len());
    if errs.len() == 0 {
        Ok(es)
    } else {
        Err(errs)
    }
}

/// The errors of a prefix of the items stay among the errors of every
/// longer prefix.
proof fn lemma_entries_errors_grow(kind: ObjectForm, shim: Seq<char>, items: Seq<TraitItem>, reemit: bool, n: nat, m: nat)
    requires
        n <= m <= items.len(),
    ensures
        entries_prefix(kind, shim, items, reemit, n).1.len() <= entries_prefix(kind, shim, items, reemit, m).1.len(),
        forall|j: int|
            0 <= j < entries_prefix(kind, shim, items, reemit, n).1.len() ==> #[trigger] entries_prefix(
                kind,
                shim,
                items,
                reemit,
                m,
            ).1[j] == entries_prefix(kind, shim, items, reemit, n).1[j],
    decreases m - n,
{
    if n < m {
        lemma_entries_errors_grow(kind, shim, items, reemit, n, (m - 1) as nat);
    }
}

/// A reflexive form is generated only when every method of the source trait
/// has a place in it: a method that can neither forward, nor fall back to a
/// stub or its default body, makes the whole form fail, and its error is
/// among those reported.
pub proof fn lemma_unplaced_method_fails_form(kind: ObjectForm, shim: Seq<char>, items: Seq<TraitItem>, reemit: bool, i: int)
    requires
        0 <= i < items.len(),
        items[i] matches TraitItem::Fn(m) && !method_is_provided(m, reemit)
            && reflexive_method_spec(kind, shim, m, i as usize) is Err,
    ensures
        entries_spec(kind, shim, items, reemit) is Err,
        entries_spec(kind, shim, items, reemit)->Err_0.contains(
            reflexive_method_spec(kind, shim, items[i]->Fn_0, i as usize)->Err_0,
        ),
{
    let k = (i + 1) as nat;
    let pre = entries_prefix(kind, shim, items, reemit, k);
    let e = reflexive_method_spec(kind, shim, items[i]->Fn_0, i as usize)->Err_0;
    assert(pre.1.len() > 0 && pre.1.last() == e);
    lemma_entries_errors_grow(kind, shim, items, reemit, k, items.len());
    let all = entries_prefix(kind, shim, items, reemit, items.len());
    assert(all.1[pre.1.len() - 1] == e);
}

/// The plain-value view of an entries result.
pub open spec fn entries_view(r: Result<Vec<String>, Vec<Diagnostic>>) -> Result<Seq<Seq<char>>, Seq<(Site, Seq<char>)>> {
    match r {
        Ok(v) => Ok(strs(v@)),
        Err(v) => Err(diags(v@)),
    }
}

/// Build the forwarding methods of an `impl SourceTrait for <shim object>`
/// in one object form. Every method that cannot be placed is collected, so
/// the caller reports them all in one pass.
pub fn reflexive_entries(kind: ObjectForm, shim: &str, items: &Vec<TraitItem>, reemit: bool) -> (r: Result<Vec<String>, Vec<Diagnostic>>)
    ensures
        entries_view(r) == entries_spec(kind, shim@, items@, reemit),
{
    let mut entries: Vec<String> = Vec::new();
    let mut errors: Vec<Diagnostic> = Vec::new();
    let mut i: usize = 0;
    while i < items.len()
        invariant
            i <= items.len(),
            (strs(entries@), diags(errors@)) == entries_prefix(kind, shim@, items@, reemit, i as nat),
        decreases items.len() - i,
    {
        match &items[i] {
            TraitItem::Fn(method) => {
                if !is_provided(method, reemit) {
                    match reflexive_method(kind, shim, method, i) {
                        Ok(Some(e)) => {
                            let ghost before = entries@;
                            entries.push(e);
                            assert(strs(entries@) =~= strs(before).push(e@));
                        },
                        Ok(None) => {},
                        Err((site, message)) => {
                            let ghost before = errors@;
                            let d = Diagnostic { site, message };
                            errors.push(d);
                            assert(diags(errors@) =~= diags(before).push((site, d.message@)));
                        },
                    }
                }
            },
            _ => {},
        }
        i += 1;
    }
    if errors.len() == 0 {
        Ok(entries)
    } else {
        Err(errors)
    }
}

// ---------------------------------------------------------------------------
// The mount macro.

/// The arm of the mount macro that stamps one form's impl onto a fully
/// formed self type.
pub open spec fn form_arm(tag: Seq<char>, src: Seq<char>, entries: Seq<Seq<char>>) -> Seq<char> {
    "(@"@ + tag + " $self_ty:ty) => { impl "@ + src + " for $self_ty { "@ + spaced(entries)
        + "} }; "@
}

/// The impl the `@mount` arm stamps for one form onto `dyn $principal
/// $($marker)*` (bare) or its box (boxed).
pub open spec fn mount_impl(form: ObjectForm, src: Seq<char>, entries: Seq<Seq<char>>) -> Seq<char> {
    "impl "@ + src + " for "@ + match form {
        ObjectForm::Bare => "dyn $principal $($marker)*"@,
        ObjectForm::Boxed => "::std::boxed::Box<dyn $principal $($marker)*>"@,
    } + " { "@ + spaced(entries) + "} "@
}

/// The shim's mount macro: a `macro_rules!` named after the shim with an
/// `@bare` / `@boxed` arm for each form whose entries are placeable, and an
/// `@mount` arm stamping every such form onto a principal. Nothing when
/// neither form is placeable.
pub open spec fn mount_macro_spec(shim: Seq<char>, src: Seq<char>, bare: Option<Seq<Seq<char>>>, boxed: Option<Seq<Seq<char>>>) -> Seq<char> {
    if bare is None && boxed is None {
        Seq::empty()
    } else {
        let arms = (match bare {
            Some(es) => form_arm("bare"@, src, es),
            None => Seq::empty(),
        }) + (match boxed {
            Some(es) => form_arm("boxed"@, src, es),
            None => Seq::empty(),
        });
        let mounts = (match bare {
            Some(es) => mount_impl(ObjectForm::Bare, src, es),
            None => Seq::empty(),
        }) + (match boxed {
            Some(es) => mount_impl(ObjectForm::Boxed, src, es),
            None => Seq::empty(),
        });
        "#[allow(non_local_definitions)] #[macro_export] #[doc(hidden)] macro_rules! "@ + shim
            + " { "@ + arms + "(@mount ($principal:path) ($($marker:tt)*)) => { "@ + mounts
            + "}; } "@
    }
}

/// The entries of a placeable form.
pub open spec fn ok_entries(r: Result<Vec<String>, Vec<Diagnostic>>) -> Option<Seq<Seq<char>>> {
    match r {
        Ok(v) => Some(strs(v@)),
        Err(_) => None,
    }
}

fn form_arm_exec(tag: &str, src: &str, entries: &Vec<String>) -> (r: String)
    ensures
        r@ == form_arm(tag@, src@, strs(entries@)),
{
    let mut out = "(@".to_owned();
    push(&mut out, tag);
    push(&mut out, " $self_ty:ty) => { impl ");
    push(&mut out, src);
    push(&mut out, " for $self_ty { ");
    let body = spaced_strs(entries);
    push(&mut out, body.as_str());
    push(&mut out, "} }; ");
    assert(out@ =~= form_arm(tag@, src@, strs(entries@)));
    out
}

fn mount_impl_exec(form: ObjectForm, src: &str, entries: &Vec<String>) -> (r: String)
    ensures
        r@ == mount_impl(form, src@, strs(entries@)),
{
    let mut out = "impl ".to_owned();
    push(&mut out, src);
    push(&mut out, " for ");
    match form {
        ObjectForm::Bare => push(&mut out, "dyn $principal $($marker)*"),
        ObjectForm::Boxed => push(&mut out, "::std::boxed::Box<dyn $principal $($marker)*>"),
    }
    push(&mut out, " { ");
    let body = spaced_strs(entries);
    push(&mut out, body.as_str());
    push(&mut out, "} ");
    assert(out@ =~= mount_impl(form, src@, strs(entries@)));
    out
}

/// Build the shim's mount macro, which stamps `impl SourceTrait for <object>`
/// forwarding through the shim. It backs both the `reflexive` option and a
/// downstream `#[trait_object(Shim)]`. Only the forms whose entries are
/// placeable are emitted.
pub fn build_mount_macro(shim: &str, source_ref: &str, bare: &Result<Vec<String>, Vec<Diagnostic>>, boxed: &Result<Vec<String>, Vec<Diagnostic>>) -> (r: String)
    ensures
        r@ == mount_macro_spec(shim@, source_ref@, ok_entries(*bare), ok_entries(*boxed)),
{
    let mut arms = String::new();
    let mut mounts = String::new();
    match bare {
        Ok(es) => {
            let a = form_arm_exec("bare", source_ref, es);
            push(&mut arms, a.as_str());
            let m = mount_impl_exec(ObjectForm::Bare, source_ref, es);
            push(&mut mounts, m.as_str());
        },
        Err(_) => {},
    }
    match boxed {
        Ok(es) => {
            let a = form_arm_exec("boxed", source_ref, es);
            push(&mut arms, a.as_str());
            let m = mount_impl_exec(ObjectForm::Boxed, source_ref, es);
            push(&mut mounts, m.as_str());
        },
        Err(_) => {},
    }
    if bare.is_err() && boxed.is_err() {
        return String::new();
    }
    let mut out = "#[allow(non_local_definitions)] #[macro_export] #[doc(hidden)] macro_rules! ".to_owned();
    push(&mut out, shim);
    push(&mut out, " { ");
    push(&mut out, arms.as_str());
    push(&mut out, "(@mount ($principal:path) ($($marker:tt)*)) => { ");
    push(&mut out, mounts.as_str());
    push(&mut out, "}; } ");
    assert(out@ =~= mount_macro_spec(shim@, source_ref@, ok_entries(*bare), ok_entries(*boxed)));
    out
}

} // verus!
