//! Method selection: which source methods can be dispatched through a trait
//! object, the `#[dyn_shim(...)]` helper attributes that change that, and the
//! shape of a method's receiver.

use vstd::prelude::*;
use crate::model::{
    path_is_ident, ty_is_bare_self, AttrArgs, Attribute, Bound, BoundKind, FnArg,
    GenericArgument, GenericParam, NestedMeta, Path, PathArguments, Receiver, Signature,
    TraitItemFn, Ty, TyKind, WherePredicate,
};
use crate::text::str_eq;
use crate::visit::{self_or_impl, ty_finds, type_finds};

verus! {

// ---------------------------------------------------------------------------
// Reading paths and types.

/// Whether the path is the single identifier `id`.
pub fn is_ident(p: &Path, id: &str) -> (r: bool)
    ensures
        r == path_is_ident(*p, id@),
{
    if p.leading_colon || p.segments.len() != 1 {
        return false;
    }
    match &p.segments[0].args {
        PathArguments::Plain => str_eq(p.segments[0].ident.as_str(), id),
        _ => false,
    }
}

/// True if a type is exactly the bare `Self` path (not `&Self`, `Box<Self>`,
/// or another type that merely mentions it).
pub fn is_bare_self(ty: &Ty) -> (r: bool)
    ensures
        r == ty_is_bare_self(*ty),
{
    match &ty.kind {
        TyKind::Path { qself, path } => qself.is_none() && is_ident(path, "Self"),
        _ => false,
    }
}

/// The type is `Box<Self>` by any path spelling of `Box`: its last segment is
/// `Box` and one of its type arguments is the path `Self`.
pub open spec fn ty_is_box_self(t: Ty) -> bool {
    t.kind matches TyKind::Path { path, .. } && path.segments@.len() > 0 && {
        let last = path.segments@.last();
        &&& last.ident@ == "Box"@
        &&& last.args matches PathArguments::AngleBracketed(args) && exists|i: int|
            0 <= i < args@.len() && #[trigger] arg_is_self_path(args@[i])
    }
}

/// The generic argument is a type argument that is the path `Self`.
pub open spec fn arg_is_self_path(a: GenericArgument) -> bool {
    a matches GenericArgument::Type(t) && t.kind matches TyKind::Path { path, .. } && path_is_ident(
        path,
        "Self"@,
    )
}

/// True if a type is `Box<Self>` (by any path spelling of `Box`).
pub fn is_box_self(ty: &Ty) -> (r: bool)
    ensures
        r == ty_is_box_self(*ty),
{
    let path = match &ty.kind {
        TyKind::Path { path, .. } => path,
        _ => return false,
    };
    let n = path.segments.len();
    if n == 0 {
        return false;
    }
    let last = &path.segments[n - 1];
    if !str_eq(last.ident.as_str(), "Box") {
        return false;
    }
    let args = match &last.args {
        PathArguments::AngleBracketed(args) => args,
        _ => return false,
    };
    let mut i: usize = 0;
    while i < args.len()
        invariant
            i <= args.len(),
            forall|j: int| 0 <= j < i ==> !arg_is_self_path(#[trigger] args@[j]),
        decreases args.len() - i,
    {
        let hit = match &args[i] {
            GenericArgument::Type(t) => match &t.kind {
                TyKind::Path { path, .. } => is_ident(path, "Self"),
                _ => false,
            },
            _ => false,
        };
        if hit {
            assert(arg_is_self_path(args@[i as int]));
            assert(path.segments@.last() == *last);
            assert(last.ident@ == "Box"@);
            return true;
        }
        i += 1;
    }
    false
}

// ---------------------------------------------------------------------------
// Receivers.

/// How a forwarded method's receiver is shaped, for reflexive forwarding.
#[derive(Clone, Copy, PartialEq, Eq, Structural, Debug)]
pub enum ReceiverKind {
    /// By-value `self` (or the explicit `self: Self`).
    Value,
    /// `&self`.
    Ref,
    /// `&mut self`.
    RefMut,
    /// `self: Box<Self>`.
    Boxed,
    /// Any other typed receiver (`Rc<Self>`, `Arc<Self>`, `Pin<_>`, ...).
    Other,
}

/// The shape of a receiver.
pub open spec fn receiver_kind(r: Receiver) -> ReceiverKind {
    if r.reference {
        if r.mutable {
            ReceiverKind::RefMut
        } else {
            ReceiverKind::Ref
        }
    } else if !r.colon || ty_is_bare_self(r.ty) {
        ReceiverKind::Value
    } else if ty_is_box_self(r.ty) {
        ReceiverKind::Boxed
    } else {
        ReceiverKind::Other
    }
}

impl ReceiverKind {
    /// Classify a method's `self` receiver by its shape.
    pub fn of(recv: &Receiver) -> (k: ReceiverKind)
        ensures
            k == receiver_kind(*recv),
    {
        if recv.reference {
            if recv.mutable {
                ReceiverKind::RefMut
            } else {
                ReceiverKind::Ref
            }
        } else if !recv.colon || is_bare_self(&recv.ty) {
            ReceiverKind::Value
        } else if is_box_self(&recv.ty) {
            ReceiverKind::Boxed
        } else {
            ReceiverKind::Other
        }
    }
}

// ---------------------------------------------------------------------------
// Signature checks.

/// The first input is a `self` receiver.
pub open spec fn sig_has_receiver(sig: Signature) -> bool {
    sig.inputs@.len() > 0 && sig.inputs@[0] is Receiver
}

/// True if the first parameter is a `self` receiver (`&self`, `&mut self`,
/// by-value `self`, or a typed receiver such as `self: Box<Self>`).
pub fn has_self_receiver(sig: &Signature) -> (r: bool)
    ensures
        r == sig_has_receiver(*sig),
{
    sig.inputs.len() > 0 && match &sig.inputs[0] {
        FnArg::Receiver(_) => true,
        FnArg::Typed(_) => false,
    }
}

/// The method declares a generic type or const parameter.
pub open spec fn sig_has_type_or_const_generics(sig: Signature) -> bool {
    exists|i: int| 0 <= i < sig.params@.len() && !(#[trigger] sig.params@[i] is Lifetime)
}

/// True if the method declares a generic type or const parameter. Lifetime
/// parameters do not count, since they are forwarded as-is.
pub fn has_type_or_const_generics(sig: &Signature) -> (r: bool)
    ensures
        r == sig_has_type_or_const_generics(*sig),
{
    let mut i: usize = 0;
    while i < sig.params.len()
        invariant
            i <= sig.params.len(),
            forall|j: int| 0 <= j < i ==> (#[trigger] sig.params@[j] is Lifetime),
        decreases sig.params.len() - i,
    {
        match &sig.params[i] {
            GenericParam::Lifetime(_) => {},
            _ => {
                assert(!(sig.params@[i as int] is Lifetime));
                return true;
            },
        }
        i += 1;
    }
    false
}

/// The bound is a trait bound (with any modifier) whose path is `Sized`.
pub open spec fn bound_is_sized(b: Bound) -> bool {
    b.kind matches BoundKind::Trait { path, .. } && path_is_ident(path, "Sized"@)
}

/// The `where` predicate is `Self: ... + Sized + ...`.
pub open spec fn pred_requires_self_sized(p: WherePredicate) -> bool {
    p matches WherePredicate::Type { bounded, bounds, .. } && {
        &&& bounded.kind matches TyKind::Path { qself, path } && qself is None && path_is_ident(
            path,
            "Self"@,
        )
        &&& exists|j: int| 0 <= j < bounds@.len() && #[trigger] bound_is_sized(bounds@[j])
    }
}

/// The method's `where` clause requires `Self: Sized`.
pub open spec fn sig_requires_self_sized(sig: Signature) -> bool {
    exists|i: int|
        0 <= i < sig.where_clause@.len() && #[trigger] pred_requires_self_sized(
            sig.where_clause@[i],
        )
}

fn pred_requires_self_sized_exec(p: &WherePredicate) -> (r: bool)
    ensures
        r == pred_requires_self_sized(*p),
{
    let (bounded, bounds) = match p {
        WherePredicate::Type { bounded, bounds, .. } => (bounded, bounds),
        WherePredicate::Other(_) => return false,
    };
    let is_self = match &bounded.kind {
        TyKind::Path { qself, path } => qself.is_none() && is_ident(path, "Self"),
        _ => false,
    };
    if !is_self {
        return false;
    }
    let mut j: usize = 0;
    while j < bounds.len()
        invariant
            j <= bounds.len(),
            forall|k: int| 0 <= k < j ==> !bound_is_sized(#[trigger] bounds@[k]),
        decreases bounds.len() - j,
    {
        let hit = match &bounds[j].kind {
            BoundKind::Trait { path, .. } => is_ident(path, "Sized"),
            BoundKind::Other => false,
        };
        if hit {
            assert(bound_is_sized(bounds@[j as int]));
            assert(exists|k: int| 0 <= k < bounds@.len() && #[trigger] bound_is_sized(bounds@[k]));
            return true;
        }
        j += 1;
    }
    false
}

/// True if the method's `where` clause requires `Self: Sized`. Such a method is
/// excluded from the vtable, so it cannot be dispatched through the shim's
/// `dyn` type even though its signature is otherwise compatible.
pub fn requires_self_sized(sig: &Signature) -> (r: bool)
    ensures
        r == sig_requires_self_sized(*sig),
{
    let mut i: usize = 0;
    while i < sig.where_clause.len()
        invariant
            i <= sig.where_clause.len(),
            forall|k: int|
                0 <= k < i ==> !pred_requires_self_sized(#[trigger] sig.where_clause@[k]),
        decreases sig.where_clause.len() - i,
    {
        if pred_requires_self_sized_exec(&sig.where_clause[i]) {
            assert(pred_requires_self_sized(sig.where_clause@[i as int]));
            return true;
        }
        i += 1;
    }
    false
}

/// Input `i` is a typed argument whose type satisfies [`ty_finds`].
pub open spec fn input_finds(a: FnArg, fs: bool, fi: bool) -> bool {
    a matches FnArg::Typed(pt) && ty_finds(pt.ty, self_or_impl(fs, fi))
}

/// The return type or some input after the first satisfies [`ty_finds`].
pub open spec fn sig_any_finds(sig: Signature, fs: bool, fi: bool) -> bool {
    ||| sig.output matches Some(t) && ty_finds(t, self_or_impl(fs, fi))
    ||| exists|i: int|
        1 <= i < sig.inputs@.len() && #[trigger] input_finds(sig.inputs@[i], fs, fi)
}

/// A method that takes `Self` behind a reference in an argument after the
/// receiver (`other: &Self`, `other: &mut Self`) cannot be dispatched
/// through a trait object: it is skipped, for one reason or another, unless
/// it is a `#[dyn_shim(boxed)]` builder.
pub proof fn lemma_ref_self_argument_skipped(m: TraitItemFn, k: int)
    requires
        1 <= k < m.sig.inputs@.len(),
        m.sig.inputs@[k] matches FnArg::Typed(pt) && pt.ty.kind matches TyKind::Reference { elem, .. }
            && ty_is_bare_self(*elem),
        !(helper_of(m) matches Some(Helper::Boxed)),
    ensures
        skip_reason(m) is Some,
{
    let pt = m.sig.inputs@[k]->Typed_0;
    let elem = *pt.ty.kind->elem;
    let f = self_or_impl(true, false);
    crate::visit::lemma_self_segment_found(elem, f, 0);
    crate::visit::lemma_reference_transparent(pt.ty, f);
    assert(input_finds(m.sig.inputs@[k], true, false));
    assert(sig_any_finds(m.sig, true, false));
}

/// True if the return type or any argument type after the receiver mentions
/// `Self` (when `find_self`) or uses `impl Trait` (when `find_impl_trait`).
pub fn signature_any_type(sig: &Signature, find_self: bool, find_impl_trait: bool) -> (r: bool)
    ensures
        r == sig_any_finds(*sig, find_self, find_impl_trait),
{
    let return_bad = match &sig.output {
        Some(ty) => type_finds(ty, find_self, find_impl_trait),
        None => false,
    };
    if return_bad {
        return true;
    }
    let mut i: usize = 1;
    while i < sig.inputs.len()
        invariant
            1 <= i,
            i <= sig.inputs.len() || sig.inputs.len() == 0,
            forall|k: int|
                1 <= k < i && k < sig.inputs@.len() ==> !input_finds(
                    #[trigger] sig.inputs@[k],
                    find_self,
                    find_impl_trait,
                ),
        decreases sig.inputs.len() - i,
    {
        let hit = match &sig.inputs[i] {
            FnArg::Typed(pt) => type_finds(&pt.ty, find_self, find_impl_trait),
            FnArg::Receiver(_) => false,
        };
        if hit {
            assert(input_finds(sig.inputs@[i as int], find_self, find_impl_trait));
            return true;
        }
        i += 1;
    }
    false
}

/// True if the return type or any argument type mentions `Self`.
pub fn signature_mentions_self(sig: &Signature) -> (r: bool)
    ensures
        r == sig_any_finds(*sig, true, false),
{
    signature_any_type(sig, true, false)
}

/// True if the return type or any argument type uses `impl Trait`. Split from
/// the `Self` check because `#[dyn_shim(erase)]` can rescue `impl Trait` (by
/// lowering it to a trait object) but never `Self`.
pub fn signature_mentions_impl_trait(sig: &Signature) -> (r: bool)
    ensures
        r == sig_any_finds(*sig, false, true),
{
    signature_any_type(sig, false, true)
}

// ---------------------------------------------------------------------------
// The `#[dyn_shim(...)]` helper attribute on a method.

/// A `#[dyn_shim(...)]` helper attribute on a method.
pub enum Helper {
    /// `#[dyn_shim(skip)]`: leave the method off the shim entirely.
    Skip,
    /// `#[dyn_shim(erase)]`: lower the method's generic parameters (each bounded
    /// by a single trait and used only behind a reference) to `&dyn Bound` /
    /// `&mut dyn Bound` so the method enters the shim's vtable.
    Erase,
    /// `#[dyn_shim(boxed)]`: forward a `-> Self` builder by boxing its result
    /// into the shim's trait object.
    Boxed,
    /// A fallback body for a method that cannot forward through the shim, used
    /// in a reflexive impl: `#[dyn_shim(panic)]` is `Stub(None)`,
    /// `#[dyn_shim(stub = <expr>)]` is `Stub(Some(expr))`.
    Stub(Option<String>),
}

/// The message for an argument that is not one of the helper's names.
pub open spec fn msg_unsupported_arg() -> Seq<char> {
    "unsupported dyn_shim argument, expected `skip`, `panic`, `erase`, `boxed`, or `stub = <expr>`"@
}

/// The message for a helper list naming no argument.
pub open spec fn msg_no_helper() -> Seq<char> {
    "expected #[dyn_shim(skip)], #[dyn_shim(panic)], #[dyn_shim(erase)], #[dyn_shim(boxed)], or #[dyn_shim(stub = <expr>)]"@
}

/// Which helper one nested argument names, or why it names none.
pub open spec fn meta_helper(m: NestedMeta) -> Result<Helper, Seq<char>> {
    match m.ident {
        None => Err(msg_unsupported_arg()),
        Some(id) => if id@ == "skip"@ {
            Ok(Helper::Skip)
        } else if id@ == "panic"@ {
            Ok(Helper::Stub(None))
        } else if id@ == "erase"@ {
            Ok(Helper::Erase)
        } else if id@ == "boxed"@ {
            Ok(Helper::Boxed)
        } else if id@ == "stub"@ {
            match m.value {
                Some(v) => Ok(Helper::Stub(Some(v))),
                None => Err("expected `=`"@),
            }
        } else {
            Err(msg_unsupported_arg())
        },
    }
}

/// Whether tokens are left over after the helper a nested argument names: a
/// value or a list after any name but `stub`.
pub open spec fn meta_has_leftover(m: NestedMeta) -> bool {
    !(m.ident matches Some(id) && id@ == "stub"@) && (m.value is Some || m.list)
}

/// Read the nested arguments in order, keeping the single helper they name.
pub open spec fn helper_scan(ms: Seq<NestedMeta>) -> Result<Option<Helper>, Seq<char>>
    decreases ms.len(),
{
    if ms.len() == 0 {
        Ok(None)
    } else {
        match helper_scan(ms.drop_last()) {
            Err(e) => Err(e),
            Ok(found) => match meta_helper(ms.last()) {
                Err(e) => Err(e),
                Ok(h) => if found is Some {
                    Err("duplicate dyn_shim argument"@)
                } else if meta_has_leftover(ms.last()) {
                    Err("expected `,`"@)
                } else {
                    Ok(Some(h))
                },
            },
        }
    }
}

/// Once a prefix of the arguments fails to read, the whole list fails with
/// the same message.
proof fn lemma_helper_scan_err(ms: Seq<NestedMeta>, k: int)
    requires
        0 <= k <= ms.len(),
        helper_scan(ms.subrange(0, k)) is Err,
    ensures
        helper_scan(ms) == helper_scan(ms.subrange(0, k)),
    decreases ms.len() - k,
{
    if k < ms.len() {
        assert(ms.subrange(0, k + 1).drop_last() =~= ms.subrange(0, k));
        lemma_helper_scan_err(ms, k + 1);
    } else {
        assert(ms.subrange(0, k) =~= ms);
    }
}

/// What a `#[dyn_shim(...)]` attribute's arguments name: exactly one helper,
/// or the message explaining why they do not.
pub open spec fn helper_parse(args: AttrArgs) -> Result<Helper, Seq<char>> {
    match args {
        AttrArgs::NotList(msg) => Err(msg@),
        AttrArgs::Malformed(msg) => Err(msg@),
        AttrArgs::List(ms) => match helper_scan(ms@) {
            Err(e) => Err(e),
            Ok(None) => Err(msg_no_helper()),
            Ok(Some(h)) => Ok(h),
        },
    }
}

/// The attribute's name is the single identifier `dyn_shim`.
pub open spec fn attr_is_dyn_shim(a: Attribute) -> bool {
    a.ident matches Some(id) && id@ == "dyn_shim"@
}

/// Whether the attribute is named by the single identifier `name`.
pub fn attr_is(a: &Attribute, name: &str) -> (r: bool)
    ensures
        r == (a.ident matches Some(id) && id@ == name@),
{
    match &a.ident {
        Some(id) => str_eq(id.as_str(), name),
        None => false,
    }
}

/// Index of the first `#[dyn_shim]` attribute of the list, if any.
pub open spec fn first_dyn_shim_attr(attrs: Seq<Attribute>) -> Option<int> {
    if exists|i: int| 0 <= i < attrs.len() && #[trigger] attr_is_dyn_shim(attrs[i]) {
        Some(
            choose|i: int|
                0 <= i < attrs.len() && #[trigger] attr_is_dyn_shim(attrs[i]) && forall|j: int|
                    0 <= j < i ==> !attr_is_dyn_shim(#[trigger] attrs[j]),
        )
    } else {
        None
    }
}

/// The helper a method's first `#[dyn_shim(...)]` attribute names, if that
/// attribute parses.
pub open spec fn helper_of(m: TraitItemFn) -> Option<Helper> {
    match first_dyn_shim_attr(m.attrs@) {
        None => None,
        Some(i) => match helper_parse(m.attrs@[i].args) {
            Ok(h) => Some(h),
            Err(_) => None,
        },
    }
}

fn copy_string(s: &String) -> (r: String)
    ensures
        r == *s,
{
    s.clone()
}

impl Helper {
    /// Parse a method's `#[dyn_shim(...)]` attribute, which must carry exactly
    /// one supported argument.
    pub fn parse(attr: &Attribute) -> (r: Result<Helper, String>)
        ensures
            match r {
                Ok(h) => helper_parse(attr.args) == Ok::<Helper, Seq<char>>(h),
                Err(m) => helper_parse(attr.args) == Err::<Helper, Seq<char>>(m@),
            },
    {
        let ms = match &attr.args {
            AttrArgs::NotList(msg) => return Err(copy_string(msg)),
            AttrArgs::Malformed(msg) => return Err(copy_string(msg)),
            AttrArgs::List(ms) => ms,
        };
        let mut found: Option<Helper> = None;
        let mut i: usize = 0;
        while i < ms.len()
            invariant
                i <= ms.len(),
                helper_scan(ms@.subrange(0, i as int)) == Ok::<Option<Helper>, Seq<char>>(found),
            decreases ms.len() - i,
        {
            let m = &ms[i];
            assert(ms@.subrange(0, i + 1).drop_last() =~= ms@.subrange(0, i as int));
            let which: Helper = match &m.ident {
                None => {
                    proof {
                        lemma_helper_scan_err(ms@, i + 1);
                    }
                    return Err(unsupported_arg_message());
                },
                Some(id) => {
                    if str_eq(id.as_str(), "skip") {
                        Helper::Skip
                    } else if str_eq(id.as_str(), "panic") {
                        Helper::Stub(None)
                    } else if str_eq(id.as_str(), "erase") {
                        Helper::Erase
                    } else if str_eq(id.as_str(), "boxed") {
                        Helper::Boxed
                    } else if str_eq(id.as_str(), "stub") {
                        match &m.value {
                            Some(v) => Helper::Stub(Some(copy_string(v))),
                            None => {
                                proof {
                                    lemma_helper_scan_err(ms@, i + 1);
                                }
                                return Err("expected `=`".to_owned());
                            },
                        }
                    } else {
                        proof {
                            lemma_helper_scan_err(ms@, i + 1);
                        }
                        return Err(unsupported_arg_message());
                    }
                },
            };
            assert(meta_helper(*m) == Ok::<Helper, Seq<char>>(which));
            if found.is_some() {
                proof {
                    lemma_helper_scan_err(ms@, i + 1);
                }
                return Err("duplicate dyn_shim argument".to_owned());
            }
            let is_stub = match &m.ident {
                Some(id) => str_eq(id.as_str(), "stub"),
                None => false,
            };
            if !is_stub && (m.value.is_some() || m.list) {
                proof {
                    lemma_helper_scan_err(ms@, i + 1);
                }
                return Err("expected `,`".to_owned());
            }
            found = Some(which);
            i += 1;
        }
        assert(ms@.subrange(0, ms.len() as int) =~= ms@);
        match found {
            Some(h) => Ok(h),
            None => Err(
                "expected #[dyn_shim(skip)], #[dyn_shim(panic)], #[dyn_shim(erase)], #[dyn_shim(boxed)], or #[dyn_shim(stub = <expr>)]".to_owned(),
            ),
        }
    }

    /// The helper argument on a method's `#[dyn_shim(...)]` attribute, if any.
    pub fn of(method: &TraitItemFn) -> (r: Option<Helper>)
        ensures
            r == helper_of(*method),
    {
        let mut i: usize = 0;
        while i < method.attrs.len()
            invariant
                i <= method.attrs.len(),
                forall|j: int| 0 <= j < i ==> !attr_is_dyn_shim(#[trigger] method.attrs@[j]),
            decreases method.attrs.len() - i,
        {
            if attr_is(&method.attrs[i], "dyn_shim") {
                assert(attr_is_dyn_shim(method.attrs@[i as int]));
                let ghost k = first_dyn_shim_attr(method.attrs@).unwrap();
                assert(k == i) by {
                    if k < i {
                        assert(!attr_is_dyn_shim(method.attrs@[k]));
                    } else if k > i {
                        assert(!attr_is_dyn_shim(method.attrs@[i as int]));
                    }
                }
                return match Helper::parse(&method.attrs[i]) {
                    Ok(h) => Some(h),
                    Err(_) => None,
                };
            }
            i += 1;
        }
        None
    }
}

fn unsupported_arg_message() -> (r: String)
    ensures
        r@ == msg_unsupported_arg(),
{
    "unsupported dyn_shim argument, expected `skip`, `panic`, `erase`, `boxed`, or `stub = <expr>`".to_owned()
}

// ---------------------------------------------------------------------------
// Method selection.

/// Why a method cannot be forwarded into the shim, or `None` when it can.
pub open spec fn skip_reason(m: TraitItemFn) -> Option<Seq<char>> {
    let helper = helper_of(m);
    let erasing = helper matches Some(Helper::Erase);
    let boxing = helper matches Some(Helper::Boxed);
    if helper matches Some(Helper::Skip) {
        Some("opted out with #[dyn_shim(skip)]"@)
    } else if m.sig.asyncness {
        Some("async fn"@)
    } else if !sig_has_receiver(m.sig) {
        Some("no self receiver"@)
    } else if sig_has_type_or_const_generics(m.sig) && !erasing {
        Some("generic type or const parameter"@)
    } else if sig_requires_self_sized(m.sig) {
        Some("requires Self: Sized"@)
    } else if sig_any_finds(m.sig, true, false) && !boxing {
        Some("mentions Self"@)
    } else if sig_any_finds(m.sig, false, true) && !erasing {
        Some("uses impl Trait"@)
    } else {
        None
    }
}

/// If a method cannot be dispatched through a trait object, return a short
/// reason it is skipped. Return `None` when the method is forwarded.
pub fn skip(method: &TraitItemFn) -> (r: Option<&'static str>)
    ensures
        match r {
            Some(s) => skip_reason(*method) == Some(s@),
            None => skip_reason(*method) is None,
        },
{
    let sig = &method.sig;
    let helper = Helper::of(method);
    let erasing = matches!(helper, Some(Helper::Erase));
    let boxing = matches!(helper, Some(Helper::Boxed));
    if matches!(helper, Some(Helper::Skip)) {
        Some("opted out with #[dyn_shim(skip)]")
    } else if sig.asyncness {
        Some("async fn")
    } else if !has_self_receiver(sig) {
        Some("no self receiver")
    } else if has_type_or_const_generics(sig) && !erasing {
        Some("generic type or const parameter")
    } else if requires_self_sized(sig) {
        Some("requires Self: Sized")
    } else if signature_mentions_self(sig) && !boxing {
        Some("mentions Self")
    } else if signature_mentions_impl_trait(sig) && !erasing {
        Some("uses impl Trait")
    } else {
        None
    }
}

/// The method is provided by a foreign-form shim itself: it has a default
/// body and there is no source trait to hold it.
pub open spec fn method_is_provided(m: TraitItemFn, reemit: bool) -> bool {
    !reemit && m.default is Some
}

/// A shim method that carries its own body, so it is *provided* by the shim
/// rather than forwarded to the source trait. Only in the foreign form; in the
/// local form a default body lives on the re-emitted source trait.
pub fn is_provided(method: &TraitItemFn, reemit: bool) -> (r: bool)
    ensures
        r == method_is_provided(*method, reemit),
{
    !reemit && method.default.is_some()
}

} // verus!
