//! The bound list of an attribute: which std traits are recognized, which are
//! auto-trait markers, which are rejected, and the marker combinations the
//! recognized-bound machinery covers.

use vstd::prelude::*;
use crate::model::{path_is_single_ident, Bound, BoundKind, Path, PathArguments, Site};
use crate::text::{push, str_eq};

verus! {

/// Which trait-object form an impl lands on: the bare unsized `dyn X` or the
/// sized `Box<dyn X>`.
#[derive(Clone, Copy, PartialEq, Eq, Structural, Debug)]
pub enum ObjectForm {
    /// `dyn X`.
    Bare,
    /// `Box<dyn X>`.
    Boxed,
}

/// The trait-object type a form names for `principal` carrying `markers`.
pub open spec fn object_ty(form: ObjectForm, principal: Seq<char>, markers: Seq<char>) -> Seq<char> {
    match form {
        ObjectForm::Bare => "dyn "@ + principal + markers,
        ObjectForm::Boxed => "::std::boxed::Box<dyn "@ + principal + markers + ">"@,
    }
}

impl ObjectForm {
    /// The trait-object type this form names for `principal` carrying `markers`:
    /// `dyn principal markers` (bare) or `Box<dyn principal markers>` (boxed).
    /// `Box` is named by absolute path so the expansion does not depend on what
    /// `Box` resolves to at the call site.
    pub fn ty(self, principal: &str, markers: &str) -> (r: String)
        ensures
            r@ == object_ty(self, principal@, markers@),
    {
        let mut out = String::new();
        match self {
            ObjectForm::Bare => {
                push(&mut out, "dyn ");
                push(&mut out, principal);
                push(&mut out, markers);
            },
            ObjectForm::Boxed => {
                push(&mut out, "::std::boxed::Box<dyn ");
                push(&mut out, principal);
                push(&mut out, markers);
                push(&mut out, ">");
            },
        }
        assert(out@ =~= object_ty(self, principal@, markers@));
        out
    }
}

/// A std trait recognized in the bounds list (`Clone`, `Hash`). It cannot be a
/// supertrait of a dyn-compatible trait, so the generator implements it for
/// the shim's trait objects instead.
#[derive(Clone, Copy, PartialEq, Eq, Structural, Debug)]
pub enum RecognizedBound {
    Clone,
    Hash,
}

/// Which crate features of the shipped carriers are enabled: with `dyn_clone`
/// (`dyn_hash`) a recognized `Clone` (`Hash`) bound also makes the shim a
/// subtrait of the standalone `DynClone` (`DynHash`).
#[derive(Clone, Copy, PartialEq, Eq, Structural, Debug)]
pub struct Features {
    pub dyn_clone: bool,
    pub dyn_hash: bool,
}

/// The absolute path of a recognized bound's std trait.
pub open spec fn impl_bound_text(k: RecognizedBound) -> Seq<char> {
    match k {
        RecognizedBound::Clone => "::std::clone::Clone"@,
        RecognizedBound::Hash => "::std::hash::Hash"@,
    }
}

/// The doc line naming a recognized bound's capability on `shim`.
pub open spec fn doc_line_text(k: RecognizedBound, shim: Seq<char>) -> Seq<char> {
    match k {
        RecognizedBound::Clone => "`Box<dyn "@ + shim + ">` implements [`Clone`], and `dyn "@ + shim
            + "` implements [`ToOwned`], both cloning the underlying concrete value."@,
        RecognizedBound::Hash => "`dyn "@ + shim
            + "` implements [`Hash`], hashing like the underlying concrete value."@,
    }
}

/// The standalone carrier a recognized bound adds as a supertrait under the
/// matching feature.
pub open spec fn dyn_supertrait_text(k: RecognizedBound, f: Features) -> Option<Seq<char>> {
    match k {
        RecognizedBound::Clone => if f.dyn_clone {
            Some("::dyn_shim::DynClone"@)
        } else {
            None
        },
        RecognizedBound::Hash => if f.dyn_hash {
            Some("::dyn_shim::DynHash"@)
        } else {
            None
        },
    }
}

impl RecognizedBound {
    /// The absolute path this bound adds to the blanket impl: the proxy
    /// methods need the implementor to actually be `Clone`/`Hash`.
    pub fn impl_bound(self) -> (r: &'static str)
        ensures
            r@ == impl_bound_text(self),
    {
        match self {
            RecognizedBound::Clone => "::std::clone::Clone",
            RecognizedBound::Hash => "::std::hash::Hash",
        }
    }

    /// The line added to the generated shim's docs naming the capability.
    pub fn doc_line(self, shim: &str) -> (r: String)
        ensures
            r@ == doc_line_text(self, shim@),
    {
        let mut out = String::new();
        match self {
            RecognizedBound::Clone => {
                push(&mut out, "`Box<dyn ");
                push(&mut out, shim);
                push(&mut out, ">` implements [`Clone`], and `dyn ");
                push(&mut out, shim);
                push(
                    &mut out,
                    "` implements [`ToOwned`], both cloning the underlying concrete value.",
                );
            },
            RecognizedBound::Hash => {
                push(&mut out, "`dyn ");
                push(&mut out, shim);
                push(&mut out, "` implements [`Hash`], hashing like the underlying concrete value.");
            },
        }
        assert(out@ =~= doc_line_text(self, shim@));
        out
    }

    /// The standalone shim trait to add as a supertrait of a recognized-bound
    /// shim, so that shim's `dyn` type upcasts into the standalone one. Only
    /// when the matching feature is enabled; `None` otherwise.
    pub fn dyn_supertrait(self, features: Features) -> (r: Option<&'static str>)
        ensures
            match r {
                Some(s) => dyn_supertrait_text(self, features) == Some(s@),
                None => dyn_supertrait_text(self, features) is None,
            },
    {
        match self {
            RecognizedBound::Clone => if features.dyn_clone {
                Some("::dyn_shim::DynClone")
            } else {
                None
            },
            RecognizedBound::Hash => if features.dyn_hash {
                Some("::dyn_shim::DynHash")
            } else {
                None
            },
        }
    }
}

/// A std auto trait recognized in a bound list by its bare name. A listed auto
/// trait passes through as a supertrait; in addition it selects which
/// `dyn Shim + markers` types receive the recognized-bound machinery.
#[derive(Clone, Copy, PartialEq, Eq, Structural, Debug)]
pub enum AutoTrait {
    Send,
    Sync,
    Unpin,
    UnwindSafe,
    RefUnwindSafe,
}

/// The snake-case name an auto trait contributes to a marker-combination
/// suffix.
pub open spec fn suffix_text(a: AutoTrait) -> Seq<char> {
    match a {
        AutoTrait::Send => "send"@,
        AutoTrait::Sync => "sync"@,
        AutoTrait::Unpin => "unpin"@,
        AutoTrait::UnwindSafe => "unwind_safe"@,
        AutoTrait::RefUnwindSafe => "ref_unwind_safe"@,
    }
}

/// A character allowed in a method-name suffix: a lowercase ASCII letter or
/// `_`.
pub open spec fn snake_char(c: char) -> bool {
    ('a' <= c && c <= 'z') || c == '_'
}

/// A suffix fit to join with `_`: non-empty, made of lowercase letters and
/// `_`, neither starting nor ending with `_`.
pub open spec fn suffix_shape(s: Seq<char>) -> bool {
    &&& s.len() > 0
    &&& s[0] != '_'
    &&& s[s.len() - 1] != '_'
    &&& forall|i: int| 0 <= i < s.len() ==> snake_char(#[trigger] s[i])
}

/// Each auto trait's suffix is well formed, and distinct auto traits have
/// distinct suffixes.
pub proof fn lemma_suffix_shape(a: AutoTrait, b: AutoTrait)
    ensures
        suffix_shape(suffix_text(a)),
        a != b ==> suffix_text(a) != suffix_text(b),
{
    reveal_strlit("send");
    reveal_strlit("sync");
    reveal_strlit("unpin");
    reveal_strlit("unwind_safe");
    reveal_strlit("ref_unwind_safe");
    assert(suffix_text(a).len() > 0);
    assert(forall|i: int| 0 <= i < suffix_text(a).len() ==> snake_char(#[trigger] suffix_text(a)[i]));
    if a != b {
        if suffix_text(a).len() == suffix_text(b).len() {
            assert(suffix_text(a)[1] != suffix_text(b)[1]);
        }
    }
}

/// How many times `c` occurs in `s`.
pub open spec fn count_char(s: Seq<char>, c: char) -> int
    decreases s.len(),
{
    if s.len() == 0 {
        0
    } else {
        count_char(s.drop_last(), c) + if s.last() == c {
            1int
        } else {
            0int
        }
    }
}

proof fn lemma_count_add(x: Seq<char>, y: Seq<char>, c: char)
    ensures
        count_char(x + y, c) == count_char(x, c) + count_char(y, c),
    decreases y.len(),
{
    if y.len() > 0 {
        assert((x + y).drop_last() =~= x + y.drop_last());
        lemma_count_add(x, y.drop_last(), c);
    }
}

/// A count of letters that tells whether `b`'s suffix is among the `_`-joined
/// suffixes of a marker combination: it is 1 on `_` followed by `b`'s suffix
/// and 0 on `_` followed by any other auto trait's suffix.
pub open spec fn indicator(b: AutoTrait, s: Seq<char>) -> int {
    match b {
        AutoTrait::Send => count_char(s, 'd') - count_char(s, 'w'),
        AutoTrait::Sync => count_char(s, 'y'),
        AutoTrait::Unpin => count_char(s, 'p'),
        AutoTrait::UnwindSafe => count_char(s, 'w') - count_char(s, 'r'),
        AutoTrait::RefUnwindSafe => count_char(s, 'r'),
    }
}

proof fn lemma_indicator_add(b: AutoTrait, x: Seq<char>, y: Seq<char>)
    ensures
        indicator(b, x + y) == indicator(b, x) + indicator(b, y),
{
    lemma_count_add(x, y, 'd');
    lemma_count_add(x, y, 'w');
    lemma_count_add(x, y, 'y');
    lemma_count_add(x, y, 'p');
    lemma_count_add(x, y, 'r');
}

proof fn lemma_indicator_token(a: AutoTrait, b: AutoTrait)
    ensures
        indicator(b, "_"@ + suffix_text(a)) == if a == b {
            1int
        } else {
            0int
        },
{
    reveal_strlit("_");
    reveal_strlit("send");
    reveal_strlit("sync");
    reveal_strlit("unpin");
    reveal_strlit("unwind_safe");
    reveal_strlit("ref_unwind_safe");
    let t = "_"@ + suffix_text(a);
    reveal_with_fuel(count_char, 17);
    assert(t =~= match a {
        AutoTrait::Send => seq!['_', 's', 'e', 'n', 'd'],
        AutoTrait::Sync => seq!['_', 's', 'y', 'n', 'c'],
        AutoTrait::Unpin => seq!['_', 'u', 'n', 'p', 'i', 'n'],
        AutoTrait::UnwindSafe => seq!['_', 'u', 'n', 'w', 'i', 'n', 'd', '_', 's', 'a', 'f', 'e'],
        AutoTrait::RefUnwindSafe => seq![
            '_', 'r', 'e', 'f', '_', 'u', 'n', 'w', 'i', 'n', 'd', '_', 's', 'a', 'f', 'e',
        ],
    });
}

/// The absolute path of an auto trait.
pub open spec fn auto_path_text(a: AutoTrait) -> Seq<char> {
    match a {
        AutoTrait::Send => "::std::marker::Send"@,
        AutoTrait::Sync => "::std::marker::Sync"@,
        AutoTrait::Unpin => "::std::marker::Unpin"@,
        AutoTrait::UnwindSafe => "::std::panic::UnwindSafe"@,
        AutoTrait::RefUnwindSafe => "::std::panic::RefUnwindSafe"@,
    }
}

impl AutoTrait {
    /// The method-name suffix for a marker combination containing this trait.
    pub fn suffix(self) -> (r: &'static str)
        ensures
            r@ == suffix_text(self),
    {
        match self {
            AutoTrait::Send => "send",
            AutoTrait::Sync => "sync",
            AutoTrait::Unpin => "unpin",
            AutoTrait::UnwindSafe => "unwind_safe",
            AutoTrait::RefUnwindSafe => "ref_unwind_safe",
        }
    }

    /// The absolute path of this auto trait.
    pub fn path(self) -> (r: &'static str)
        ensures
            r@ == auto_path_text(self),
    {
        match self {
            AutoTrait::Send => "::std::marker::Send",
            AutoTrait::Sync => "::std::marker::Sync",
            AutoTrait::Unpin => "::std::marker::Unpin",
            AutoTrait::UnwindSafe => "::std::panic::UnwindSafe",
            AutoTrait::RefUnwindSafe => "::std::panic::RefUnwindSafe",
        }
    }
}

/// A std name recognized in a bound list only to be rejected.
#[derive(Clone, Copy, PartialEq, Eq, Structural, Debug)]
pub enum RejectedBound {
    Copy,
    Sized,
    Default,
    PartialEq,
    Eq,
    PartialOrd,
    Ord,
}

/// The targeted message for a rejected bound.
pub open spec fn rejected_message(r: RejectedBound) -> Seq<char> {
    match r {
        RejectedBound::Copy => "trait objects are unsized and can never be `Copy` (use a `Clone` bound to make the shim's boxes cloneable)"@,
        RejectedBound::Sized => "trait objects are unsized, so the shim's `dyn` type can never be `Sized`"@,
        RejectedBound::Default => "`Default` has no `self` receiver and cannot be dispatched through a trait object (construct values as concrete types and box them)"@,
        RejectedBound::PartialEq => "`PartialEq` is not yet a recognized bound (cross-type equality on trait objects needs an `Any` downcast the macro does not generate)"@,
        RejectedBound::Eq => "`Eq` is not yet a recognized bound (cross-type equality on trait objects needs an `Any` downcast the macro does not generate)"@,
        RejectedBound::PartialOrd => "`PartialOrd` is not supported: the macro cannot define an order between different implementor types (sort with `sort_by_key` or implement the comparison traits for the shim's `dyn` type by hand)"@,
        RejectedBound::Ord => "`Ord` is not supported: the macro cannot define a total order between different implementor types (sort with `sort_by_key` or implement the comparison traits for the shim's `dyn` type by hand)"@,
    }
}

impl RejectedBound {
    /// The targeted message explaining why the bound cannot be shimmed.
    pub fn message(self) -> (r: &'static str)
        ensures
            r@ == rejected_message(self),
    {
        match self {
            RejectedBound::Copy => "trait objects are unsized and can never be `Copy` (use a `Clone` bound to make the shim's boxes cloneable)",
            RejectedBound::Sized => "trait objects are unsized, so the shim's `dyn` type can never be `Sized`",
            RejectedBound::Default => "`Default` has no `self` receiver and cannot be dispatched through a trait object (construct values as concrete types and box them)",
            RejectedBound::PartialEq => "`PartialEq` is not yet a recognized bound (cross-type equality on trait objects needs an `Any` downcast the macro does not generate)",
            RejectedBound::Eq => "`Eq` is not yet a recognized bound (cross-type equality on trait objects needs an `Any` downcast the macro does not generate)",
            RejectedBound::PartialOrd => "`PartialOrd` is not supported: the macro cannot define an order between different implementor types (sort with `sort_by_key` or implement the comparison traits for the shim's `dyn` type by hand)",
            RejectedBound::Ord => "`Ord` is not supported: the macro cannot define a total order between different implementor types (sort with `sort_by_key` or implement the comparison traits for the shim's `dyn` type by hand)",
        }
    }
}

/// How one bound in the list is treated, decided by a single token match on
/// its bare name.
#[derive(Clone, Copy, PartialEq, Eq, Structural, Debug)]
pub enum Classified {
    /// A std trait implemented for the shim's trait objects (`Clone`, `Hash`).
    Recognized(RecognizedBound),
    /// An auto trait: passes through and selects marker combinations.
    Auto(AutoTrait),
    /// A std name rejected with a targeted message.
    Rejected(RejectedBound),
    /// Anything else: passed through to rustc as a supertrait.
    PassThrough,
}

/// The bound's trait path, if the bound is a plain trait name with no modifier
/// or binder.
pub open spec fn plain_path(b: Bound) -> Option<Path> {
    match b.kind {
        BoundKind::Trait { modifier, binder, path } => if !modifier && !binder {
            Some(path)
        } else {
            None
        },
        BoundKind::Other => None,
    }
}

/// The bound's trait path, if the bound is a plain trait name with no
/// modifier or binder. A modified or higher-ranked bound (`?Sized`,
/// `for<'a> Fn(&'a str)`) passes through for rustc to judge.
pub fn plain_trait_bound(bound: &Bound) -> (r: Option<&Path>)
    ensures
        match r {
            Some(p) => plain_path(*bound) == Some(*p),
            None => plain_path(*bound) is None,
        },
{
    match &bound.kind {
        BoundKind::Trait { modifier, binder, path } => if !*modifier && !*binder {
            Some(path)
        } else {
            None
        },
        BoundKind::Other => None,
    }
}

/// The bound's bare name: the single identifier of its plain trait path.
pub open spec fn bare_name(b: Bound) -> Option<Seq<char>> {
    match plain_path(b) {
        Some(p) => if path_is_single_ident(p) {
            Some(p.segments@[0].ident@)
        } else {
            None
        },
        None => None,
    }
}

/// The classification of a bare name.
pub open spec fn classify_name(n: Seq<char>) -> Classified {
    if n == "Clone"@ {
        Classified::Recognized(RecognizedBound::Clone)
    } else if n == "Hash"@ {
        Classified::Recognized(RecognizedBound::Hash)
    } else if n == "Send"@ {
        Classified::Auto(AutoTrait::Send)
    } else if n == "Sync"@ {
        Classified::Auto(AutoTrait::Sync)
    } else if n == "Unpin"@ {
        Classified::Auto(AutoTrait::Unpin)
    } else if n == "UnwindSafe"@ {
        Classified::Auto(AutoTrait::UnwindSafe)
    } else if n == "RefUnwindSafe"@ {
        Classified::Auto(AutoTrait::RefUnwindSafe)
    } else if n == "Copy"@ {
        Classified::Rejected(RejectedBound::Copy)
    } else if n == "Sized"@ {
        Classified::Rejected(RejectedBound::Sized)
    } else if n == "Default"@ {
        Classified::Rejected(RejectedBound::Default)
    } else if n == "PartialEq"@ {
        Classified::Rejected(RejectedBound::PartialEq)
    } else if n == "Eq"@ {
        Classified::Rejected(RejectedBound::Eq)
    } else if n == "PartialOrd"@ {
        Classified::Rejected(RejectedBound::PartialOrd)
    } else if n == "Ord"@ {
        Classified::Rejected(RejectedBound::Ord)
    } else {
        Classified::PassThrough
    }
}

/// The classification of a bound: by its bare name, or pass-through when it
/// has none.
pub open spec fn classify_bound(b: Bound) -> Classified {
    match bare_name(b) {
        Some(n) => classify_name(n),
        None => Classified::PassThrough,
    }
}

impl Classified {
    /// Classify one bound by its bare name. Every recognized, auto, and
    /// rejected name lives in exactly one arm, so the categories cannot
    /// overlap. A path-form bound (`std::clone::Clone`) is not classified (it
    /// falls through to `PassThrough`), and a user-defined trait that happens
    /// to share one of these names is treated as the std one.
    pub fn of(bound: &Bound) -> (r: Classified)
        ensures
            r == classify_bound(*bound),
    {
        let path = match plain_trait_bound(bound) {
            Some(p) => p,
            None => return Classified::PassThrough,
        };
        if path.leading_colon || path.segments.len() != 1 {
            return Classified::PassThrough;
        }
        match &path.segments[0].args {
            PathArguments::Plain => {},
            _ => return Classified::PassThrough,
        }
        let n = path.segments[0].ident.as_str();
        if str_eq(n, "Clone") {
            Classified::Recognized(RecognizedBound::Clone)
        } else if str_eq(n, "Hash") {
            Classified::Recognized(RecognizedBound::Hash)
        } else if str_eq(n, "Send") {
            Classified::Auto(AutoTrait::Send)
        } else if str_eq(n, "Sync") {
            Classified::Auto(AutoTrait::Sync)
        } else if str_eq(n, "Unpin") {
            Classified::Auto(AutoTrait::Unpin)
        } else if str_eq(n, "UnwindSafe") {
            Classified::Auto(AutoTrait::UnwindSafe)
        } else if str_eq(n, "RefUnwindSafe") {
            Classified::Auto(AutoTrait::RefUnwindSafe)
        } else if str_eq(n, "Copy") {
            Classified::Rejected(RejectedBound::Copy)
        } else if str_eq(n, "Sized") {
            Classified::Rejected(RejectedBound::Sized)
        } else if str_eq(n, "Default") {
            Classified::Rejected(RejectedBound::Default)
        } else if str_eq(n, "PartialEq") {
            Classified::Rejected(RejectedBound::PartialEq)
        } else if str_eq(n, "Eq") {
            Classified::Rejected(RejectedBound::Eq)
        } else if str_eq(n, "PartialOrd") {
            Classified::Rejected(RejectedBound::PartialOrd)
        } else if str_eq(n, "Ord") {
            Classified::Rejected(RejectedBound::Ord)
        } else {
            Classified::PassThrough
        }
    }
}

// ---------------------------------------------------------------------------
// Splitting a bound list.

/// The bound list split by [`Classified::of`]. `recognized` and `autos` are
/// deduplicated in listing order. `supertraits` indexes the auto-trait and
/// pass-through bounds in listing order, ready to re-emit as a shim's
/// supertraits. `passthrough` indexes just the plain pass-through bounds.
/// `rejected` pairs the index of each known-impossible bound with its kind,
/// in listing order.
pub struct ClassifiedBounds {
    pub recognized: Vec<RecognizedBound>,
    pub autos: Vec<AutoTrait>,
    pub supertraits: Vec<usize>,
    pub passthrough: Vec<usize>,
    pub rejected: Vec<(usize, RejectedBound)>,
}

/// The mathematical content of a [`ClassifiedBounds`].
pub struct ClassifiedSpec {
    pub recognized: Seq<RecognizedBound>,
    pub autos: Seq<AutoTrait>,
    pub supertraits: Seq<usize>,
    pub passthrough: Seq<usize>,
    pub rejected: Seq<(usize, RejectedBound)>,
}

impl View for ClassifiedBounds {
    type V = ClassifiedSpec;

    open spec fn view(&self) -> ClassifiedSpec {
        ClassifiedSpec {
            recognized: self.recognized@,
            autos: self.autos@,
            supertraits: self.supertraits@,
            passthrough: self.passthrough@,
            rejected: self.rejected@,
        }
    }
}

/// Add `x` to `s` unless it is already there.
pub open spec fn push_new<A>(s: Seq<A>, x: A) -> Seq<A> {
    if s.contains(x) {
        s
    } else {
        s.push(x)
    }
}

/// The classification of the first `n` bounds of a list.
pub open spec fn classify_prefix(bs: Seq<Bound>, n: nat) -> ClassifiedSpec
    decreases n,
{
    if n == 0 || n > bs.len() {
        ClassifiedSpec {
            recognized: seq![],
            autos: seq![],
            supertraits: seq![],
            passthrough: seq![],
            rejected: seq![],
        }
    } else {
        let prev = classify_prefix(bs, (n - 1) as nat);
        let i = (n - 1) as usize;
        match classify_bound(bs[n - 1]) {
            Classified::Recognized(k) => ClassifiedSpec {
                recognized: push_new(prev.recognized, k),
                ..prev
            },
            Classified::Auto(a) => ClassifiedSpec {
                autos: push_new(prev.autos, a),
                supertraits: prev.supertraits.push(i),
                ..prev
            },
            Classified::Rejected(r) => ClassifiedSpec {
                rejected: prev.rejected.push((i, r)),
                ..prev
            },
            Classified::PassThrough => ClassifiedSpec {
                supertraits: prev.supertraits.push(i),
                passthrough: prev.passthrough.push(i),
                ..prev
            },
        }
    }
}

/// The classification of a whole bound list.
pub open spec fn classify_all(bs: Seq<Bound>) -> ClassifiedSpec {
    classify_prefix(bs, bs.len())
}

impl ClassifiedBounds {
    /// Split a bound list by [`Classified::of`]. Duplicates are dropped
    /// silently, matching the language's own tolerance of `trait Foo: A + A`.
    pub fn classify(bounds: &Vec<Bound>) -> (r: ClassifiedBounds)
        requires
            bounds.len() < usize::MAX,
        ensures
            r@ == classify_all(bounds@),
    {
        let mut recognized: Vec<RecognizedBound> = Vec::new();
        let mut autos: Vec<AutoTrait> = Vec::new();
        let mut supertraits: Vec<usize> = Vec::new();
        let mut passthrough: Vec<usize> = Vec::new();
        let mut rejected: Vec<(usize, RejectedBound)> = Vec::new();
        let mut i: usize = 0;
        while i < bounds.len()
            invariant
                i <= bounds.len(),
                (ClassifiedSpec {
                    recognized: recognized@,
                    autos: autos@,
                    supertraits: supertraits@,
                    passthrough: passthrough@,
                    rejected: rejected@,
                }) == classify_prefix(bounds@, i as nat),
            decreases bounds.len() - i,
        {
            match Classified::of(&bounds[i]) {
                Classified::Recognized(k) => {
                    if !contains_recognized(&recognized, k) {
                        recognized.push(k);
                    }
                },
                Classified::Auto(a) => {
                    if !contains_auto(&autos, a) {
                        autos.push(a);
                    }
                    supertraits.push(i);
                },
                Classified::Rejected(r) => {
                    rejected.push((i, r));
                },
                Classified::PassThrough => {
                    supertraits.push(i);
                    passthrough.push(i);
                },
            }
            i += 1;
        }
        ClassifiedBounds { recognized, autos, supertraits, passthrough, rejected }
    }
}

/// Adding an element that is not yet there keeps a list free of duplicates.
proof fn lemma_push_new_no_dup<A>(s: Seq<A>, x: A)
    requires
        s.no_duplicates(),
    ensures
        push_new(s, x).no_duplicates(),
{
    if !s.contains(x) {
        let t = s.push(x);
        assert forall|i: int, j: int| 0 <= i < t.len() && 0 <= j < t.len() && i != j implies t[i]
            != t[j] by {
            if i < s.len() && j < s.len() {
                assert(t[i] == s[i] && t[j] == s[j]);
            } else if i == s.len() {
                assert(t[j] == s[j]);
            } else {
                assert(t[i] == s[i]);
            }
        }
    }
}

/// The recognized bounds and the auto traits of a classified list are each
/// free of duplicates.
pub proof fn lemma_classified_distinct(bs: Seq<Bound>, n: nat)
    ensures
        classify_prefix(bs, n).recognized.no_duplicates(),
        classify_prefix(bs, n).autos.no_duplicates(),
    decreases n,
{
    if n > 0 && n <= bs.len() {
        lemma_classified_distinct(bs, (n - 1) as nat);
        let prev = classify_prefix(bs, (n - 1) as nat);
        match classify_bound(bs[n - 1]) {
            Classified::Recognized(k) => lemma_push_new_no_dup(prev.recognized, k),
            Classified::Auto(a) => lemma_push_new_no_dup(prev.autos, a),
            _ => {},
        }
    }
}

/// Every index a classified list records points into the list.
pub proof fn lemma_classified_indices(bs: Seq<Bound>, n: nat)
    requires
        n <= bs.len(),
    ensures
        forall|j: int|
            0 <= j < classify_prefix(bs, n).supertraits.len() ==> #[trigger] classify_prefix(
                bs,
                n,
            ).supertraits[j] < n,
        forall|j: int|
            0 <= j < classify_prefix(bs, n).rejected.len() ==> #[trigger] classify_prefix(
                bs,
                n,
            ).rejected[j].0 < n,
    decreases n,
{
    if n > 0 {
        lemma_classified_indices(bs, (n - 1) as nat);
        let prev = classify_prefix(bs, (n - 1) as nat);
        let cur = classify_prefix(bs, n);
        assert forall|j: int| 0 <= j < cur.supertraits.len() implies #[trigger] cur.supertraits[j] < n by {
            if j < prev.supertraits.len() {
                assert(cur.supertraits[j] == prev.supertraits[j]);
            }
        }
        assert forall|j: int| 0 <= j < cur.rejected.len() implies #[trigger] cur.rejected[j].0 < n by {
            if j < prev.rejected.len() {
                assert(cur.rejected[j] == prev.rejected[j]);
            }
        }
    }
}

/// The recognized traits and auto traits the first `n` bounds yield are
/// exactly those named among them.
proof fn lemma_classified_members_prefix(bs: Seq<Bound>, n: nat)
    requires
        n <= bs.len(),
    ensures
        forall|k: RecognizedBound|
            classify_prefix(bs, n).recognized.contains(k) <==> exists|i: int|
                0 <= i < n && #[trigger] classify_bound(bs[i]) == Classified::Recognized(k),
        forall|a: AutoTrait|
            classify_prefix(bs, n).autos.contains(a) <==> exists|i: int|
                0 <= i < n && #[trigger] classify_bound(bs[i]) == Classified::Auto(a),
    decreases n,
{
    if n > 0 {
        lemma_classified_members_prefix(bs, (n - 1) as nat);
        let prev = classify_prefix(bs, (n - 1) as nat);
        let cur = classify_prefix(bs, n);
        assert forall|k: RecognizedBound| cur.recognized.contains(k) <==> exists|i: int|
            0 <= i < n && #[trigger] classify_bound(bs[i]) == Classified::Recognized(k) by {
            if cur.recognized.contains(k) {
                if prev.recognized.contains(k) {
                    let i = choose|i: int|
                        0 <= i < n - 1 && #[trigger] classify_bound(bs[i]) == Classified::Recognized(k);
                    assert(0 <= i < n);
                } else {
                    assert(classify_bound(bs[n - 1]) == Classified::Recognized(k)) by {
                        match classify_bound(bs[n - 1]) {
                            Classified::Recognized(j) => {
                                if !prev.recognized.contains(j) {
                                    let t = prev.recognized.push(j);
                                    let w = choose|w: int| 0 <= w < t.len() && t[w] == k;
                                    if w < prev.recognized.len() {
                                        assert(prev.recognized[w] == k);
                                    }
                                }
                            },
                            _ => {},
                        }
                    }
                }
            }
            if exists|i: int| 0 <= i < n && #[trigger] classify_bound(bs[i]) == Classified::Recognized(k) {
                let i = choose|i: int| 0 <= i < n && #[trigger] classify_bound(bs[i]) == Classified::Recognized(k);
                if i < n - 1 {
                    assert(prev.recognized.contains(k));
                    let w = choose|w: int| 0 <= w < prev.recognized.len() && prev.recognized[w] == k;
                    assert(cur.recognized[w] == k);
                } else if !prev.recognized.contains(k) {
                    assert(cur.recognized[prev.recognized.len() as int] == k);
                }
            }
        }
        assert forall|a: AutoTrait| cur.autos.contains(a) <==> exists|i: int|
            0 <= i < n && #[trigger] classify_bound(bs[i]) == Classified::Auto(a) by {
            if cur.autos.contains(a) {
                if prev.autos.contains(a) {
                    let i = choose|i: int| 0 <= i < n - 1 && #[trigger] classify_bound(bs[i]) == Classified::Auto(a);
                    assert(0 <= i < n);
                } else {
                    assert(classify_bound(bs[n - 1]) == Classified::Auto(a)) by {
                        match classify_bound(bs[n - 1]) {
                            Classified::Auto(j) => {
                                if !prev.autos.contains(j) {
                                    let t = prev.autos.push(j);
                                    let w = choose|w: int| 0 <= w < t.len() && t[w] == a;
                                    if w < prev.autos.len() {
                                        assert(prev.autos[w] == a);
                                    }
                                }
                            },
                            _ => {},
                        }
                    }
                }
            }
            if exists|i: int| 0 <= i < n && #[trigger] classify_bound(bs[i]) == Classified::Auto(a) {
                let i = choose|i: int| 0 <= i < n && #[trigger] classify_bound(bs[i]) == Classified::Auto(a);
                if i < n - 1 {
                    assert(prev.autos.contains(a));
                    let w = choose|w: int| 0 <= w < prev.autos.len() && prev.autos[w] == a;
                    assert(cur.autos[w] == a);
                } else if !prev.autos.contains(a) {
                    assert(cur.autos[prev.autos.len() as int] == a);
                }
            }
        }
    }
}

/// Where a bound stands in the list never matters, and a repeated bound is
/// generated once: the recognized traits and the auto traits a list yields
/// are exactly those named somewhere in it, each once.
pub proof fn lemma_classified_members(bs: Seq<Bound>)
    ensures
        forall|k: RecognizedBound|
            classify_all(bs).recognized.contains(k) <==> exists|i: int|
                0 <= i < bs.len() && #[trigger] classify_bound(bs[i]) == Classified::Recognized(k),
        forall|a: AutoTrait|
            classify_all(bs).autos.contains(a) <==> exists|i: int|
                0 <= i < bs.len() && #[trigger] classify_bound(bs[i]) == Classified::Auto(a),
        classify_all(bs).recognized.no_duplicates(),
        classify_all(bs).autos.no_duplicates(),
{
    lemma_classified_members_prefix(bs, bs.len());
    lemma_classified_distinct(bs, bs.len());
}

/// The first rejected bound of the first `n` heads the rejected list.
proof fn lemma_first_rejected_prefix(bs: Seq<Bound>, i: int, n: nat)
    requires
        0 <= i < bs.len(),
        n <= bs.len(),
        classify_bound(bs[i]) is Rejected,
        forall|j: int| 0 <= j < i ==> !(#[trigger] classify_bound(bs[j]) is Rejected),
    ensures
        n <= i ==> classify_prefix(bs, n).rejected.len() == 0,
        n > i ==> classify_prefix(bs, n).rejected.len() > 0 && classify_prefix(bs, n).rejected[0] == (
            i as usize,
            classify_bound(bs[i])->Rejected_0,
        ),
    decreases n,
{
    if n > 0 {
        lemma_first_rejected_prefix(bs, i, (n - 1) as nat);
        if n - 1 < i {
            assert(!(classify_bound(bs[n - 1]) is Rejected));
        }
    }
}

/// The first rejected bound of a list heads its rejected list, with its
/// kind.
pub proof fn lemma_first_rejected(bs: Seq<Bound>, i: int)
    requires
        0 <= i < bs.len(),
        classify_bound(bs[i]) is Rejected,
        forall|j: int| 0 <= j < i ==> !(#[trigger] classify_bound(bs[j]) is Rejected),
    ensures
        classify_all(bs).rejected.len() > 0,
        classify_all(bs).rejected[0] == (i as usize, classify_bound(bs[i])->Rejected_0),
{
    lemma_first_rejected_prefix(bs, i, bs.len());
}

/// A list without a rejected bound yields no rejection.
pub proof fn lemma_no_rejected(bs: Seq<Bound>, n: nat)
    requires
        n <= bs.len(),
        forall|j: int| 0 <= j < n ==> !(#[trigger] classify_bound(bs[j]) is Rejected),
    ensures
        classify_prefix(bs, n).rejected.len() == 0,
    decreases n,
{
    if n > 0 {
        lemma_no_rejected(bs, (n - 1) as nat);
    }
}

/// Every auto trait.
pub open spec fn all_autos() -> Set<AutoTrait> {
    set![
        AutoTrait::Send,
        AutoTrait::Sync,
        AutoTrait::Unpin,
        AutoTrait::UnwindSafe,
        AutoTrait::RefUnwindSafe,
    ]
}

/// A list of distinct auto traits has at most five entries.
pub proof fn lemma_autos_at_most_five(s: Seq<AutoTrait>)
    requires
        s.no_duplicates(),
    ensures
        s.len() <= 5,
{
    s.unique_seq_to_set();
    assert(s.to_set().subset_of(all_autos())) by {
        assert forall|a: AutoTrait| s.to_set().contains(a) implies all_autos().contains(a) by {
            match a {
                AutoTrait::Send => {},
                AutoTrait::Sync => {},
                AutoTrait::Unpin => {},
                AutoTrait::UnwindSafe => {},
                AutoTrait::RefUnwindSafe => {},
            }
        }
    }
    vstd::set_lib::lemma_len_subset(s.to_set(), all_autos());
    assert(all_autos().len() == 5);
}

fn contains_recognized(v: &Vec<RecognizedBound>, k: RecognizedBound) -> (r: bool)
    ensures
        r == v@.contains(k),
{
    let mut i: usize = 0;
    while i < v.len()
        invariant
            i <= v.len(),
            forall|j: int| 0 <= j < i ==> v@[j] != k,
        decreases v.len() - i,
    {
        if v[i] == k {
            assert(v@[i as int] == k);
            return true;
        }
        i += 1;
    }
    false
}

fn contains_auto(v: &Vec<AutoTrait>, a: AutoTrait) -> (r: bool)
    ensures
        r == v@.contains(a),
{
    let mut i: usize = 0;
    while i < v.len()
        invariant
            i <= v.len(),
            forall|j: int| 0 <= j < i ==> v@[j] != a,
        decreases v.len() - i,
    {
        if v[i] == a {
            assert(v@[i as int] == a);
            return true;
        }
        i += 1;
    }
    false
}

// ---------------------------------------------------------------------------
// Marker combinations.

/// One `dyn Shim + markers` variant the recognized-bound machinery covers: a
/// method-name suffix and the `+ ...` text appended to the `dyn` type.
pub struct MarkerCombo {
    pub suffix: String,
    pub markers: String,
}

/// Every subset of the listed auto traits as (suffix, markers) pairs, the
/// plain (empty) combination first: the combinations of all but the last
/// trait, followed by each of them extended with the last one. Each subset's
/// traits appear in listing order.
pub open spec fn combos_spec(autos: Seq<AutoTrait>) -> Seq<(Seq<char>, Seq<char>)>
    decreases autos.len(),
{
    if autos.len() == 0 {
        seq![(Seq::<char>::empty(), Seq::<char>::empty())]
    } else {
        let prev = combos_spec(autos.drop_last());
        let a = autos.last();
        prev + prev.map_values(
            |c: (Seq<char>, Seq<char>)|
                (c.0 + "_"@ + suffix_text(a), c.1 + " + "@ + auto_path_text(a)),
        )
    }
}

/// The (suffix, markers) content of a list of combinations.
pub open spec fn combos_view(v: Seq<MarkerCombo>) -> Seq<(Seq<char>, Seq<char>)> {
    v.map_values(|c: MarkerCombo| (c.suffix@, c.markers@))
}

impl MarkerCombo {
    /// Every subset of the listed auto traits, the plain (empty) combination
    /// first. The order markers are written in a `dyn` type does not affect
    /// type identity, so one combo per subset, each written in the order the
    /// auto traits were listed, covers every spelling at the use site. The
    /// count is `2^n` in the number of listed auto traits.
    pub fn all(autos: &Vec<AutoTrait>) -> (r: Vec<MarkerCombo>)
        requires
            autos.len() <= 5,
        ensures
            combos_view(r@) == combos_spec(autos@),
    {
        let mut combos: Vec<MarkerCombo> = Vec::new();
        combos.push(MarkerCombo { suffix: String::new(), markers: String::new() });
        assert(combos_view(combos@) =~= combos_spec(autos@.subrange(0, 0)));
        let mut j: usize = 0;
        while j < autos.len()
            invariant
                j <= autos.len(),
                autos.len() <= 5,
                combos_view(combos@) == combos_spec(autos@.subrange(0, j as int)),
                combos.len() <= 32,
            decreases autos.len() - j,
        {
            let a = autos[j];
            let n = combos.len();
            let ghost prev = combos_view(combos@);
            let mut k: usize = 0;
            while k < n
                invariant
                    k <= n,
                    n == prev.len(),
                    combos.len() == n + k,
                    combos_view(combos@).subrange(0, n as int) == prev,
                    forall|m: int|
                        0 <= m < k ==> #[trigger] combos_view(combos@)[n + m] == (
                            prev[m].0 + "_"@ + suffix_text(a),
                            prev[m].1 + " + "@ + auto_path_text(a),
                        ),
                decreases n - k,
            {
                let mut suffix = combos[k].suffix.clone();
                push(&mut suffix, "_");
                push(&mut suffix, a.suffix());
                let mut markers = combos[k].markers.clone();
                push(&mut markers, " + ");
                push(&mut markers, a.path());
                let ghost before = combos@;
                combos.push(MarkerCombo { suffix, markers });
                assert(combos_view(combos@).subrange(0, n as int) =~= combos_view(before).subrange(
                    0,
                    n as int,
                ));
                assert forall|m: int| 0 <= m < k + 1 implies #[trigger] combos_view(combos@)[n + m]
                    == (prev[m].0 + "_"@ + suffix_text(a), prev[m].1 + " + "@ + auto_path_text(
                    a,
                )) by {
                    if m < k {
                        assert(combos_view(combos@)[n + m] == combos_view(before)[n + m]);
                    }
                }
                k += 1;
            }
            assert(autos@.subrange(0, j + 1).drop_last() =~= autos@.subrange(0, j as int));
            assert(autos@.subrange(0, j + 1).last() == a);
            let ghost want = prev + prev.map_values(
                |c: (Seq<char>, Seq<char>)|
                    (c.0 + "_"@ + suffix_text(a), c.1 + " + "@ + auto_path_text(a)),
            );
            assert(want == combos_spec(autos@.subrange(0, j + 1)));
            assert forall|m: int| 0 <= m < want.len() implies #[trigger] combos_view(combos@)[m]
                == want[m] by {
                if m < n {
                    assert(combos_view(combos@)[m] == combos_view(combos@).subrange(0, n as int)[m]);
                } else {
                    assert(combos_view(combos@)[n + (m - n)] == (
                        prev[m - n].0 + "_"@ + suffix_text(a),
                        prev[m - n].1 + " + "@ + auto_path_text(a),
                    ));
                }
            }
            assert(combos_view(combos@) =~= want);
            proof {
                lemma_combos_len(autos@.subrange(0, j + 1));
                vstd::arithmetic::power2::lemma_pow2_strictly_increases((j + 1) as nat, 6);
                vstd::arithmetic::power2::lemma2_to64();
            }
            j += 1;
        }
        assert(autos@.subrange(0, autos.len() as int) =~= autos@);
        combos
    }
}

/// There are `2^n` marker combinations for `n` listed auto traits.
pub proof fn lemma_combos_len(autos: Seq<AutoTrait>)
    ensures
        combos_spec(autos).len() == vstd::arithmetic::power2::pow2(autos.len()),
    decreases autos.len(),
{
    if autos.len() == 0 {
        vstd::arithmetic::power2::lemma2_to64();
    } else {
        lemma_combos_len(autos.drop_last());
        vstd::arithmetic::power2::lemma_pow2_unfold(autos.len());
    }
}

/// Whether bit `i` of `mask` is set.
pub open spec fn bit(mask: nat, i: nat) -> bool {
    (mask / vstd::arithmetic::power2::pow2(i)) % 2 == 1
}

/// The combination `mask` selects: the suffix and markers of every listed
/// auto trait whose bit is set in `mask`, in listing order.
pub open spec fn subset_combo(autos: Seq<AutoTrait>, mask: nat) -> (Seq<char>, Seq<char>)
    decreases autos.len(),
{
    if autos.len() == 0 {
        (Seq::empty(), Seq::empty())
    } else {
        let prev = subset_combo(autos.drop_last(), mask);
        let a = autos.last();
        if bit(mask, (autos.len() - 1) as nat) {
            (prev.0 + "_"@ + suffix_text(a), prev.1 + " + "@ + auto_path_text(a))
        } else {
            prev
        }
    }
}

/// Adding `2^e` leaves the bits below `e` unchanged.
proof fn lemma_bit_add_high(x: nat, e: nat, i: nat)
    requires
        i < e,
    ensures
        bit(x + vstd::arithmetic::power2::pow2(e), i) == bit(x, i),
{
    let d = vstd::arithmetic::power2::pow2(i) as int;
    let k = vstd::arithmetic::power2::pow2((e - i - 1) as nat) as int;
    vstd::arithmetic::power2::lemma_pow2_pos(i);
    vstd::arithmetic::power2::lemma_pow2_adds(i, (e - i) as nat);
    vstd::arithmetic::power2::lemma_pow2_unfold((e - i) as nat);
    assert(i + (e - i) == e);
    let q = x as int / d;
    let r = x as int % d;
    vstd::arithmetic::div_mod::lemma_fundamental_div_mod(x as int, d);
    vstd::arithmetic::div_mod::lemma_mod_bound(x as int, d);
    assert(vstd::arithmetic::power2::pow2(e) as int == d * (2 * k)) by (nonlinear_arith)
        requires
            vstd::arithmetic::power2::pow2(e) as int == d * vstd::arithmetic::power2::pow2(
                (e - i) as nat,
            ),
            vstd::arithmetic::power2::pow2((e - i) as nat) as int == 2 * k,
    ;
    assert(x + vstd::arithmetic::power2::pow2(e) == d * (q + 2 * k) + r) by (nonlinear_arith)
        requires
            x == d * q + r,
            vstd::arithmetic::power2::pow2(e) as int == d * (2 * k),
    ;
    vstd::arithmetic::div_mod::lemma_div_multiples_vanish_fancy(q + 2 * k, r, d);
    vstd::arithmetic::div_mod::lemma_mod_multiples_vanish(k, q, 2);
    assert((x + vstd::arithmetic::power2::pow2(e)) as int / d == q + 2 * k);
    assert((q + 2 * k) % 2 == q % 2) by {
        assert(2 * k + q == q + 2 * k);
    }
}

/// Bit `e` of a number below `2^(e+1)` is set exactly when the number is at
/// least `2^e`.
proof fn lemma_bit_top(x: nat, e: nat)
    requires
        x < 2 * vstd::arithmetic::power2::pow2(e),
    ensures
        bit(x, e) == (x >= vstd::arithmetic::power2::pow2(e)),
{
    let d = vstd::arithmetic::power2::pow2(e) as int;
    vstd::arithmetic::power2::lemma_pow2_pos(e);
    if x < d {
        vstd::arithmetic::div_mod::lemma_basic_div(x as int, d);
    } else {
        vstd::arithmetic::div_mod::lemma_div_multiples_vanish_fancy(1, x - d, d);
        assert(d * 1 + (x - d) == x);
    }
}

/// A combination depends only on the bits of its mask below the number of
/// listed auto traits.
proof fn lemma_subset_combo_bits(autos: Seq<AutoTrait>, m1: nat, m2: nat)
    requires
        forall|i: nat| i < autos.len() ==> bit(m1, i) == bit(m2, i),
    ensures
        subset_combo(autos, m1) == subset_combo(autos, m2),
    decreases autos.len(),
{
    if autos.len() > 0 {
        lemma_subset_combo_bits(autos.drop_last(), m1, m2);
        assert(bit(m1, (autos.len() - 1) as nat) == bit(m2, (autos.len() - 1) as nat));
    }
}

/// Combination `mask` covers exactly the listed auto traits whose bit is set
/// in `mask`, in listing order: the combinations are every subset of the
/// listed auto traits, the plain (empty) one first.
pub proof fn lemma_combo_is_subset(autos: Seq<AutoTrait>, mask: nat)
    requires
        mask < vstd::arithmetic::power2::pow2(autos.len()),
    ensures
        combos_spec(autos)[mask as int] == subset_combo(autos, mask),
    decreases autos.len(),
{
    if autos.len() == 0 {
        vstd::arithmetic::power2::lemma2_to64();
        assert(mask == 0);
    } else {
        let p = autos.drop_last();
        let n1 = (autos.len() - 1) as nat;
        let h = vstd::arithmetic::power2::pow2(n1);
        vstd::arithmetic::power2::lemma_pow2_unfold(autos.len());
        lemma_combos_len(p);
        let prev = combos_spec(p);
        lemma_bit_top(mask, n1);
        if mask < h {
            lemma_combo_is_subset(p, mask);
        } else {
            let m2 = (mask - h) as nat;
            lemma_combo_is_subset(p, m2);
            assert forall|i: nat| i < p.len() implies bit(mask, i) == bit(m2, i) by {
                lemma_bit_add_high(m2, n1, i);
                assert(m2 + h == mask);
            }
            lemma_subset_combo_bits(p, mask, m2);
        }
    }
}

/// The `2^n` combinations of [`MarkerCombo::all`] are the subsets of the
/// listed auto traits: combination `mask` carries the suffix and markers of
/// exactly the traits whose bit is set in `mask`, in listing order.
pub proof fn lemma_all_combos(autos: Seq<AutoTrait>, v: Seq<MarkerCombo>, mask: nat)
    requires
        combos_view(v) == combos_spec(autos),
        mask < vstd::arithmetic::power2::pow2(autos.len()),
    ensures
        v.len() == vstd::arithmetic::power2::pow2(autos.len()),
        (v[mask as int].suffix@, v[mask as int].markers@) == subset_combo(autos, mask),
{
    lemma_combos_len(autos);
    lemma_combo_is_subset(autos, mask);
    assert(combos_view(v)[mask as int] == (v[mask as int].suffix@, v[mask as int].markers@));
}

/// No combination of traits other than `b` carries `b`'s suffix.
proof fn lemma_indicator_absent(autos: Seq<AutoTrait>, b: AutoTrait, m: int)
    requires
        !autos.contains(b),
        0 <= m < combos_spec(autos).len(),
    ensures
        indicator(b, combos_spec(autos)[m].0) == 0,
    decreases autos.len(),
{
    if autos.len() == 0 {
        reveal_with_fuel(count_char, 1);
    } else {
        let p = autos.drop_last();
        let a = autos.last();
        let prev = combos_spec(p);
        assert(!p.contains(b)) by {
            if p.contains(b) {
                let k = choose|k: int| 0 <= k < p.len() && p[k] == b;
                assert(autos[k] == b);
            }
        }
        assert(a != b) by {
            assert(autos[autos.len() - 1] == a);
        }
        if m < prev.len() {
            lemma_indicator_absent(p, b, m);
        } else {
            let q = m - prev.len();
            lemma_indicator_absent(p, b, q);
            assert(combos_spec(autos)[m].0 == prev[q].0 + "_"@ + suffix_text(a));
            assert(prev[q].0 + "_"@ + suffix_text(a) =~= prev[q].0 + ("_"@ + suffix_text(a)));
            lemma_indicator_add(b, prev[q].0, "_"@ + suffix_text(a));
            lemma_indicator_token(a, b);
        }
    }
}

/// The suffixes of a list of auto traits joined with `_`.
pub open spec fn suffix_join(bs: Seq<AutoTrait>) -> Seq<char>
    decreases bs.len(),
{
    if bs.len() == 0 {
        Seq::empty()
    } else if bs.len() == 1 {
        suffix_text(bs[0])
    } else {
        suffix_join(bs.drop_last()) + "_"@ + suffix_text(bs.last())
    }
}

/// Each suffix of a list of auto traits preceded by `_`, concatenated.
pub open spec fn underscored(bs: Seq<AutoTrait>) -> Seq<char>
    decreases bs.len(),
{
    if bs.len() == 0 {
        Seq::empty()
    } else {
        underscored(bs.drop_last()) + ("_"@ + suffix_text(bs.last()))
    }
}

proof fn lemma_join_underscored(bs: Seq<AutoTrait>)
    requires
        bs.len() >= 1,
    ensures
        "_"@ + suffix_join(bs) == underscored(bs),
    decreases bs.len(),
{
    if bs.len() == 1 {
        assert(bs.drop_last().len() == 0);
        assert(underscored(bs.drop_last()) =~= Seq::<char>::empty());
        assert(underscored(bs) =~= "_"@ + suffix_text(bs[0]));
    } else {
        lemma_join_underscored(bs.drop_last());
        assert("_"@ + suffix_join(bs) =~= ("_"@ + suffix_join(bs.drop_last())) + ("_"@ + suffix_text(bs.last())));
    }
}

proof fn lemma_indicator_underscored(a: AutoTrait, bs: Seq<AutoTrait>)
    requires
        forall|k: int| 0 <= k < bs.len() ==> bs[k] != a,
    ensures
        indicator(a, underscored(bs)) == 0,
    decreases bs.len(),
{
    if bs.len() == 0 {
        reveal_with_fuel(count_char, 1);
    } else {
        lemma_indicator_underscored(a, bs.drop_last());
        lemma_indicator_add(a, underscored(bs.drop_last()), "_"@ + suffix_text(bs.last()));
        lemma_indicator_token(bs.last(), a);
        assert(bs[bs.len() - 1] != a);
    }
}

/// No auto trait's suffix is the `_`-join of the suffixes of one or more
/// other auto traits, so a method name that ends in one suffix is never
/// mistaken for one built from others.
pub proof fn lemma_suffix_not_a_join(a: AutoTrait, bs: Seq<AutoTrait>)
    requires
        bs.len() >= 1,
        forall|k: int| 0 <= k < bs.len() ==> bs[k] != a,
    ensures
        suffix_join(bs) != suffix_text(a),
{
    lemma_join_underscored(bs);
    lemma_indicator_underscored(a, bs);
    lemma_indicator_token(a, a);
}

/// When no auto trait is listed twice, the marker combinations have pairwise
/// distinct suffixes, so the hidden methods named after them never clash.
pub proof fn lemma_combo_suffixes_distinct(autos: Seq<AutoTrait>, i: int, j: int)
    requires
        forall|x: int, y: int| 0 <= x < y < autos.len() ==> autos[x] != autos[y],
        0 <= i < combos_spec(autos).len(),
        0 <= j < combos_spec(autos).len(),
        i != j,
    ensures
        combos_spec(autos)[i].0 != combos_spec(autos)[j].0,
    decreases autos.len(),
{
    if autos.len() > 0 {
        let p = autos.drop_last();
        let a = autos.last();
        let prev = combos_spec(p);
        let n = prev.len() as int;
        let t = "_"@ + suffix_text(a);
        assert(forall|x: int, y: int| 0 <= x < y < p.len() ==> p[x] != p[y]) by {
            assert forall|x: int, y: int| 0 <= x < y < p.len() implies p[x] != p[y] by {
                assert(autos[x] == p[x] && autos[y] == p[y]);
            }
        }
        assert(!p.contains(a)) by {
            if p.contains(a) {
                let k = choose|k: int| 0 <= k < p.len() && p[k] == a;
                assert(autos[k] == a && autos[autos.len() - 1] == a);
            }
        }
        if i < n && j < n {
            lemma_combo_suffixes_distinct(p, i, j);
        } else if i >= n && j >= n {
            lemma_combo_suffixes_distinct(p, i - n, j - n);
            let x = prev[i - n].0;
            let y = prev[j - n].0;
            assert(combos_spec(autos)[i].0 == x + "_"@ + suffix_text(a));
            assert(combos_spec(autos)[j].0 == y + "_"@ + suffix_text(a));
            if x + "_"@ + suffix_text(a) == y + "_"@ + suffix_text(a) {
                assert(x =~= (x + "_"@ + suffix_text(a)).subrange(0, x.len() as int));
                assert(y =~= (y + "_"@ + suffix_text(a)).subrange(0, y.len() as int));
            }
        } else {
            let (lo, hi) = if i < n {
                (i, j)
            } else {
                (j, i)
            };
            let y = prev[hi - n].0;
            lemma_indicator_absent(p, a, lo);
            lemma_indicator_absent(p, a, hi - n);
            assert(combos_spec(autos)[hi].0 == y + "_"@ + suffix_text(a));
            assert(y + "_"@ + suffix_text(a) =~= y + t);
            lemma_indicator_add(a, y, t);
            lemma_indicator_token(a, a);
            assert(combos_spec(autos)[lo].0 == prev[lo].0);
        }
    }
}

// ---------------------------------------------------------------------------
// The `reflexive = ...` argument.

/// The text read after `reflexive` keyword position: the keyword as written
/// and the `+`-joined kinds.
pub struct ReflexiveArg {
    pub key: String,
    pub kinds: Vec<String>,
}

/// The object forms a `reflexive` argument requests, deduplicated in listing
/// order, or where and why it is rejected.
pub open spec fn reflexive_kinds_prefix(kinds: Seq<String>, n: nat) -> Result<Seq<ObjectForm>, (Site, Seq<char>)>
    decreases n,
{
    if n == 0 || n > kinds.len() {
        Ok(seq![])
    } else {
        match reflexive_kinds_prefix(kinds, (n - 1) as nat) {
            Err(e) => Err(e),
            Ok(prev) => {
                let k = kinds[n - 1]@;
                if k == "bare"@ {
                    Ok(push_new(prev, ObjectForm::Bare))
                } else if k == "boxed"@ {
                    Ok(push_new(prev, ObjectForm::Boxed))
                } else {
                    Err(
                        (
                            Site::ReflexiveKind((n - 1) as usize),
                            "unsupported reflexive kind, expected `bare` or `boxed`"@,
                        ),
                    )
                }
            },
        }
    }
}

/// The object forms an optional `, reflexive = <kinds>` argument requests.
pub open spec fn reflexive_spec(arg: Option<ReflexiveArg>) -> Result<Seq<ObjectForm>, (Site, Seq<char>)> {
    match arg {
        None => Ok(seq![]),
        Some(a) => if a.key@ != "reflexive"@ {
            Err((Site::ReflexiveKey, "expected `reflexive`"@))
        } else {
            reflexive_kinds_prefix(a.kinds@, a.kinds@.len())
        },
    }
}

/// Interpret an optional trailing `, reflexive = <kinds>` argument, where
/// `<kinds>` is one or more of `bare` and `boxed` joined with `+`. Returns the
/// requested kinds, deduplicated, and empty when no `reflexive` argument is
/// present.
pub fn parse_reflexive(arg: &Option<ReflexiveArg>) -> (r: Result<Vec<ObjectForm>, (Site, String)>)
    ensures
        match r {
            Ok(v) => reflexive_spec(*arg) == Ok::<Seq<ObjectForm>, (Site, Seq<char>)>(v@),
            Err((site, msg)) => reflexive_spec(*arg) == Err::<Seq<ObjectForm>, (Site, Seq<char>)>(
                (site, msg@),
            ),
        },
{
    let a = match arg {
        None => return Ok(Vec::new()),
        Some(a) => a,
    };
    if !str_eq(a.key.as_str(), "reflexive") {
        return Err((Site::ReflexiveKey, "expected `reflexive`".to_owned()));
    }
    let mut kinds: Vec<ObjectForm> = Vec::new();
    let mut i: usize = 0;
    while i < a.kinds.len()
        invariant
            i <= a.kinds.len(),
            reflexive_kinds_prefix(a.kinds@, i as nat) == Ok::<
                Seq<ObjectForm>,
                (Site, Seq<char>),
            >(kinds@),
        decreases a.kinds.len() - i,
    {
        let k = a.kinds[i].as_str();
        let kind = if str_eq(k, "bare") {
            ObjectForm::Bare
        } else if str_eq(k, "boxed") {
            ObjectForm::Boxed
        } else {
            proof {
                lemma_reflexive_err_sticky(a.kinds@, (i + 1) as nat);
            }
            return Err(
                (
                    Site::ReflexiveKind(i),
                    "unsupported reflexive kind, expected `bare` or `boxed`".to_owned(),
                ),
            );
        };
        if !contains_form(&kinds, kind) {
            kinds.push(kind);
        }
        i += 1;
    }
    Ok(kinds)
}

fn contains_form(v: &Vec<ObjectForm>, k: ObjectForm) -> (r: bool)
    ensures
        r == v@.contains(k),
{
    let mut i: usize = 0;
    while i < v.len()
        invariant
            i <= v.len(),
            forall|j: int| 0 <= j < i ==> v@[j] != k,
        decreases v.len() - i,
    {
        if v[i] == k {
            assert(v@[i as int] == k);
            return true;
        }
        i += 1;
    }
    false
}

/// The forms a `reflexive` list of kinds requests, when it reads.
proof fn lemma_reflexive_kinds_prefix(kinds: Seq<String>, n: nat)
    requires
        n <= kinds.len(),
        reflexive_kinds_prefix(kinds, n) is Ok,
    ensures
        reflexive_kinds_prefix(kinds, n)->Ok_0.no_duplicates(),
        reflexive_kinds_prefix(kinds, n)->Ok_0.contains(ObjectForm::Bare) <==> exists|i: int|
            0 <= i < n && #[trigger] kinds[i]@ == "bare"@,
        reflexive_kinds_prefix(kinds, n)->Ok_0.contains(ObjectForm::Boxed) <==> exists|i: int|
            0 <= i < n && #[trigger] kinds[i]@ == "boxed"@,
    decreases n,
{
    if n > 0 {
        lemma_reflexive_kinds_prefix(kinds, (n - 1) as nat);
        let prev = reflexive_kinds_prefix(kinds, (n - 1) as nat)->Ok_0;
        let cur = reflexive_kinds_prefix(kinds, n)->Ok_0;
        let k = kinds[n - 1]@;
        let x = if k == "bare"@ {
            ObjectForm::Bare
        } else {
            ObjectForm::Boxed
        };
        lemma_push_new_no_dup(prev, x);
        assert(cur == push_new(prev, x));
        assert("bare"@ != "boxed"@) by {
            reveal_strlit("bare");
            reveal_strlit("boxed");
            assert("bare"@.len() != "boxed"@.len());
        }
        assert forall|f: ObjectForm| #[trigger] cur.contains(f) <==> (prev.contains(f) || f == x) by {
            if cur.contains(f) && !prev.contains(f) {
                if !prev.contains(x) {
                    let w = choose|w: int| 0 <= w < cur.len() && cur[w] == f;
                    if w < prev.len() {
                        assert(prev[w] == f);
                    }
                }
            }
            if prev.contains(f) && !prev.contains(x) {
                let w = choose|w: int| 0 <= w < prev.len() && prev[w] == f;
                assert(cur[w] == f);
            }
            if f == x && !prev.contains(x) {
                assert(cur[prev.len() as int] == f);
            }
        }
        if prev.contains(ObjectForm::Bare) {
            let i = choose|i: int| 0 <= i < n - 1 && #[trigger] kinds[i]@ == "bare"@;
            assert(0 <= i < n);
        }
        if prev.contains(ObjectForm::Boxed) {
            let i = choose|i: int| 0 <= i < n - 1 && #[trigger] kinds[i]@ == "boxed"@;
            assert(0 <= i < n);
        }
        if exists|i: int| 0 <= i < n && #[trigger] kinds[i]@ == "bare"@ {
            let i = choose|i: int| 0 <= i < n && #[trigger] kinds[i]@ == "bare"@;
            if i < n - 1 {
                assert(prev.contains(ObjectForm::Bare));
            }
        }
        if exists|i: int| 0 <= i < n && #[trigger] kinds[i]@ == "boxed"@ {
            let i = choose|i: int| 0 <= i < n && #[trigger] kinds[i]@ == "boxed"@;
            if i < n - 1 {
                assert(prev.contains(ObjectForm::Boxed));
            }
        }
    }
}

/// A `reflexive = ...` argument that reads requests each form once, and
/// exactly the forms it names.
pub proof fn lemma_reflexive_kinds(arg: ReflexiveArg)
    requires
        reflexive_spec(Some(arg)) is Ok,
    ensures
        reflexive_spec(Some(arg))->Ok_0.no_duplicates(),
        reflexive_spec(Some(arg))->Ok_0.contains(ObjectForm::Bare) <==> exists|i: int|
            0 <= i < arg.kinds@.len() && #[trigger] arg.kinds@[i]@ == "bare"@,
        reflexive_spec(Some(arg))->Ok_0.contains(ObjectForm::Boxed) <==> exists|i: int|
            0 <= i < arg.kinds@.len() && #[trigger] arg.kinds@[i]@ == "boxed"@,
{
    lemma_reflexive_kinds_prefix(arg.kinds@, arg.kinds@.len());
}

proof fn lemma_reflexive_err_sticky(kinds: Seq<String>, n: nat)
    requires
        n <= kinds.len(),
        reflexive_kinds_prefix(kinds, n) is Err,
    ensures
        reflexive_kinds_prefix(kinds, kinds.len()) == reflexive_kinds_prefix(kinds, n),
    decreases kinds.len() - n,
{
    if n < kinds.len() {
        lemma_reflexive_err_sticky(kinds, n + 1);
    }
}

} // verus!
