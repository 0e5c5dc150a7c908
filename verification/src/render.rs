//! Writing generated code as text: joined lists, decimal numbers, and method
//! signatures restated with the edits a forwarding method needs.

use vstd::prelude::*;
use crate::model::{FnArg, GenericParam, Pat, PatType, Signature, WherePredicate};
use crate::text::push;

verus! {

// ---------------------------------------------------------------------------
// Lists.

/// The characters of each string of a list.
pub open spec fn strs(v: Seq<String>) -> Seq<Seq<char>> {
    v.map_values(|s: String| s@)
}

/// The parts joined with `sep` between each two neighbours.
pub open spec fn join(parts: Seq<Seq<char>>, sep: Seq<char>) -> Seq<char>
    decreases parts.len(),
{
    if parts.len() == 0 {
        Seq::empty()
    } else if parts.len() == 1 {
        parts[0]
    } else {
        join(parts.drop_last(), sep) + sep + parts.last()
    }
}

/// The parts written one after another.
pub open spec fn concat(parts: Seq<Seq<char>>) -> Seq<char>
    decreases parts.len(),
{
    if parts.len() == 0 {
        Seq::empty()
    } else {
        concat(parts.drop_last()) + parts.last()
    }
}

/// Writing one more part after the others.
pub proof fn lemma_concat_push(s: Seq<Seq<char>>, x: Seq<char>)
    ensures
        concat(s.push(x)) == concat(s) + x,
{
    assert(s.push(x).drop_last() =~= s);
}

/// Join strings with a separator.
pub fn join_strs(parts: &Vec<String>, sep: &str) -> (r: String)
    ensures
        r@ == join(strs(parts@), sep@),
{
    let mut out = String::new();
    let mut i: usize = 0;
    while i < parts.len()
        invariant
            i <= parts.len(),
            out@ == join(strs(parts@).take(i as int), sep@),
        decreases parts.len() - i,
    {
        assert(strs(parts@).take(i + 1).drop_last() =~= strs(parts@).take(i as int));
        if i > 0 {
            push(&mut out, sep);
        } else {
            assert(strs(parts@).take(0) =~= Seq::<Seq<char>>::empty());
        }
        push(&mut out, parts[i].as_str());
        i += 1;
    }
    assert(strs(parts@).take(parts.len() as int) =~= strs(parts@));
    out
}

// ---------------------------------------------------------------------------
// Numbers.

/// The decimal digit `d`.
pub open spec fn digit_text(d: nat) -> Seq<char> {
    if d == 0 {
        "0"@
    } else if d == 1 {
        "1"@
    } else if d == 2 {
        "2"@
    } else if d == 3 {
        "3"@
    } else if d == 4 {
        "4"@
    } else if d == 5 {
        "5"@
    } else if d == 6 {
        "6"@
    } else if d == 7 {
        "7"@
    } else if d == 8 {
        "8"@
    } else {
        "9"@
    }
}

/// The decimal representation of `n`.
pub open spec fn decimal(n: nat) -> Seq<char>
    decreases n,
{
    if n < 10 {
        digit_text(n)
    } else {
        decimal(n / 10) + digit_text(n % 10)
    }
}

fn digit(d: usize) -> (r: &'static str)
    requires
        d < 10,
    ensures
        r@ == digit_text(d as nat),
{
    if d == 0 {
        "0"
    } else if d == 1 {
        "1"
    } else if d == 2 {
        "2"
    } else if d == 3 {
        "3"
    } else if d == 4 {
        "4"
    } else if d == 5 {
        "5"
    } else if d == 6 {
        "6"
    } else if d == 7 {
        "7"
    } else if d == 8 {
        "8"
    } else {
        "9"
    }
}

/// The decimal representation of `n`.
pub fn decimal_text(n: usize) -> (r: String)
    ensures
        r@ == decimal(n as nat),
    decreases n,
{
    if n < 10 {
        digit(n).to_owned()
    } else {
        let mut out = decimal_text(n / 10);
        push(&mut out, digit(n % 10));
        out
    }
}

// ---------------------------------------------------------------------------
// Signatures.

/// How a signature is restated in generated code.
pub struct SigEdit {
    /// Replace a receiver in first position with `self: ::std::boxed::Box<Self>`.
    pub box_receiver: bool,
    /// The names the inputs after the first are renamed to, one per input
    /// after the first; when absent the patterns are kept.
    pub names: Option<Vec<String>>,
    /// Replacement type text for each input after the first, one per input
    /// after the first.
    pub lowered: Vec<Option<String>>,
    /// Which generic parameters are kept, one flag per parameter.
    pub keep_params: Vec<bool>,
    /// Which `where` predicates are kept, one flag per predicate.
    pub keep_preds: Vec<bool>,
    /// Replacement for the return type's text.
    pub output: Option<String>,
    /// A predicate appended to the `where` clause.
    pub extra_pred: Option<String>,
}

/// What an edit does, as plain values.
pub struct SigEditSpec {
    pub box_receiver: bool,
    pub names: Option<Seq<Seq<char>>>,
    pub lowered: Seq<Option<Seq<char>>>,
    pub keep_params: Seq<bool>,
    pub keep_preds: Seq<bool>,
    pub output: Option<Seq<char>>,
    pub extra_pred: Option<Seq<char>>,
}

/// The characters of an optional string.
pub open spec fn opt_str(o: Option<String>) -> Option<Seq<char>> {
    match o {
        Some(s) => Some(s@),
        None => None,
    }
}

impl View for SigEdit {
    type V = SigEditSpec;

    open spec fn view(&self) -> SigEditSpec {
        SigEditSpec {
            box_receiver: self.box_receiver,
            names: match self.names {
                Some(ns) => Some(strs(ns@)),
                None => None,
            },
            lowered: self.lowered@.map_values(|o: Option<String>| opt_str(o)),
            keep_params: self.keep_params@,
            keep_preds: self.keep_preds@,
            output: opt_str(self.output),
            extra_pred: opt_str(self.extra_pred),
        }
    }
}

/// The number of inputs after the first.
pub open spec fn n_after_first(sig: Signature) -> nat {
    if sig.inputs@.len() == 0 {
        0
    } else {
        (sig.inputs@.len() - 1) as nat
    }
}

/// The edit's lists line up with the signature's.
pub open spec fn edit_fits(sig: Signature, e: SigEditSpec) -> bool {
    &&& e.lowered.len() == n_after_first(sig)
    &&& e.names matches Some(ns) ==> ns.len() == e.lowered.len()
    &&& e.keep_params.len() == sig.params@.len()
    &&& e.keep_preds.len() == sig.where_clause@.len()
}

/// The text of a generic parameter.
pub open spec fn param_text(p: GenericParam) -> Seq<char> {
    match p {
        GenericParam::Lifetime(t) => t@,
        GenericParam::Type { text, .. } => text@,
        GenericParam::Const(t) => t@,
    }
}

/// The text of a `where` predicate.
pub open spec fn pred_text(p: WherePredicate) -> Seq<char> {
    match p {
        WherePredicate::Type { text, .. } => text@,
        WherePredicate::Other(t) => t@,
    }
}

/// The text of a pattern.
pub open spec fn pat_text(p: Pat) -> Seq<char> {
    match p {
        Pat::Ident { text, .. } => text@,
        Pat::Other(t) => t@,
    }
}

/// A typed argument written with the given name and type text.
pub open spec fn typed_text(pt: PatType, name: Seq<char>, ty: Seq<char>) -> Seq<char> {
    pt.attrs_text@ + " "@ + name + ": "@ + ty
}

/// The receiver text that replaces a by-value `self`.
pub open spec fn boxed_receiver_text() -> Seq<char> {
    "self: ::std::boxed::Box<Self>"@
}

/// The text of input `k` under the edit.
pub open spec fn input_text(sig: Signature, e: SigEditSpec, k: int) -> Seq<char> {
    match sig.inputs@[k] {
        FnArg::Receiver(r) => if k == 0 && e.box_receiver {
            boxed_receiver_text()
        } else {
            r.text@
        },
        FnArg::Typed(pt) => if k == 0 {
            typed_text(pt, pat_text(pt.pat), pt.ty.text@)
        } else {
            let name = match e.names {
                Some(ns) => ns[k - 1],
                None => pat_text(pt.pat),
            };
            let ty = match e.lowered[k - 1] {
                Some(t) => t,
                None => pt.ty.text@,
            };
            typed_text(pt, name, ty)
        },
    }
}

/// The texts of the kept items of a list.
pub open spec fn kept(texts: Seq<Seq<char>>, keep: Seq<bool>) -> Seq<Seq<char>>
    decreases texts.len(),
{
    if texts.len() == 0 {
        Seq::empty()
    } else {
        let prev = kept(texts.drop_last(), keep);
        if keep[texts.len() - 1] {
            prev.push(texts.last())
        } else {
            prev
        }
    }
}

/// The generic parameter list under the edit.
pub open spec fn generics_text(sig: Signature, e: SigEditSpec) -> Seq<char> {
    let ps = kept(sig.params@.map_values(|p: GenericParam| param_text(p)), e.keep_params);
    if ps.len() == 0 {
        Seq::empty()
    } else {
        "<"@ + join(ps, ", "@) + ">"@
    }
}

/// The `where` clause under the edit.
pub open spec fn where_text(sig: Signature, e: SigEditSpec) -> Seq<char> {
    let ps0 = kept(sig.where_clause@.map_values(|p: WherePredicate| pred_text(p)), e.keep_preds);
    let ps = match e.extra_pred {
        Some(x) => ps0.push(x),
        None => ps0,
    };
    if ps.len() == 0 {
        Seq::empty()
    } else {
        " where "@ + join(ps, ", "@)
    }
}

/// The parenthesized inputs under the edit.
pub open spec fn inputs_text(sig: Signature, e: SigEditSpec) -> Seq<char> {
    let ins = join(Seq::new(sig.inputs@.len(), |k: int| input_text(sig, e, k)), ", "@);
    let var = match sig.variadic {
        Some(v) => if sig.inputs@.len() > 0 {
            ", "@ + v@
        } else {
            v@
        },
        None => Seq::empty(),
    };
    "("@ + ins + var + ")"@
}

/// The return type under the edit.
pub open spec fn output_text(sig: Signature, e: SigEditSpec) -> Seq<char> {
    match e.output {
        Some(o) => " -> "@ + o,
        None => match sig.output {
            Some(t) => " -> "@ + t.text@,
            None => Seq::empty(),
        },
    }
}

/// The whole signature restated under the edit.
pub open spec fn sig_text(sig: Signature, e: SigEditSpec) -> Seq<char> {
    sig.qualifiers@ + " fn "@ + sig.ident@ + generics_text(sig, e) + inputs_text(sig, e)
        + output_text(sig, e) + where_text(sig, e)
}

fn kept_texts(texts: &Vec<String>, keep: &Vec<bool>) -> (r: Vec<String>)
    requires
        texts.len() == keep.len(),
    ensures
        strs(r@) == kept(strs(texts@), keep@),
{
    let mut out: Vec<String> = Vec::new();
    let mut i: usize = 0;
    while i < texts.len()
        invariant
            i <= texts.len(),
            texts.len() == keep.len(),
            strs(out@) == kept(strs(texts@).take(i as int), keep@),
        decreases texts.len() - i,
    {
        assert(strs(texts@).take(i + 1).drop_last() =~= strs(texts@).take(i as int));
        if keep[i] {
            let ghost before = out@;
            out.push(texts[i].clone());
            assert(strs(out@) =~= strs(before).push(texts@[i as int]@));
        }
        i += 1;
    }
    assert(strs(texts@).take(texts.len() as int) =~= strs(texts@));
    out
}

fn render_input(sig: &Signature, e: &SigEdit, k: usize) -> (r: String)
    requires
        k < sig.inputs.len(),
        edit_fits(*sig, e@),
    ensures
        r@ == input_text(*sig, e@, k as int),
{
    match &sig.inputs[k] {
        FnArg::Receiver(recv) => {
            if k == 0 && e.box_receiver {
                "self: ::std::boxed::Box<Self>".to_owned()
            } else {
                recv.text.clone()
            }
        },
        FnArg::Typed(pt) => {
            let mut out = pt.attrs_text.clone();
            push(&mut out, " ");
            let pat = match &pt.pat {
                Pat::Ident { text, .. } => text,
                Pat::Other(t) => t,
            };
            if k == 0 {
                push(&mut out, pat.as_str());
                push(&mut out, ": ");
                push(&mut out, pt.ty.text.as_str());
            } else {
                match &e.names {
                    Some(ns) => push(&mut out, ns[k - 1].as_str()),
                    None => push(&mut out, pat.as_str()),
                }
                push(&mut out, ": ");
                match &e.lowered[k - 1] {
                    Some(t) => push(&mut out, t.as_str()),
                    None => push(&mut out, pt.ty.text.as_str()),
                }
            }
            out
        },
    }
}

/// Restate a method signature under an edit.
pub fn render_sig(sig: &Signature, e: &SigEdit) -> (r: String)
    requires
        edit_fits(*sig, e@),
    ensures
        r@ == sig_text(*sig, e@),
{
    let mut out = sig.qualifiers.clone();
    push(&mut out, " fn ");
    push(&mut out, sig.ident.as_str());

    // Generic parameters.
    let mut ptexts: Vec<String> = Vec::new();
    let mut i: usize = 0;
    while i < sig.params.len()
        invariant
            i <= sig.params.len(),
            strs(ptexts@) == sig.params@.map_values(|p: GenericParam| param_text(p)).take(i as int),
        decreases sig.params.len() - i,
    {
        let t = match &sig.params[i] {
            GenericParam::Lifetime(t) => t.clone(),
            GenericParam::Type { text, .. } => text.clone(),
            GenericParam::Const(t) => t.clone(),
        };
        ptexts.push(t);
        assert(strs(ptexts@) =~= sig.params@.map_values(|p: GenericParam| param_text(p)).take(
            i + 1,
        ));
        i += 1;
    }
    assert(strs(ptexts@) =~= sig.params@.map_values(|p: GenericParam| param_text(p)));
    let ps = kept_texts(&ptexts, &e.keep_params);
    assert(ptexts@.len() == sig.params@.len());
    if ps.len() > 0 {
        push(&mut out, "<");
        let j = join_strs(&ps, ", ");
        push(&mut out, j.as_str());
        push(&mut out, ">");
    }
    assert(out@ =~= sig.qualifiers@ + " fn "@ + sig.ident@ + generics_text(*sig, e@));

    // Inputs.
    let ghost before_inputs = out@;
    let mut itexts: Vec<String> = Vec::new();
    let mut k: usize = 0;
    while k < sig.inputs.len()
        invariant
            k <= sig.inputs.len(),
            edit_fits(*sig, e@),
            strs(itexts@) == Seq::new(sig.inputs@.len(), |m: int| input_text(*sig, e@, m)).take(
                k as int,
            ),
        decreases sig.inputs.len() - k,
    {
        let t = render_input(sig, e, k);
        itexts.push(t);
        assert(strs(itexts@) =~= Seq::new(sig.inputs@.len(), |m: int| input_text(*sig, e@, m)).take(
            k + 1,
        ));
        k += 1;
    }
    assert(strs(itexts@) =~= Seq::new(sig.inputs@.len(), |m: int| input_text(*sig, e@, m)));
    push(&mut out, "(");
    let ins = join_strs(&itexts, ", ");
    push(&mut out, ins.as_str());
    match &sig.variadic {
        Some(v) => {
            if sig.inputs.len() > 0 {
                push(&mut out, ", ");
            }
            push(&mut out, v.as_str());
        },
        None => {},
    }
    push(&mut out, ")");
    assert(out@ =~= before_inputs + inputs_text(*sig, e@));

    // Return type.
    match &e.output {
        Some(o) => {
            push(&mut out, " -> ");
            push(&mut out, o.as_str());
        },
        None => match &sig.output {
            Some(t) => {
                push(&mut out, " -> ");
                push(&mut out, t.text.as_str());
            },
            None => {},
        },
    }

    // Where clause.
    let mut wtexts: Vec<String> = Vec::new();
    let mut w: usize = 0;
    while w < sig.where_clause.len()
        invariant
            w <= sig.where_clause.len(),
            strs(wtexts@) == sig.where_clause@.map_values(|p: WherePredicate| pred_text(p)).take(
                w as int,
            ),
        decreases sig.where_clause.len() - w,
    {
        let t = match &sig.where_clause[w] {
            WherePredicate::Type { text, .. } => text.clone(),
            WherePredicate::Other(t) => t.clone(),
        };
        wtexts.push(t);
        assert(strs(wtexts@) =~= sig.where_clause@.map_values(|p: WherePredicate| pred_text(p)).take(
            w + 1,
        ));
        w += 1;
    }
    assert(strs(wtexts@) =~= sig.where_clause@.map_values(|p: WherePredicate| pred_text(p)));
    let mut preds = kept_texts(&wtexts, &e.keep_preds);
    match &e.extra_pred {
        Some(x) => {
            let ghost before = preds@;
            preds.push(x.clone());
            assert(strs(preds@) =~= strs(before).push(x@));
        },
        None => {},
    }
    if preds.len() > 0 {
        push(&mut out, " where ");
        let j = join_strs(&preds, ", ");
        push(&mut out, j.as_str());
    }
    assert(out@ =~= sig_text(*sig, e@));
    out
}

/// `n` flags, all set.
pub fn all_true(n: usize) -> (r: Vec<bool>)
    ensures
        r@.len() == n,
        forall|k: int| 0 <= k < n ==> r@[k],
{
    let mut v: Vec<bool> = Vec::new();
    let mut i: usize = 0;
    while i < n
        invariant
            i <= n,
            v@.len() == i,
            forall|k: int| 0 <= k < i ==> v@[k],
        decreases n - i,
    {
        v.push(true);
        i += 1;
    }
    v
}

} // verus!
