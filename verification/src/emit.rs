//! Pieces of an expansion that restate the input or document the output:
//! the re-emitted source trait, the doc lines of the generated shim, the
//! checks every entry point runs on the annotated trait, and doc attributes.

use vstd::prelude::*;
use crate::bounds::{doc_line_text, plain_path, RecognizedBound};
use crate::erase::{attr_texts, select_attrs};
use crate::forward::{spaced, spaced_strs};
use crate::model::{
    diag_view, Attribute, Bound, Diagnostic, ItemTrait, Path, PathSegment, Site, TraitItem,
    TraitItemFn,
};
use crate::render::{join, join_strs, strs};
use crate::text::{literal, push, str_eq, str_literal};

verus! {

// ---------------------------------------------------------------------------
// Doc attributes.

/// A `#[doc = "..."]` attribute carrying one line.
pub open spec fn doc_attr(line: Seq<char>) -> Seq<char> {
    "#[doc = "@ + str_literal(line) + "]"@
}

/// One doc attribute per line, each followed by a space.
pub open spec fn doc_attrs(lines: Seq<Seq<char>>) -> Seq<char> {
    spaced(lines.map_values(|l: Seq<char>| doc_attr(l)))
}

/// Write one doc attribute per line.
pub fn doc_attrs_text(lines: &Vec<String>) -> (r: String)
    ensures
        r@ == doc_attrs(strs(lines@)),
{
    let mut attrs: Vec<String> = Vec::new();
    let mut i: usize = 0;
    while i < lines.len()
        invariant
            i <= lines.len(),
            strs(attrs@) == strs(lines@).take(i as int).map_values(|l: Seq<char>| doc_attr(l)),
        decreases lines.len() - i,
    {
        let mut a = "#[doc = ".to_owned();
        let lit = literal(lines[i].as_str());
        push(&mut a, lit.as_str());
        push(&mut a, "]");
        assert(a@ =~= doc_attr(lines@[i as int]@));
        let ghost before = attrs@;
        attrs.push(a);
        assert(strs(attrs@) =~= strs(before).push(a@));
        assert(strs(lines@).take(i + 1).map_values(|l: Seq<char>| doc_attr(l)) =~= strs(lines@).take(
            i as int,
        ).map_values(|l: Seq<char>| doc_attr(l)).push(doc_attr(lines@[i as int]@)));
        i += 1;
    }
    assert(strs(lines@).take(lines.len() as int) =~= strs(lines@));
    spaced_strs(&attrs)
}

// ---------------------------------------------------------------------------
// Checks on the annotated trait.

/// If the annotated trait has any generic parameters, the error to report at
/// the first one: every entry point builds non-parameterized output, so a
/// type, const, or lifetime parameter has nowhere to go.
pub fn reject_generics(input: &ItemTrait, message: &str) -> (r: Option<Diagnostic>)
    ensures
        match r {
            Some(d) => input.generics@.len() > 0 && diag_view(d) == (Site::TraitGeneric, message@),
            None => input.generics@.len() == 0,
        },
{
    if input.generics.len() > 0 {
        Some(Diagnostic { site: Site::TraitGeneric, message: message.to_owned() })
    } else {
        None
    }
}

/// The identifier of a path's last segment (empty for a path without
/// segments).
pub open spec fn last_ident(p: Path) -> Seq<char> {
    if p.segments@.len() > 0 {
        p.segments@.last().ident@
    } else {
        Seq::empty()
    }
}

/// The bound is a plain trait bound whose path ends in `name`.
pub open spec fn bound_ends_in(b: Bound, name: Seq<char>) -> bool {
    plain_path(b) matches Some(p) && p.segments@.len() > 0 && p.segments@.last().ident@ == name
}

/// The trait lists a supertrait whose path ends in `name`.
pub open spec fn inherits(input: ItemTrait, name: Seq<char>) -> bool {
    exists|i: int| 0 <= i < input.supertraits@.len() && #[trigger] bound_ends_in(input.supertraits@[i], name)
}

/// The message for a carrier the annotated trait does not inherit.
pub open spec fn msg_missing_carrier(name: Seq<char>, trait_ident: Seq<char>) -> Seq<char> {
    "trait_object needs `"@ + name + "` as a supertrait; write `trait "@ + trait_ident + ": "@ + name
        + "`"@
}

fn last_ident_exec(p: &Path) -> (r: &str)
    ensures
        r@ == last_ident(*p),
{
    proof {
        reveal_strlit("");
    }
    let n = p.segments.len();
    if n > 0 {
        p.segments[n - 1].ident.as_str()
    } else {
        ""
    }
}

/// Check that the annotated trait inherits `carrier` as a supertrait, matched
/// by the last segment of the carrier's path (a bare-name token match).
pub fn require_carrier(input: &ItemTrait, carrier: &Path) -> (r: Result<(), Diagnostic>)
    ensures
        match r {
            Ok(()) => inherits(*input, last_ident(*carrier)),
            Err(d) => !inherits(*input, last_ident(*carrier)) && diag_view(d) == (
                Site::TraitIdent,
                msg_missing_carrier(last_ident(*carrier), input.ident@),
            ),
        },
{
    let name = last_ident_exec(carrier);
    let mut i: usize = 0;
    while i < input.supertraits.len()
        invariant
            i <= input.supertraits.len(),
            forall|j: int| 0 <= j < i ==> !bound_ends_in(#[trigger] input.supertraits@[j], name@),
        decreases input.supertraits.len() - i,
    {
        let hit = match crate::bounds::plain_trait_bound(&input.supertraits[i]) {
            Some(p) => p.segments.len() > 0 && str_eq(
                p.segments[p.segments.len() - 1].ident.as_str(),
                name,
            ),
            None => false,
        };
        if hit {
            assert(bound_ends_in(input.supertraits@[i as int], name@));
            return Ok(());
        }
        i += 1;
    }
    let mut m = "trait_object needs `".to_owned();
    push(&mut m, name);
    push(&mut m, "` as a supertrait; write `trait ");
    push(&mut m, input.ident.as_str());
    push(&mut m, ": ");
    push(&mut m, name);
    push(&mut m, "`");
    assert(m@ =~= msg_missing_carrier(name@, input.ident@));
    Err(Diagnostic { site: Site::TraitIdent, message: m })
}

// ---------------------------------------------------------------------------
// Documentation.

/// A path written `a::b::C` for doc links, without generic arguments.
pub open spec fn path_doc(p: Path) -> Seq<char> {
    (if p.leading_colon {
        "::"@
    } else {
        Seq::empty()
    }) + join(p.segments@.map_values(|s: PathSegment| s.ident@), "::"@)
}

/// Render a path as `a::b::C` for doc links, dropping any generic arguments.
pub fn path_doc_string(path: &Path) -> (r: String)
    ensures
        r@ == path_doc(*path),
{
    let mut idents: Vec<String> = Vec::new();
    let mut i: usize = 0;
    while i < path.segments.len()
        invariant
            i <= path.segments.len(),
            strs(idents@) == path.segments@.map_values(|s: PathSegment| s.ident@).take(i as int),
        decreases path.segments.len() - i,
    {
        idents.push(path.segments[i].ident.clone());
        assert(strs(idents@) =~= path.segments@.map_values(|s: PathSegment| s.ident@).take(i + 1));
        i += 1;
    }
    assert(strs(idents@) =~= path.segments@.map_values(|s: PathSegment| s.ident@));
    let mut out = if path.leading_colon {
        "::".to_owned()
    } else {
        String::new()
    };
    let j = join_strs(&idents, "::");
    push(&mut out, j.as_str());
    out
}

/// The doc lines appended to the source trait, pointing readers at the
/// generated shim.
pub open spec fn source_note_spec(shim: Seq<char>) -> Seq<Seq<char>> {
    seq![
        Seq::empty(),
        "# Dyn Compatibility"@,
        Seq::empty(),
        "[`"@ + shim
            + "`] is a generated dyn-compatible shim for this trait. Use `dyn "@ + shim
            + "` to hold implementors behind a trait object."@,
    ]
}

/// Build the doc lines appended to the source trait.
pub fn source_note(shim: &str) -> (r: Vec<String>)
    ensures
        strs(r@) == source_note_spec(shim@),
{
    let mut last = "[`".to_owned();
    push(&mut last, shim);
    push(&mut last, "`] is a generated dyn-compatible shim for this trait. Use `dyn ");
    push(&mut last, shim);
    push(&mut last, "` to hold implementors behind a trait object.");
    let mut v: Vec<String> = Vec::new();
    v.push(String::new());
    v.push("# Dyn Compatibility".to_owned());
    v.push(String::new());
    v.push(last);
    assert(strs(v@) =~= source_note_spec(shim@));
    v
}

/// The doc line listing one skipped method and why it was skipped.
pub open spec fn skipped_line(src: Seq<char>, s: (Seq<char>, Seq<char>)) -> Seq<char> {
    "- [`"@ + src + "::"@ + s.0 + "`] ("@ + s.1 + ")"@
}

/// The doc lines of the generated shim: the source it shims, the
/// capabilities added by recognized bounds, and the source methods that were
/// skipped and why.
pub open spec fn shim_doc_spec(src: Seq<char>, shim: Seq<char>, recognized: Seq<RecognizedBound>, skipped: Seq<(Seq<char>, Seq<char>)>) -> Seq<Seq<char>> {
    seq!["Dyn-compatible shim for [`"@ + src + "`]."@] + (if recognized.len() > 0 {
        seq![Seq::<char>::empty()] + recognized.map_values(
            |k: RecognizedBound| doc_line_text(k, shim),
        )
    } else {
        Seq::empty()
    }) + (if skipped.len() > 0 {
        seq![
            Seq::<char>::empty(),
            "These methods of the source trait are not dyn-compatible, so they"@,
            "are not part of this shim. Call them on the concrete type."@,
            Seq::<char>::empty(),
        ] + skipped.map_values(|s: (Seq<char>, Seq<char>)| skipped_line(src, s))
    } else {
        Seq::empty()
    })
}

/// The plain-value view of the skipped methods' names and reasons.
pub open spec fn skipped_view(v: Seq<(String, &'static str)>) -> Seq<(Seq<char>, Seq<char>)> {
    v.map_values(|p: (String, &'static str)| (p.0@, p.1@))
}

/// Build the doc lines for the generated shim trait.
pub fn shim_doc(src: &str, shim: &str, recognized: &Vec<RecognizedBound>, skipped: &Vec<(String, &'static str)>) -> (r: Vec<String>)
    ensures
        strs(r@) == shim_doc_spec(src@, shim@, recognized@, skipped_view(skipped@)),
{
    let mut lines: Vec<String> = Vec::new();
    let mut first = "Dyn-compatible shim for [`".to_owned();
    push(&mut first, src);
    push(&mut first, "`].");
    lines.push(first);
    let ghost head = strs(lines@);
    if recognized.len() > 0 {
        lines.push(String::new());
        let mut i: usize = 0;
        while i < recognized.len()
            invariant
                i <= recognized.len(),
                strs(lines@) == head + seq![Seq::<char>::empty()] + recognized@.take(i as int).map_values(
                    |k: RecognizedBound| doc_line_text(k, shim@),
                ),
            decreases recognized.len() - i,
        {
            let l = recognized[i].doc_line(shim);
            let ghost before = lines@;
            lines.push(l);
            assert(strs(lines@) =~= strs(before).push(l@));
            assert(recognized@.take(i + 1).map_values(|k: RecognizedBound| doc_line_text(k, shim@))
                =~= recognized@.take(i as int).map_values(
                |k: RecognizedBound| doc_line_text(k, shim@),
            ).push(l@));
            i += 1;
        }
        assert(recognized@.take(recognized.len() as int) =~= recognized@);
    }
    let ghost mid = strs(lines@);
    assert(mid =~= seq!["Dyn-compatible shim for [`"@ + src@ + "`]."@] + (if recognized@.len() > 0 {
        seq![Seq::<char>::empty()] + recognized@.map_values(
            |k: RecognizedBound| doc_line_text(k, shim@),
        )
    } else {
        Seq::empty()
    }));
    if skipped.len() > 0 {
        lines.push(String::new());
        lines.push("These methods of the source trait are not dyn-compatible, so they".to_owned());
        lines.push("are not part of this shim. Call them on the concrete type.".to_owned());
        lines.push(String::new());
        let ghost intro = strs(lines@);
        let mut i: usize = 0;
        while i < skipped.len()
            invariant
                i <= skipped.len(),
                strs(lines@) == intro + skipped_view(skipped@).take(i as int).map_values(
                    |s: (Seq<char>, Seq<char>)| skipped_line(src@, s),
                ),
            decreases skipped.len() - i,
        {
            let mut l = "- [`".to_owned();
            push(&mut l, src);
            push(&mut l, "::");
            push(&mut l, skipped[i].0.as_str());
            push(&mut l, "`] (");
            push(&mut l, skipped[i].1);
            push(&mut l, ")");
            assert(l@ =~= skipped_line(src@, skipped_view(skipped@)[i as int]));
            let ghost before = lines@;
            lines.push(l);
            assert(strs(lines@) =~= strs(before).push(l@));
            assert(skipped_view(skipped@).take(i + 1).map_values(
                |s: (Seq<char>, Seq<char>)| skipped_line(src@, s),
            ) =~= skipped_view(skipped@).take(i as int).map_values(
                |s: (Seq<char>, Seq<char>)| skipped_line(src@, s),
            ).push(l@));
            i += 1;
        }
        assert(skipped_view(skipped@).take(skipped.len() as int) =~= skipped_view(skipped@));
        assert(intro =~= mid + seq![
            Seq::<char>::empty(),
            "These methods of the source trait are not dyn-compatible, so they"@,
            "are not part of this shim. Call them on the concrete type."@,
            Seq::<char>::empty(),
        ]);
    }
    assert(strs(lines@) =~= shim_doc_spec(src@, shim@, recognized@, skipped_view(skipped@)));
    lines
}

// ---------------------------------------------------------------------------
// Restating the annotated trait.

/// A method restated without its `#[dyn_shim]` helper attributes.
pub open spec fn method_text(m: TraitItemFn) -> Seq<char> {
    spaced(attr_texts(m.attrs@, "dyn_shim"@, false)) + m.sig.text@ + match m.default {
        Some(b) => " "@ + b@,
        None => ";"@,
    }
}

/// A trait item restated: a method without its helper attributes, any other
/// item as written.
pub open spec fn item_text(it: TraitItem) -> Seq<char> {
    match it {
        TraitItem::Fn(m) => method_text(m),
        TraitItem::Const { text, .. } => text@,
        TraitItem::Type { text, .. } => text@,
        TraitItem::Macro { text, .. } => text@,
        TraitItem::Other(t) => t@,
    }
}

/// Restate a method without its `#[dyn_shim]` helper attributes.
pub fn method_text_exec(m: &TraitItemFn) -> (r: String)
    ensures
        r@ == method_text(*m),
{
    let attrs = select_attrs(&m.attrs, "dyn_shim", false);
    let mut out = spaced_strs(&attrs);
    push(&mut out, m.sig.text.as_str());
    match &m.default {
        Some(b) => {
            push(&mut out, " ");
            push(&mut out, b.as_str());
        },
        None => push(&mut out, ";"),
    }
    out
}

fn item_text_exec(it: &TraitItem) -> (r: String)
    ensures
        r@ == item_text(*it),
{
    match it {
        TraitItem::Fn(m) => method_text_exec(m),
        TraitItem::Const { text, .. } => text.clone(),
        TraitItem::Type { text, .. } => text.clone(),
        TraitItem::Macro { text, .. } => text.clone(),
        TraitItem::Other(t) => t.clone(),
    }
}

/// The texts of a list of attributes.
pub open spec fn attrs_texts(attrs: Seq<Attribute>) -> Seq<Seq<char>> {
    attrs.map_values(|a: Attribute| a.text@)
}

/// The source trait re-emitted: its own attributes, the doc note pointing at
/// the shim, and its items with the helper attributes removed.
pub open spec fn clean_spec(input: ItemTrait, shim: Seq<char>) -> Seq<char> {
    spaced(attrs_texts(input.attrs@)) + doc_attrs(source_note_spec(shim)) + input.header@ + " { "@
        + spaced(input.items@.map_values(|it: TraitItem| item_text(it))) + "}"@
}

/// Re-emit the source trait without the `#[dyn_shim(...)]` helper attributes
/// on its methods, and point its docs at the generated shim.
pub fn clean_text(input: &ItemTrait, shim: &str) -> (r: String)
    ensures
        r@ == clean_spec(*input, shim@),
{
    let mut attrs: Vec<String> = Vec::new();
    let mut i: usize = 0;
    while i < input.attrs.len()
        invariant
            i <= input.attrs.len(),
            strs(attrs@) == attrs_texts(input.attrs@).take(i as int),
        decreases input.attrs.len() - i,
    {
        attrs.push(input.attrs[i].text.clone());
        assert(strs(attrs@) =~= attrs_texts(input.attrs@).take(i + 1));
        i += 1;
    }
    assert(strs(attrs@) =~= attrs_texts(input.attrs@));
    let mut items: Vec<String> = Vec::new();
    let mut k: usize = 0;
    while k < input.items.len()
        invariant
            k <= input.items.len(),
            strs(items@) == input.items@.map_values(|it: TraitItem| item_text(it)).take(k as int),
        decreases input.items.len() - k,
    {
        let t = item_text_exec(&input.items[k]);
        items.push(t);
        assert(strs(items@) =~= input.items@.map_values(|it: TraitItem| item_text(it)).take(k + 1));
        k += 1;
    }
    assert(strs(items@) =~= input.items@.map_values(|it: TraitItem| item_text(it)));
    let mut out = spaced_strs(&attrs);
    let note = source_note(shim);
    let docs = doc_attrs_text(&note);
    push(&mut out, docs.as_str());
    push(&mut out, input.header.as_str());
    push(&mut out, " { ");
    let body = spaced_strs(&items);
    push(&mut out, body.as_str());
    push(&mut out, "}");
    out
}

} // verus!
