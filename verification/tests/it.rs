// Several methods declare lifetimes that could be elided; they are explicit on
// purpose, to exercise lifetime forwarding.
#![allow(clippy::needless_lifetimes)]
#![allow(dead_code)]

//! Each scenario builds the annotated trait as the library reads it, checks
//! what the attribute expands to, and then runs the expected behaviour
//! against that expansion written out below.

use dyn_shim::attribute::{ForeignArgs, ShimArgs};
use dyn_shim::bounds::{
    parse_reflexive, AutoTrait, ClassifiedBounds, Features, MarkerCombo, ObjectForm, RecognizedBound,
    ReflexiveArg,
};
use dyn_shim::expand::Expansion;
use dyn_shim::model::{
    AttrArgs, Attribute, Bound, BoundKind, FnArg, GenericArgument, GenericParam, ItemTrait,
    NestedMeta, Pat, PatType, Path, PathArguments, PathSegment, Receiver, Signature, TraitItem,
    TraitItemFn, Ty, TyKind, WherePredicate,
};
use dyn_shim::model::Site;
use dyn_shim::text::literal;
use dyn_shim::{dyn_shim, dyn_shim_foreign, dyn_shim_recognized, trait_object};
use dyn_shim::DynHash;
use std::borrow::Cow;
use std::fmt::Display;
use std::hash::{BuildHasher, BuildHasherDefault, DefaultHasher};
use std::pin::Pin;
use std::rc::Rc;
use std::sync::Arc;

// ---------------------------------------------------------------------------
// Building the annotated traits.

const FEATURES: Features = Features { dyn_clone: true, dyn_hash: true };

fn squash(s: &str) -> String {
    s.chars().filter(|c| !c.is_whitespace()).collect()
}

fn has(code: &str, piece: &str) {
    assert!(squash(code).contains(&squash(piece)), "expected `{}` in:\n{}", piece, code);
}

fn lacks(code: &str, piece: &str) {
    assert!(!squash(code).contains(&squash(piece)), "did not expect `{}` in:\n{}", piece, code);
}

fn count(code: &str, piece: &str) -> usize {
    squash(code).matches(&squash(piece)).count()
}

fn ok(e: Expansion) -> String {
    let msgs: Vec<String> = e.errors.iter().map(|d| d.message.clone()).collect();
    assert!(msgs.is_empty(), "unexpected errors: {:?}", msgs);
    e.code
}

fn err(e: Expansion) -> (Site, String) {
    assert_eq!(e.errors.len(), 1, "expected one error, code: {}", e.code);
    (e.errors[0].site, e.errors[0].message.clone())
}

fn seg(ident: &str, args: PathArguments) -> PathSegment {
    PathSegment { ident: ident.to_string(), args }
}

fn path(text: &str) -> Path {
    let leading = text.starts_with("::");
    let body = text.trim_start_matches("::");
    Path {
        text: text.to_string(),
        leading_colon: leading,
        segments: body.split("::").map(|s| seg(s, PathArguments::Plain)).collect(),
    }
}

fn path_ty(text: &str) -> Ty {
    Ty { text: text.to_string(), kind: TyKind::Path { qself: None, path: path(text) } }
}

fn self_ty() -> Ty {
    path_ty("Self")
}

fn generic_ty(outer: &str, inner: Ty) -> Ty {
    let text = format!("{}<{}>", outer, inner.text);
    let p = Path {
        text: text.clone(),
        leading_colon: false,
        segments: vec![seg(outer, PathArguments::AngleBracketed(vec![GenericArgument::Type(inner)]))],
    };
    Ty { text, kind: TyKind::Path { qself: None, path: p } }
}

fn ref_ty(lifetime: Option<&str>, mutable: bool, elem: Ty) -> Ty {
    let lt = match lifetime {
        Some(l) => format!("{} ", l),
        None => String::new(),
    };
    let text = format!("&{}{}{}", lt, if mutable { "mut " } else { "" }, elem.text);
    Ty {
        text,
        kind: TyKind::Reference {
            lifetime: lifetime.map(|l| l.to_string()),
            mutable,
            elem: Box::new(elem),
        },
    }
}

fn other_ty(text: &str, tys: Vec<Ty>, bounds: Vec<Bound>) -> Ty {
    Ty { text: text.to_string(), kind: TyKind::Other(tys, bounds) }
}

fn impl_ty(bound_text: &str) -> Ty {
    Ty { text: format!("impl {}", bound_text), kind: TyKind::ImplTrait(vec![bound(bound_text)]) }
}

fn bound(text: &str) -> Bound {
    Bound { text: text.to_string(), kind: BoundKind::Trait { modifier: false, binder: false, path: path(text) } }
}

fn recv(text: &str, reference: bool, mutable: bool, colon: bool, ty: Ty) -> FnArg {
    FnArg::Receiver(Receiver { text: text.to_string(), reference, mutable, colon, ty })
}

fn recv_ref() -> FnArg {
    recv("&self", true, false, false, ref_ty(None, false, self_ty()))
}

fn recv_mut() -> FnArg {
    recv("&mut self", true, true, false, ref_ty(None, true, self_ty()))
}

fn recv_value() -> FnArg {
    recv("self", false, false, false, self_ty())
}

fn recv_typed(ty: Ty) -> FnArg {
    let text = format!("self: {}", ty.text);
    recv(&text, false, false, true, ty)
}

fn arg(name: &str, ty: Ty) -> FnArg {
    FnArg::Typed(PatType {
        attrs_text: String::new(),
        pat: Pat::Ident { text: name.to_string(), ident: name.to_string(), by_ref: false, subpat: false },
        ty,
    })
}

fn input_text(a: &FnArg) -> String {
    match a {
        FnArg::Receiver(r) => r.text.clone(),
        FnArg::Typed(pt) => {
            let pat = match &pt.pat {
                Pat::Ident { text, .. } => text.clone(),
                Pat::Other(t) => t.clone(),
            };
            format!("{}: {}", pat, pt.ty.text)
        },
    }
}

fn param_text(p: &GenericParam) -> String {
    match p {
        GenericParam::Lifetime(t) => t.clone(),
        GenericParam::Type { text, .. } => text.clone(),
        GenericParam::Const(t) => t.clone(),
    }
}

fn pred_text(p: &WherePredicate) -> String {
    match p {
        WherePredicate::Type { text, .. } => text.clone(),
        WherePredicate::Other(t) => t.clone(),
    }
}

fn full_sig(
    qualifiers: &str,
    name: &str,
    params: Vec<GenericParam>,
    inputs: Vec<FnArg>,
    output: Option<Ty>,
    preds: Vec<WherePredicate>,
) -> Signature {
    let mut text = String::new();
    if !qualifiers.is_empty() {
        text.push_str(qualifiers);
        text.push(' ');
    }
    text.push_str("fn ");
    text.push_str(name);
    if !params.is_empty() {
        let ps: Vec<String> = params.iter().map(param_text).collect();
        text.push_str(&format!("<{}>", ps.join(", ")));
    }
    let ins: Vec<String> = inputs.iter().map(input_text).collect();
    text.push_str(&format!("({})", ins.join(", ")));
    if let Some(o) = &output {
        text.push_str(&format!(" -> {}", o.text));
    }
    if !preds.is_empty() {
        let ps: Vec<String> = preds.iter().map(pred_text).collect();
        text.push_str(&format!(" where {}", ps.join(", ")));
    }
    Signature {
        text,
        qualifiers: qualifiers.to_string(),
        asyncness: false,
        ident: name.to_string(),
        params,
        where_clause: preds,
        inputs,
        variadic: None,
        output,
    }
}

fn sig(name: &str, inputs: Vec<FnArg>, output: Option<Ty>) -> Signature {
    full_sig("", name, vec![], inputs, output, vec![])
}

fn method(attrs: Vec<Attribute>, s: Signature) -> TraitItem {
    TraitItem::Fn(TraitItemFn { attrs, sig: s, default: None })
}

fn provided(s: Signature, body: &str) -> TraitItem {
    TraitItem::Fn(TraitItemFn { attrs: vec![], sig: s, default: Some(body.to_string()) })
}

fn helper(name: &str) -> Attribute {
    Attribute {
        text: format!("#[dyn_shim({})]", name),
        ident: Some("dyn_shim".to_string()),
        args: AttrArgs::List(vec![NestedMeta { ident: Some(name.to_string()), value: None, list: false }]),
    }
}

fn plain_attr(text: &str, ident: &str) -> Attribute {
    Attribute { text: text.to_string(), ident: Some(ident.to_string()), args: AttrArgs::NotList(String::new()) }
}

fn item_text(it: &TraitItem) -> String {
    match it {
        TraitItem::Fn(m) => {
            let attrs: Vec<String> = m.attrs.iter().map(|a| a.text.clone()).collect();
            let body = match &m.default {
                Some(b) => format!(" {}", b),
                None => ";".to_string(),
            };
            format!("{} {}{}", attrs.join(" "), m.sig.text, body)
        },
        TraitItem::Const { text, .. } => text.clone(),
        TraitItem::Type { text, .. } => text.clone(),
        TraitItem::Macro { text, .. } => text.clone(),
        TraitItem::Other(t) => t.clone(),
    }
}

fn trait_with(attrs: Vec<Attribute>, name: &str, supers: Vec<Bound>, items: Vec<TraitItem>) -> ItemTrait {
    let mut header = format!("trait {}", name);
    if !supers.is_empty() {
        let ss: Vec<String> = supers.iter().map(|b| b.text.clone()).collect();
        header.push_str(&format!(": {}", ss.join(" + ")));
    }
    let its: Vec<String> = items.iter().map(item_text).collect();
    let at: Vec<String> = attrs.iter().map(|a| a.text.clone()).collect();
    let text = format!("{} {} {{ {} }}", at.join(" "), header, its.join(" "));
    ItemTrait {
        text,
        attrs,
        header,
        vis: String::new(),
        ident: name.to_string(),
        generics: vec![],
        supertraits: supers,
        items,
    }
}

fn shim_args(name: &str, bounds: Vec<Bound>, reflexive: Option<Vec<&str>>) -> ShimArgs {
    ShimArgs {
        shim_name: name.to_string(),
        bounds,
        reflexive: reflexive.map(|ks| ReflexiveArg {
            key: "reflexive".to_string(),
            kinds: ks.iter().map(|k| k.to_string()).collect(),
        }),
    }
}

fn expand_local(name: &str, bounds: Vec<Bound>, reflexive: Option<Vec<&str>>, item: &ItemTrait) -> String {
    ok(dyn_shim(&shim_args(name, bounds, reflexive), item, FEATURES))
}

// ---------------------------------------------------------------------------
// A source trait with every kind of receiver-taking method, and two it skips.

fn sized_trait_model() -> ItemTrait {
    trait_with(
        vec![plain_attr("#[allow(dead_code)]", "allow")],
        "SizedTrait",
        vec![],
        vec![
            method(vec![], sig("name", vec![recv_ref()], Some(path_ty("String")))),
            method(vec![], sig("bump", vec![recv_mut(), arg("by", path_ty("i32"))], None)),
            method(
                vec![],
                sig("add", vec![recv_ref(), arg("a", path_ty("i32")), arg("b", path_ty("i32"))], Some(path_ty("i32"))),
            ),
            method(vec![], sig("drain", vec![recv_mut()], Some(path_ty("String")))),
            method(
                vec![],
                sig("consume", vec![recv_value(), arg("suffix", ref_ty(None, false, path_ty("str")))], Some(path_ty("String"))),
            ),
            method(
                vec![],
                full_sig(
                    "",
                    "tagged",
                    vec![GenericParam::Lifetime("'a".to_string())],
                    vec![recv_ref(), arg("tag", ref_ty(Some("'a"), false, path_ty("str")))],
                    Some(path_ty("String")),
                    vec![WherePredicate::Other("'a: 'a".to_string())],
                ),
            ),
            method(
                vec![],
                full_sig(
                    "",
                    "show",
                    vec![GenericParam::Lifetime("'a".to_string())],
                    vec![
                        recv_ref(),
                        arg("x", ref_ty(Some("'a"), false, other_ty("dyn Display", vec![], vec![bound("Display")]))),
                    ],
                    Some(path_ty("String")),
                    vec![],
                ),
            ),
            method(vec![], sig("make", vec![], Some(self_ty()))),
            method(vec![], sig("answer", vec![], Some(path_ty("i32")))),
        ],
    )
}

fn check_sized_trait_expansion() {
    let code = expand_local("DynTrait", vec![], None, &sized_trait_model());
    // The source trait is re-emitted with a note pointing at the shim.
    has(&code, "#[allow(dead_code)] #[doc = \"\"] #[doc = \"# Dyn Compatibility\"]");
    has(&code, "trait SizedTrait { fn name(&self) -> String;");
    // The shim keeps the dispatchable methods, boxing the by-value receiver.
    has(
        &code,
        "trait DynTrait { fn name(&self) -> String; fn bump(&mut self, by: i32); \
         fn add(&self, a: i32, b: i32) -> i32; fn drain(&mut self) -> String; \
         fn consume(self: ::std::boxed::Box<Self>, suffix: &str) -> String; \
         fn tagged<'a>(&self, tag: &'a str) -> String where 'a: 'a; \
         fn show<'a>(&self, x: &'a dyn Display) -> String; }",
    );
    has(&code, "impl<__T: SizedTrait> DynTrait for __T {");
    has(
        &code,
        "#[allow(deprecated)] fn consume(self: ::std::boxed::Box<Self>, suffix: &str) -> String \
         { <__T as SizedTrait>::consume(*self, suffix) }",
    );
    has(&code, "{ <__T as SizedTrait>::add(self, a, b) }");
    has(&code, "{ <__T as SizedTrait>::tagged(self, tag) }");
    // The skipped methods are documented on the shim, and nothing else forwards them.
    has(&code, "#[doc = \"- [`SizedTrait::make`] (no self receiver)\"]");
    has(&code, "#[doc = \"- [`SizedTrait::answer`] (no self receiver)\"]");
    lacks(&code, "<__T as SizedTrait>::make");
    // Neither reflexive form can place `make`, so there is no mount macro.
    lacks(&code, "macro_rules!");
}

#[allow(dead_code)]
trait SizedTrait {
    fn name(&self) -> String;
    fn bump(&mut self, by: i32);
    fn add(&self, a: i32, b: i32) -> i32;
    fn drain(&mut self) -> String;
    fn consume(self, suffix: &str) -> String;
    fn tagged<'a>(&self, tag: &'a str) -> String
    where
        'a: 'a;
    fn show<'a>(&self, x: &'a dyn Display) -> String;
    fn make() -> Self;
    fn answer() -> i32;
}

trait DynTrait {
    fn name(&self) -> String;
    fn bump(&mut self, by: i32);
    fn add(&self, a: i32, b: i32) -> i32;
    fn drain(&mut self) -> String;
    fn consume(self: ::std::boxed::Box<Self>, suffix: &str) -> String;
    fn tagged<'a>(&self, tag: &'a str) -> String
    where
        'a: 'a;
    fn show<'a>(&self, x: &'a dyn Display) -> String;
}

impl<__T: SizedTrait> DynTrait for __T {
    fn name(&self) -> String {
        <__T as SizedTrait>::name(self)
    }
    fn bump(&mut self, by: i32) {
        <__T as SizedTrait>::bump(self, by)
    }
    fn add(&self, a: i32, b: i32) -> i32 {
        <__T as SizedTrait>::add(self, a, b)
    }
    fn drain(&mut self) -> String {
        <__T as SizedTrait>::drain(self)
    }
    fn consume(self: ::std::boxed::Box<Self>, suffix: &str) -> String {
        <__T as SizedTrait>::consume(*self, suffix)
    }
    fn tagged<'a>(&self, tag: &'a str) -> String
    where
        'a: 'a,
    {
        <__T as SizedTrait>::tagged(self, tag)
    }
    fn show<'a>(&self, x: &'a dyn Display) -> String {
        <__T as SizedTrait>::show(self, x)
    }
}

struct Foo(i32);
struct Bar(String);

impl SizedTrait for Foo {
    fn name(&self) -> String {
        format!("Foo({})", self.0)
    }
    fn bump(&mut self, by: i32) {
        self.0 += by;
    }
    fn add(&self, a: i32, b: i32) -> i32 {
        self.0 + a + b
    }
    fn drain(&mut self) -> String {
        let s = format!("drained {}", self.0);
        self.0 = 0;
        s
    }
    fn consume(self, suffix: &str) -> String {
        format!("Foo gone:{}{}", self.0, suffix)
    }
    fn tagged<'a>(&self, tag: &'a str) -> String
    where
        'a: 'a,
    {
        format!("[{}]Foo{}", tag, self.0)
    }
    fn show<'a>(&self, x: &'a dyn Display) -> String {
        format!("Foo<{}>", x)
    }
    fn make() -> Self {
        Foo(0)
    }
    fn answer() -> i32 {
        42
    }
}

impl SizedTrait for Bar {
    fn name(&self) -> String {
        format!("Bar({})", self.0)
    }
    fn bump(&mut self, by: i32) {
        self.0.push_str(&"!".repeat(by.max(0) as usize));
    }
    fn add(&self, a: i32, b: i32) -> i32 {
        self.0.len() as i32 + a + b
    }
    fn drain(&mut self) -> String {
        let s = format!("drained {}", self.0);
        self.0.clear();
        s
    }
    fn consume(self, suffix: &str) -> String {
        format!("Bar gone:{}{}", self.0, suffix)
    }
    fn tagged<'a>(&self, tag: &'a str) -> String
    where
        'a: 'a,
    {
        format!("[{}]Bar{}", tag, self.0)
    }
    fn show<'a>(&self, x: &'a dyn Display) -> String {
        format!("Bar<{}>", x)
    }
    fn make() -> Self {
        Bar(String::new())
    }
    fn answer() -> i32 {
        42
    }
}

#[test]
fn shared_ref_dispatch() {
    check_sized_trait_expansion();
    let r: &dyn DynTrait = &Foo(7);
    assert_eq!(r.name(), "Foo(7)");
}

#[test]
fn multi_arg() {
    check_sized_trait_expansion();
    let r: &dyn DynTrait = &Foo(10);
    assert_eq!(r.add(3, 4), 17);
}

#[test]
fn mut_ref_dispatch() {
    check_sized_trait_expansion();
    let mut b = Bar("x".into());
    let r: &mut dyn DynTrait = &mut b;
    r.bump(3);
    assert_eq!(r.name(), "Bar(x!!!)");
}

#[test]
fn mut_ref_returns_value() {
    check_sized_trait_expansion();
    let mut f = Foo(5);
    let r: &mut dyn DynTrait = &mut f;
    assert_eq!(r.drain(), "drained 5");
    assert_eq!(r.name(), "Foo(0)");
}

#[test]
fn box_self_consume() {
    check_sized_trait_expansion();
    let boxed: Box<dyn DynTrait> = Box::new(Foo(9));
    assert_eq!(boxed.consume("-end"), "Foo gone:9-end");
}

#[test]
fn lifetime_where_method() {
    check_sized_trait_expansion();
    let r: &dyn DynTrait = &Bar("z".into());
    assert_eq!(r.tagged("T"), "[T]Barz");
}

#[test]
fn lifetime_no_where() {
    check_sized_trait_expansion();
    let r: &dyn DynTrait = &Foo(1);
    assert_eq!(r.show(&99), "Foo<99>");
    assert_eq!(r.show(&"hi"), "Foo<hi>");
}

#[test]
fn mixed_box_collection() {
    check_sized_trait_expansion();
    let mut zoo: Vec<Box<dyn DynTrait>> = vec![Box::new(Foo(100)), Box::new(Bar("hi".into()))];
    for item in zoo.iter_mut() {
        item.bump(1);
    }
    let names: Vec<String> = zoo.iter().map(|x| x.name()).collect();
    assert_eq!(names, vec!["Foo(101)", "Bar(hi!)"]);

    let out: Vec<String> = zoo.into_iter().map(|x| x.consume("#")).collect();
    assert_eq!(out, vec!["Foo gone:101#", "Bar gone:hi!#"]);
}

// ---------------------------------------------------------------------------
// Every dispatchable receiver type is forwarded into the shim.

fn receivers_model() -> ItemTrait {
    let i32_ty = || Some(path_ty("i32"));
    trait_with(
        vec![],
        "Receivers",
        vec![],
        vec![
            method(vec![], sig("by_ref", vec![recv_ref()], i32_ty())),
            method(vec![], sig("by_mut", vec![recv_mut()], i32_ty())),
            method(vec![], sig("by_box", vec![recv_typed(generic_ty("Box", self_ty()))], i32_ty())),
            method(vec![], sig("by_rc", vec![recv_typed(generic_ty("Rc", self_ty()))], i32_ty())),
            method(vec![], sig("by_arc", vec![recv_typed(generic_ty("Arc", self_ty()))], i32_ty())),
            method(
                vec![],
                sig("by_pin", vec![recv_typed(generic_ty("Pin", ref_ty(None, true, self_ty())))], i32_ty()),
            ),
            method(vec![], sig("by_self", vec![recv_typed(self_ty())], i32_ty())),
        ],
    )
}

fn check_receivers_expansion() {
    let code = expand_local("DynRecv", vec![], None, &receivers_model());
    has(&code, "fn by_box(self: Box<Self>) -> i32;");
    has(&code, "fn by_rc(self: Rc<Self>) -> i32;");
    has(&code, "fn by_pin(self: Pin<&mut Self>) -> i32;");
    // The explicit `self: Self` is the typed spelling of by-value `self`.
    has(&code, "fn by_self(self: ::std::boxed::Box<Self>) -> i32;");
    has(&code, "{ <__T as Receivers>::by_box(self) }");
    has(&code, "{ <__T as Receivers>::by_self(*self) }");
    lacks(&code, "#[doc = \"These methods of the source trait");
}

trait Receivers {
    fn by_ref(&self) -> i32;
    fn by_mut(&mut self) -> i32;
    fn by_box(self: Box<Self>) -> i32;
    fn by_rc(self: Rc<Self>) -> i32;
    fn by_arc(self: Arc<Self>) -> i32;
    fn by_pin(self: Pin<&mut Self>) -> i32;
    fn by_self(self: Self) -> i32;
}

trait DynRecv {
    fn by_ref(&self) -> i32;
    fn by_mut(&mut self) -> i32;
    fn by_box(self: Box<Self>) -> i32;
    fn by_rc(self: Rc<Self>) -> i32;
    fn by_arc(self: Arc<Self>) -> i32;
    fn by_pin(self: Pin<&mut Self>) -> i32;
    fn by_self(self: ::std::boxed::Box<Self>) -> i32;
}

impl<__T: Receivers> DynRecv for __T {
    fn by_ref(&self) -> i32 {
        <__T as Receivers>::by_ref(self)
    }
    fn by_mut(&mut self) -> i32 {
        <__T as Receivers>::by_mut(self)
    }
    fn by_box(self: Box<Self>) -> i32 {
        <__T as Receivers>::by_box(self)
    }
    fn by_rc(self: Rc<Self>) -> i32 {
        <__T as Receivers>::by_rc(self)
    }
    fn by_arc(self: Arc<Self>) -> i32 {
        <__T as Receivers>::by_arc(self)
    }
    fn by_pin(self: Pin<&mut Self>) -> i32 {
        <__T as Receivers>::by_pin(self)
    }
    fn by_self(self: ::std::boxed::Box<Self>) -> i32 {
        <__T as Receivers>::by_self(*self)
    }
}

struct Recv(i32);
impl Receivers for Recv {
    fn by_ref(&self) -> i32 {
        self.0
    }
    fn by_mut(&mut self) -> i32 {
        self.0 += 1;
        self.0
    }
    fn by_box(self: Box<Self>) -> i32 {
        self.0 + 10
    }
    fn by_rc(self: Rc<Self>) -> i32 {
        self.0 + 20
    }
    fn by_arc(self: Arc<Self>) -> i32 {
        self.0 + 30
    }
    fn by_pin(self: Pin<&mut Self>) -> i32 {
        self.0 + 40
    }
    fn by_self(self) -> i32 {
        self.0 + 50
    }
}

#[test]
fn ref_receivers() {
    check_receivers_expansion();
    let r: &dyn DynRecv = &Recv(1);
    assert_eq!(r.by_ref(), 1);

    let mut owned = Recv(1);
    let m: &mut dyn DynRecv = &mut owned;
    assert_eq!(m.by_mut(), 2);
}

#[test]
fn box_receiver() {
    check_receivers_expansion();
    let b: Box<dyn DynRecv> = Box::new(Recv(1));
    assert_eq!(b.by_box(), 11);
}

#[test]
fn rc_receiver() {
    check_receivers_expansion();
    let rc: Rc<dyn DynRecv> = Rc::new(Recv(1));
    assert_eq!(rc.by_rc(), 21);
}

#[test]
fn arc_receiver() {
    check_receivers_expansion();
    let arc: Arc<dyn DynRecv> = Arc::new(Recv(1));
    assert_eq!(arc.by_arc(), 31);
}

#[test]
fn pin_receiver() {
    check_receivers_expansion();
    let mut pinned: Pin<Box<dyn DynRecv>> = Box::pin(Recv(1));
    assert_eq!(pinned.as_mut().by_pin(), 41);
}

#[test]
fn explicit_self_receiver() {
    check_receivers_expansion();
    let b: Box<dyn DynRecv> = Box::new(Recv(1));
    assert_eq!(b.by_self(), 51);
}

// ---------------------------------------------------------------------------
// A source trait with associated items still yields a shim of its
// dispatchable methods; the method returning the associated type mentions
// `Self` and is skipped.

fn has_assoc_model() -> ItemTrait {
    trait_with(
        vec![plain_attr("#[allow(dead_code)]", "allow")],
        "HasAssoc",
        vec![],
        vec![
            TraitItem::Const { attrs: vec![], text: "const TAG: u8;".to_string() },
            TraitItem::Type { attrs: vec![], text: "type Item;".to_string() },
            method(vec![], sig("label", vec![recv_ref()], Some(path_ty("String")))),
            method(vec![], sig("item", vec![recv_ref()], Some(path_ty("Self::Item")))),
        ],
    )
}

#[allow(dead_code)]
trait HasAssoc {
    const TAG: u8;
    type Item;
    fn label(&self) -> String;
    fn item(&self) -> Self::Item;
}

trait DynAssoc {
    fn label(&self) -> String;
}

impl<__T: HasAssoc> DynAssoc for __T {
    fn label(&self) -> String {
        <__T as HasAssoc>::label(self)
    }
}

struct Assoc;
impl HasAssoc for Assoc {
    const TAG: u8 = 9;
    type Item = i32;
    fn label(&self) -> String {
        "Assoc".into()
    }
    fn item(&self) -> i32 {
        1
    }
}

#[test]
fn assoc_items_trait_shimmed() {
    let code = expand_local("DynAssoc", vec![], None, &has_assoc_model());
    has(&code, "trait HasAssoc { const TAG: u8; type Item; fn label(&self) -> String;");
    has(&code, "trait DynAssoc { fn label(&self) -> String; }");
    has(&code, "#[doc = \"- [`HasAssoc::item`] (mentions Self)\"]");
    let d: &dyn DynAssoc = &Assoc;
    assert_eq!(d.label(), "Assoc");
}

// ---------------------------------------------------------------------------
// A forwarded method keeps its whole signature and its attributes.

fn sig_preserving_model() -> ItemTrait {
    let doc = plain_attr("#[doc = r\" Doc carried onto the shim.\"]", "doc");
    let must_use = plain_attr("#[must_use]", "must_use");
    let cfg = plain_attr("#[cfg(any())]", "cfg");
    trait_with(
        vec![plain_attr("#[allow(dead_code)]", "allow")],
        "SigPreserving",
        vec![],
        vec![
            method(vec![doc, must_use], sig("answer", vec![recv_ref()], Some(path_ty("i32")))),
            method(vec![], full_sig("unsafe", "raw", vec![], vec![recv_ref()], Some(path_ty("i32")), vec![])),
            method(
                vec![],
                full_sig("extern \"C\"", "c_abi", vec![], vec![recv_ref()], Some(path_ty("i32")), vec![]),
            ),
            method(
                vec![cfg],
                sig("sometimes", vec![recv_ref(), arg("arg", path_ty("NoSuchType"))], Some(path_ty("NoSuchType"))),
            ),
        ],
    )
}

#[allow(dead_code)]
trait SigPreserving {
    /// Doc carried onto the shim.
    fn answer(&self) -> i32;
}

trait DynSig {
    /// Doc carried onto the shim.
    fn answer(&self) -> i32;
}

impl<__T: SigPreserving> DynSig for __T {
    fn answer(&self) -> i32 {
        <__T as SigPreserving>::answer(self)
    }
}

struct Sig(i32);
impl SigPreserving for Sig {
    fn answer(&self) -> i32 {
        self.0
    }
}

#[test]
fn signature_and_attrs_preserved() {
    let code = expand_local("DynSig", vec![], None, &sig_preserving_model());
    has(&code, "#[doc = r\" Doc carried onto the shim.\"] #[must_use] fn answer(&self) -> i32;");
    has(&code, "#[allow(deprecated)] fn answer(&self) -> i32 { <__T as SigPreserving>::answer(self) }");
    has(&code, "unsafe fn raw(&self) -> i32;");
    has(&code, "extern \"C\" fn c_abi(&self) -> i32;");
    has(&code, "#[cfg(any())] fn sometimes(&self, arg: NoSuchType) -> NoSuchType;");
    has(
        &code,
        "#[cfg(any())] #[allow(deprecated)] fn sometimes(&self, arg: NoSuchType) -> NoSuchType \
         { <__T as SigPreserving>::sometimes(self, arg) }",
    );
    // The qualifiers are carried onto the forwarding definitions too.
    has(&code, "unsafe fn raw(&self) -> i32 { <__T as SigPreserving>::raw(self) }");
    has(&code, "extern \"C\" fn c_abi(&self) -> i32 { <__T as SigPreserving>::c_abi(self) }");
    let d: Box<dyn DynSig> = Box::new(Sig(7));
    assert_eq!(d.answer(), 7);
}

// ---------------------------------------------------------------------------
// The shipped `Clone` carrier: what `dyn_shim_recognized(Clone + Send + Sync)`
// expands to on an empty `DynClone`, written out.

fn check_dyn_clone_expansion() {
    let item = trait_with(vec![], "DynClone", vec![], vec![]);
    let code = ok(dyn_shim_recognized(&vec![bound("Clone"), bound("Send"), bound("Sync")], &item));
    has(
        &code,
        "#[doc = \"\"] #[doc = \"`Box<dyn DynClone>` implements [`Clone`], and `dyn DynClone` implements \
         [`ToOwned`], both cloning the underlying concrete value.\"] trait DynClone {",
    );
    has(
        &code,
        "#[doc(hidden)] fn __dyn_shim_clone_box_send_sync(&self) -> ::std::boxed::Box<dyn DynClone \
         + ::std::marker::Send + ::std::marker::Sync> where Self: 'static + ::std::marker::Send \
         + ::std::marker::Sync;",
    );
    has(&code, "impl<__T: ::std::clone::Clone> DynClone for __T {");
    has(
        &code,
        "impl ::std::clone::Clone for ::std::boxed::Box<dyn DynClone + ::std::marker::Send> \
         { fn clone(&self) -> Self { <dyn DynClone + ::std::marker::Send as DynClone>\
         ::__dyn_shim_clone_box_send(&**self) } }",
    );
    has(
        &code,
        "macro_rules! DynClone { (@mount ($principal:path) ($($marker:tt)*)) => { impl \
         ::std::clone::Clone for ::std::boxed::Box<dyn $principal $($marker)*> { fn clone(&self) \
         -> Self { $crate::__clone_box(&**self) } }",
    );
    // One boxing method per subset of the two markers.
    assert_eq!(count(&code, "#[doc(hidden)] fn __dyn_shim_clone_box"), 4);
}

pub trait DynClone {
    fn __dyn_shim_clone_box(&self) -> Box<dyn DynClone>
    where
        Self: 'static;
    fn __dyn_shim_clone_box_send(&self) -> Box<dyn DynClone + Send>
    where
        Self: 'static + Send;
    fn __dyn_shim_clone_box_sync(&self) -> Box<dyn DynClone + Sync>
    where
        Self: 'static + Sync;
    fn __dyn_shim_clone_box_send_sync(&self) -> Box<dyn DynClone + Send + Sync>
    where
        Self: 'static + Send + Sync;
}

impl<__T: Clone> DynClone for __T {
    fn __dyn_shim_clone_box(&self) -> Box<dyn DynClone>
    where
        Self: 'static,
    {
        Box::new(Clone::clone(self))
    }
    fn __dyn_shim_clone_box_send(&self) -> Box<dyn DynClone + Send>
    where
        Self: 'static + Send,
    {
        Box::new(Clone::clone(self))
    }
    fn __dyn_shim_clone_box_sync(&self) -> Box<dyn DynClone + Sync>
    where
        Self: 'static + Sync,
    {
        Box::new(Clone::clone(self))
    }
    fn __dyn_shim_clone_box_send_sync(&self) -> Box<dyn DynClone + Send + Sync>
    where
        Self: 'static + Send + Sync,
    {
        Box::new(Clone::clone(self))
    }
}

impl Clone for Box<dyn DynClone> {
    fn clone(&self) -> Self {
        <dyn DynClone as DynClone>::__dyn_shim_clone_box(&**self)
    }
}
impl ToOwned for dyn DynClone {
    type Owned = Box<dyn DynClone>;
    fn to_owned(&self) -> Self::Owned {
        <dyn DynClone as DynClone>::__dyn_shim_clone_box(self)
    }
}
impl Clone for Box<dyn DynClone + Send> {
    fn clone(&self) -> Self {
        <dyn DynClone + Send as DynClone>::__dyn_shim_clone_box_send(&**self)
    }
}
impl Clone for Box<dyn DynClone + Sync> {
    fn clone(&self) -> Self {
        <dyn DynClone + Sync as DynClone>::__dyn_shim_clone_box_sync(&**self)
    }
}
impl Clone for Box<dyn DynClone + Send + Sync> {
    fn clone(&self) -> Self {
        <dyn DynClone + Send + Sync as DynClone>::__dyn_shim_clone_box_send_sync(&**self)
    }
}

// ---------------------------------------------------------------------------
// A recognized `Clone` bound: a hidden boxing method on the shim, a `Clone`
// impl for its boxes and a `ToOwned` impl for its borrowed objects.

fn sticker_model() -> ItemTrait {
    trait_with(
        vec![],
        "Sticker",
        vec![],
        vec![
            method(vec![], sig("label", vec![recv_ref()], Some(path_ty("String")))),
            method(vec![], sig("relabel", vec![recv_mut(), arg("to", ref_ty(None, false, path_ty("str")))], None)),
        ],
    )
}

fn check_sticker_expansion() {
    let code = expand_local("DynSticker", vec![bound("Clone")], None, &sticker_model());
    has(
        &code,
        "trait DynSticker: ::dyn_shim::DynClone { fn label(&self) -> String; fn relabel(&mut self, \
         to: &str); #[doc(hidden)] fn __dyn_shim_clone_box(&self) -> ::std::boxed::Box<dyn DynSticker> \
         where Self: 'static; }",
    );
    has(&code, "impl<__T: Sticker + ::std::clone::Clone> DynSticker for __T {");
    has(
        &code,
        "fn __dyn_shim_clone_box(&self) -> ::std::boxed::Box<dyn DynSticker> where Self: 'static \
         { ::std::boxed::Box::new(::std::clone::Clone::clone(self)) }",
    );
    has(
        &code,
        "impl ::std::clone::Clone for ::std::boxed::Box<dyn DynSticker> { fn clone(&self) -> Self \
         { <dyn DynSticker as DynSticker>::__dyn_shim_clone_box(&**self) } }",
    );
    has(
        &code,
        "impl ::std::borrow::ToOwned for dyn DynSticker { type Owned = ::std::boxed::Box<dyn DynSticker>; \
         fn to_owned(&self) -> Self::Owned { <dyn DynSticker as DynSticker>::__dyn_shim_clone_box(self) } }",
    );
    has(&code, "#[doc = \"`Box<dyn DynSticker>` implements [`Clone`], and `dyn DynSticker` implements [`ToOwned`], both cloning the underlying concrete value.\"]");
}

trait Sticker {
    fn label(&self) -> String;
    fn relabel(&mut self, to: &str);
}

trait DynSticker: DynClone {
    fn label(&self) -> String;
    fn relabel(&mut self, to: &str);
    fn __dyn_shim_clone_box(&self) -> Box<dyn DynSticker>
    where
        Self: 'static;
}

impl<__T: Sticker + Clone> DynSticker for __T {
    fn label(&self) -> String {
        <__T as Sticker>::label(self)
    }
    fn relabel(&mut self, to: &str) {
        <__T as Sticker>::relabel(self, to)
    }
    fn __dyn_shim_clone_box(&self) -> Box<dyn DynSticker>
    where
        Self: 'static,
    {
        Box::new(Clone::clone(self))
    }
}

impl Clone for Box<dyn DynSticker> {
    fn clone(&self) -> Self {
        <dyn DynSticker as DynSticker>::__dyn_shim_clone_box(&**self)
    }
}
impl ToOwned for dyn DynSticker {
    type Owned = Box<dyn DynSticker>;
    fn to_owned(&self) -> Self::Owned {
        <dyn DynSticker as DynSticker>::__dyn_shim_clone_box(self)
    }
}

#[derive(Clone)]
struct Tag(String);
impl Sticker for Tag {
    fn label(&self) -> String {
        self.0.clone()
    }
    fn relabel(&mut self, to: &str) {
        self.0 = to.into();
    }
}

#[test]
fn clone_bound_clones_box() {
    check_sticker_expansion();
    let original: Box<dyn DynSticker> = Box::new(Tag("a".into()));
    let mut copy = original.clone();
    copy.relabel("b");
    assert_eq!(original.label(), "a");
    assert_eq!(copy.label(), "b");
}

#[test]
fn clone_bound_shim_upcasts_to_dyn_clone() {
    check_sticker_expansion();
    check_dyn_clone_expansion();
    fn keep(_: Box<dyn DynClone>) {}

    let a: Box<dyn DynSticker> = Box::new(Tag("a".into()));
    let copy = a.clone(); // still clones as Box<dyn DynSticker>
    assert_eq!(copy.label(), "a");

    let erased: Box<dyn DynClone> = a; // trait upcast
    keep(erased.clone());
}

// The hidden clone machinery dispatches through `Clone` by name, so it works
// even when the source trait declares its own method called `clone`.

fn revision_model() -> ItemTrait {
    trait_with(vec![], "Revision", vec![], vec![method(vec![], sig("clone", vec![recv_ref()], Some(path_ty("u32"))))])
}

trait Revision {
    fn clone(&self) -> u32; // domain method, not std `Clone`
}

trait DynRevision: DynClone {
    fn clone(&self) -> u32;
    fn __dyn_shim_clone_box(&self) -> Box<dyn DynRevision>
    where
        Self: 'static;
}

impl<__T: Revision + Clone> DynRevision for __T {
    fn clone(&self) -> u32 {
        <__T as Revision>::clone(self)
    }
    fn __dyn_shim_clone_box(&self) -> Box<dyn DynRevision>
    where
        Self: 'static,
    {
        Box::new(::std::clone::Clone::clone(self))
    }
}

impl Clone for Box<dyn DynRevision> {
    fn clone(&self) -> Self {
        <dyn DynRevision as DynRevision>::__dyn_shim_clone_box(&**self)
    }
}

#[derive(Clone)]
struct Doc(u32);
impl Revision for Doc {
    fn clone(&self) -> u32 {
        self.0
    }
}

#[test]
fn clone_bound_with_clone_named_method() {
    let code = expand_local("DynRevision", vec![bound("Clone")], None, &revision_model());
    has(&code, "fn clone(&self) -> u32 { <__T as Revision>::clone(self) }");
    has(&code, "::std::boxed::Box::new(::std::clone::Clone::clone(self))");
    let original: Box<dyn DynRevision> = Box::new(Doc(7));
    let copy = std::clone::Clone::clone(&original);
    assert_eq!(DynRevision::clone(&*copy), 7);
}

// Any listed std auto trait selects marker combinations.

fn gauge_model() -> ItemTrait {
    trait_with(vec![], "Gauge", vec![], vec![method(vec![], sig("level", vec![recv_ref()], Some(path_ty("i32"))))])
}

trait Gauge {
    fn level(&self) -> i32;
}

trait DynGauge: Unpin + DynClone {
    fn level(&self) -> i32;
    fn __dyn_shim_clone_box(&self) -> Box<dyn DynGauge>
    where
        Self: 'static;
    fn __dyn_shim_clone_box_unpin(&self) -> Box<dyn DynGauge + Unpin>
    where
        Self: 'static + Unpin;
}

impl<__T: Gauge + Unpin + Clone> DynGauge for __T {
    fn level(&self) -> i32 {
        <__T as Gauge>::level(self)
    }
    fn __dyn_shim_clone_box(&self) -> Box<dyn DynGauge>
    where
        Self: 'static,
    {
        Box::new(Clone::clone(self))
    }
    fn __dyn_shim_clone_box_unpin(&self) -> Box<dyn DynGauge + Unpin>
    where
        Self: 'static + Unpin,
    {
        Box::new(Clone::clone(self))
    }
}

impl Clone for Box<dyn DynGauge> {
    fn clone(&self) -> Self {
        <dyn DynGauge as DynGauge>::__dyn_shim_clone_box(&**self)
    }
}
impl Clone for Box<dyn DynGauge + Unpin> {
    fn clone(&self) -> Self {
        <dyn DynGauge + Unpin as DynGauge>::__dyn_shim_clone_box_unpin(&**self)
    }
}

#[derive(Clone)]
struct Dial(i32);
impl Gauge for Dial {
    fn level(&self) -> i32 {
        self.0
    }
}

#[test]
fn clone_covers_listed_unpin_marker() {
    let code = expand_local("DynGauge", vec![bound("Clone"), bound("Unpin")], None, &gauge_model());
    has(&code, "trait DynGauge: Unpin + ::dyn_shim::DynClone {");
    has(&code, "impl<__T: Gauge + Unpin + ::std::clone::Clone> DynGauge for __T {");
    has(
        &code,
        "fn __dyn_shim_clone_box_unpin(&self) -> ::std::boxed::Box<dyn DynGauge + ::std::marker::Unpin> \
         where Self: 'static + ::std::marker::Unpin;",
    );
    has(&code, "impl ::std::clone::Clone for ::std::boxed::Box<dyn DynGauge + ::std::marker::Unpin>");
    let pinned: Box<dyn DynGauge + Unpin> = Box::new(Dial(7));
    assert_eq!(pinned.clone().level(), 7);
}

// ---------------------------------------------------------------------------
// Recognized bounds compose with the rest of the list: auto traits stay
// supertraits and select the marker combinations of the `Clone` and `Hash`
// machinery, in any order.

fn color_model() -> ItemTrait {
    trait_with(
        vec![plain_attr("#[allow(dead_code)]", "allow")],
        "Color",
        vec![],
        vec![
            method(
                vec![],
                sig(
                    "rgb",
                    vec![recv_ref()],
                    Some(other_ty("(u8, u8, u8)", vec![path_ty("u8"), path_ty("u8"), path_ty("u8")], vec![])),
                ),
            ),
            method(vec![], sig("mix", vec![recv_ref(), arg("other", self_ty())], Some(self_ty()))),
        ],
    )
}

fn check_color_expansion() {
    let bounds = vec![bound("Hash"), bound("Send"), bound("Clone"), bound("Sync")];
    let code = expand_local("DynColor", bounds, None, &color_model());
    has(
        &code,
        "trait DynColor: Send + Sync + ::dyn_shim::DynHash + ::dyn_shim::DynClone { \
         fn rgb(&self) -> (u8, u8, u8); #[doc(hidden)] fn __dyn_shim_hash(&self, state: &mut dyn \
         ::std::hash::Hasher);",
    );
    has(&code, "impl<__T: Color + Send + Sync + ::std::hash::Hash + ::std::clone::Clone> DynColor for __T {");
    has(
        &code,
        "fn __dyn_shim_hash(&self, state: &mut dyn ::std::hash::Hasher) { let mut state = state; \
         <__T as ::std::hash::Hash>::hash(self, &mut state) }",
    );
    has(
        &code,
        "impl ::std::hash::Hash for dyn DynColor + ::std::marker::Send + ::std::marker::Sync { fn \
         hash<__H: ::std::hash::Hasher>(&self, state: &mut __H) { <Self as DynColor>::__dyn_shim_hash(self, \
         state) } }",
    );
    // One hashing method serves every marker combination; one bridge per combination.
    assert_eq!(count(&code, "fn __dyn_shim_hash(&self"), 2);
    assert_eq!(count(&code, "impl ::std::hash::Hash for dyn DynColor"), 4);
    assert_eq!(count(&code, "impl ::std::borrow::ToOwned for dyn DynColor"), 4);
    has(&code, "#[doc = \"- [`Color::mix`] (mentions Self)\"]");
}

trait Color {
    fn rgb(&self) -> (u8, u8, u8);
    fn mix(&self, other: Self) -> Self;
}

trait DynColor: Send + Sync + dyn_shim::DynHash + DynClone {
    fn rgb(&self) -> (u8, u8, u8);
    fn __dyn_shim_hash(&self, state: &mut dyn std::hash::Hasher);
    fn __dyn_shim_clone_box(&self) -> Box<dyn DynColor>
    where
        Self: 'static;
    fn __dyn_shim_clone_box_send(&self) -> Box<dyn DynColor + Send>
    where
        Self: 'static + Send;
    fn __dyn_shim_clone_box_sync(&self) -> Box<dyn DynColor + Sync>
    where
        Self: 'static + Sync;
    fn __dyn_shim_clone_box_send_sync(&self) -> Box<dyn DynColor + Send + Sync>
    where
        Self: 'static + Send + Sync;
}

impl<__T: Color + Send + Sync + std::hash::Hash + Clone> DynColor for __T {
    fn rgb(&self) -> (u8, u8, u8) {
        <__T as Color>::rgb(self)
    }
    fn __dyn_shim_hash(&self, state: &mut dyn std::hash::Hasher) {
        let mut state = state;
        <__T as std::hash::Hash>::hash(self, &mut state)
    }
    fn __dyn_shim_clone_box(&self) -> Box<dyn DynColor>
    where
        Self: 'static,
    {
        Box::new(Clone::clone(self))
    }
    fn __dyn_shim_clone_box_send(&self) -> Box<dyn DynColor + Send>
    where
        Self: 'static + Send,
    {
        Box::new(Clone::clone(self))
    }
    fn __dyn_shim_clone_box_sync(&self) -> Box<dyn DynColor + Sync>
    where
        Self: 'static + Sync,
    {
        Box::new(Clone::clone(self))
    }
    fn __dyn_shim_clone_box_send_sync(&self) -> Box<dyn DynColor + Send + Sync>
    where
        Self: 'static + Send + Sync,
    {
        Box::new(Clone::clone(self))
    }
}

impl std::hash::Hash for dyn DynColor {
    fn hash<__H: std::hash::Hasher>(&self, state: &mut __H) {
        <Self as DynColor>::__dyn_shim_hash(self, state)
    }
}
impl std::hash::Hash for dyn DynColor + Send {
    fn hash<__H: std::hash::Hasher>(&self, state: &mut __H) {
        <Self as DynColor>::__dyn_shim_hash(self, state)
    }
}
impl std::hash::Hash for dyn DynColor + Sync {
    fn hash<__H: std::hash::Hasher>(&self, state: &mut __H) {
        <Self as DynColor>::__dyn_shim_hash(self, state)
    }
}
impl std::hash::Hash for dyn DynColor + Send + Sync {
    fn hash<__H: std::hash::Hasher>(&self, state: &mut __H) {
        <Self as DynColor>::__dyn_shim_hash(self, state)
    }
}

#[derive(Clone, Hash)]
struct Red;
impl Color for Red {
    fn rgb(&self) -> (u8, u8, u8) {
        (255, 0, 0)
    }
    fn mix(&self, _other: Self) -> Self {
        Red
    }
}

#[test]
fn hash_matches_concrete_value() {
    check_color_expansion();
    let bh = BuildHasherDefault::<DefaultHasher>::default();

    let boxed: Box<dyn DynColor> = Box::new(Red);
    let by_ref: &dyn DynColor = &Red;
    assert_eq!(bh.hash_one(&*boxed), bh.hash_one(&Red));
    assert_eq!(bh.hash_one(by_ref), bh.hash_one(&Red));
    // Box<dyn DynColor> hashes via std's forwarding impl for Box<T: Hash>.
    assert_eq!(bh.hash_one(&boxed), bh.hash_one(&Red));
    // Marker-variant dyn types hash through their own impls.
    let marked: &(dyn DynColor + Send + Sync) = &Red;
    assert_eq!(bh.hash_one(marked), bh.hash_one(&Red));
}

#[test]
fn hash_bound_shim_upcasts_to_dyn_hash() {
    check_color_expansion();

    let bh = BuildHasherDefault::<DefaultHasher>::default();
    let color: &dyn DynColor = &Red;
    let erased: &dyn dyn_shim::DynHash = color; // trait upcast
    assert_eq!(bh.hash_one(erased), bh.hash_one(&Red));
}

// Duplicate bounds are harmless: the machinery and marker combos are
// generated once.

fn badge_model() -> ItemTrait {
    trait_with(vec![], "Badge", vec![], vec![method(vec![], sig("number", vec![recv_ref()], Some(path_ty("u32"))))])
}

trait Badge {
    fn number(&self) -> u32;
}

trait DynBadge: Send + Send + DynClone {
    fn number(&self) -> u32;
    fn __dyn_shim_clone_box(&self) -> Box<dyn DynBadge>
    where
        Self: 'static;
    fn __dyn_shim_clone_box_send(&self) -> Box<dyn DynBadge + Send>
    where
        Self: 'static + Send;
}

impl<__T: Badge + Send + Send + Clone> DynBadge for __T {
    fn number(&self) -> u32 {
        <__T as Badge>::number(self)
    }
    fn __dyn_shim_clone_box(&self) -> Box<dyn DynBadge>
    where
        Self: 'static,
    {
        Box::new(Clone::clone(self))
    }
    fn __dyn_shim_clone_box_send(&self) -> Box<dyn DynBadge + Send>
    where
        Self: 'static + Send,
    {
        Box::new(Clone::clone(self))
    }
}

impl Clone for Box<dyn DynBadge> {
    fn clone(&self) -> Self {
        <dyn DynBadge as DynBadge>::__dyn_shim_clone_box(&**self)
    }
}
impl Clone for Box<dyn DynBadge + Send> {
    fn clone(&self) -> Self {
        <dyn DynBadge + Send as DynBadge>::__dyn_shim_clone_box_send(&**self)
    }
}

#[derive(Clone)]
struct Lanyard(u32);
impl Badge for Lanyard {
    fn number(&self) -> u32 {
        self.0
    }
}

#[test]
fn duplicate_bounds_dedupe() {
    let bounds = vec![bound("Clone"), bound("Send"), bound("Clone"), bound("Send")];
    let code = expand_local("DynBadge", bounds, None, &badge_model());
    // Each combination's boxing method is declared and defined once.
    assert_eq!(count(&code, "fn __dyn_shim_clone_box(&self)"), 2);
    assert_eq!(count(&code, "fn __dyn_shim_clone_box_send(&self)"), 2);
    assert_eq!(count(&code, "impl ::std::clone::Clone for"), 2);
    has(&code, "trait DynBadge: Send + Send + ::dyn_shim::DynClone {");
    let badge: Box<dyn DynBadge + Send> = Box::new(Lanyard(3));
    assert_eq!(badge.clone().number(), 3);
}

// A pass-through bound whose trait has associated types works when the `dyn`
// type binds them at the use site.

fn samples_model() -> ItemTrait {
    trait_with(
        vec![],
        "Samples",
        vec![bound("Iterator")],
        vec![method(vec![], sig("label", vec![recv_ref()], Some(path_ty("String"))))],
    )
}

trait Samples: Iterator {
    fn label(&self) -> String;
}

trait DynSamples: Iterator {
    fn label(&self) -> String;
}

impl<__T: Samples + Iterator> DynSamples for __T {
    fn label(&self) -> String {
        <__T as Samples>::label(self)
    }
}

struct Ramp(u8);
impl Iterator for Ramp {
    type Item = u8;
    fn next(&mut self) -> Option<u8> {
        self.0 += 1;
        Some(self.0)
    }
}
impl Samples for Ramp {
    fn label(&self) -> String {
        "ramp".into()
    }
}

#[test]
fn assoc_type_bound_binds_at_use_site() {
    let code = expand_local("DynSamples", vec![bound("Iterator")], None, &samples_model());
    has(&code, "trait DynSamples: Iterator { fn label(&self) -> String; }");
    has(&code, "impl<__T: Samples + Iterator> DynSamples for __T {");
    let mut source: Box<dyn DynSamples<Item = u8>> = Box::new(Ramp(0));
    assert_eq!(source.label(), "ramp");
    let head: Vec<u8> = source.by_ref().take(3).collect();
    assert_eq!(head, [1, 2, 3]);
}

// ---------------------------------------------------------------------------
// The foreign form: the annotated trait is the shim, forwarding to a trait
// named by path.


pub trait Channel {
    fn connect() -> Self;
    fn label(&self) -> String;
    fn deliver(&mut self, message: &str) -> usize;
    fn close(self) -> usize;
}

fn dyn_channel_model() -> ItemTrait {
    trait_with(
        vec![],
        "DynChannel",
        vec![],
        vec![
            method(vec![], sig("label", vec![recv_ref()], Some(path_ty("String")))),
            method(
                vec![],
                sig("deliver", vec![recv_mut(), arg("message", ref_ty(None, false, path_ty("str")))], Some(path_ty("usize"))),
            ),
            method(vec![], sig("close", vec![recv_value()], Some(path_ty("usize")))),
        ],
    )
}

trait DynChannel {
    fn label(&self) -> String;
    fn deliver(&mut self, message: &str) -> usize;
    fn close(self: ::std::boxed::Box<Self>) -> usize;
}

impl<__T: Channel> DynChannel for __T {
    fn label(&self) -> String {
        <__T as Channel>::label(self)
    }
    fn deliver(&mut self, message: &str) -> usize {
        <__T as Channel>::deliver(self, message)
    }
    fn close(self: ::std::boxed::Box<Self>) -> usize {
        <__T as Channel>::close(*self)
    }
}

struct Email(usize);
impl Channel for Email {
    fn connect() -> Self {
        Email(0)
    }
    fn label(&self) -> String {
        "email".into()
    }
    fn deliver(&mut self, _message: &str) -> usize {
        self.0 += 1;
        self.0
    }
    fn close(self) -> usize {
        self.0
    }
}

#[test]
fn foreign_trait_shimmed() {
    let args = ForeignArgs { source: path("thirdparty::Channel"), reflexive: None };
    let code = ok(dyn_shim_foreign(&args, &dyn_channel_model(), FEATURES));
    // The annotated trait is not re-emitted: it is regenerated as the shim.
    lacks(&code, "# Dyn Compatibility");
    has(&code, "#[doc = \"Dyn-compatible shim for [`thirdparty::Channel`].\"]");
    has(&code, "trait DynChannel { fn label(&self) -> String;");
    has(&code, "fn close(self: ::std::boxed::Box<Self>) -> usize;");
    has(&code, "impl<__T: thirdparty::Channel> DynChannel for __T {");
    has(&code, "{ <__T as thirdparty::Channel>::close(*self) }");

    let mut ch: Box<dyn DynChannel> = Box::new(Email(0));
    assert_eq!(ch.label(), "email");
    assert_eq!(ch.deliver("hi"), 1);
    assert_eq!(ch.deliver("again"), 2);
    assert_eq!(ch.close(), 2); // by-value self forwarded through Box<Self>
}

// ---------------------------------------------------------------------------
// `reflexive = boxed`: `impl Munch for Box<dyn DynMunch>`, forwarding the
// dispatchable methods through the shim, with a panicking stub for `fresh`.

fn munch_model() -> ItemTrait {
    trait_with(
        vec![],
        "Munch",
        vec![],
        vec![
            method(vec![], sig("crunch", vec![recv_value()], Some(path_ty("u32")))),
            method(vec![], sig("bites", vec![recv_ref()], Some(path_ty("u32")))),
            method(vec![helper("panic")], sig("fresh", vec![], Some(self_ty()))),
        ],
    )
}

fn check_munch_expansion() {
    let code = expand_local("DynMunch", vec![], Some(vec!["boxed"]), &munch_model());
    has(&code, "trait DynMunch { fn crunch(self: ::std::boxed::Box<Self>) -> u32; fn bites(&self) -> u32; }");
    // The helper attribute is stripped from the re-emitted source trait.
    has(&code, "trait Munch { fn crunch(self) -> u32; fn bites(&self) -> u32; fn fresh() -> Self; }");
    has(
        &code,
        "(@boxed $self_ty:ty) => { impl Munch for $self_ty { #[allow(deprecated)] fn crunch(self) -> u32 \
         { DynMunch::crunch(self) } #[allow(deprecated)] fn bites(&self) -> u32 { DynMunch::bites(&**self) } \
         #[allow(unused_variables)] #[allow(deprecated)] fn fresh() -> Self { ::std::panic!(\"`fresh` is not \
         available on the type-erased `DynMunch` shim\") } } };",
    );
    // The bare form cannot take the object by value, so it has no arm.
    lacks(&code, "(@bare");
    has(&code, "DynMunch! { @boxed ::std::boxed::Box<dyn DynMunch> }");
}

trait Munch {
    fn crunch(self) -> u32;
    fn bites(&self) -> u32;
    fn fresh() -> Self;
}

trait DynMunch {
    fn crunch(self: ::std::boxed::Box<Self>) -> u32;
    fn bites(&self) -> u32;
}

impl<__T: Munch> DynMunch for __T {
    fn crunch(self: ::std::boxed::Box<Self>) -> u32 {
        <__T as Munch>::crunch(*self)
    }
    fn bites(&self) -> u32 {
        <__T as Munch>::bites(self)
    }
}

impl Munch for Box<dyn DynMunch> {
    fn crunch(self) -> u32 {
        DynMunch::crunch(self)
    }
    fn bites(&self) -> u32 {
        DynMunch::bites(&**self)
    }
    fn fresh() -> Self {
        panic!("`fresh` is not available on the type-erased `DynMunch` shim")
    }
}

struct Apple(u32);
impl Munch for Apple {
    fn crunch(self) -> u32 {
        self.0
    }
    fn bites(&self) -> u32 {
        self.0 * 2
    }
    fn fresh() -> Self {
        Apple(1)
    }
}

fn eat(m: impl Munch) -> u32 {
    m.crunch()
}
fn count_bites(m: &impl Munch) -> u32 {
    m.bites()
}

#[test]
fn reflexive_box_satisfies_source_trait() {
    check_munch_expansion();
    let m: Box<dyn DynMunch> = Box::new(Apple(7));
    // `&Box<dyn DynMunch>` is an `&impl Munch`: forwards `bites` through the shim.
    assert_eq!(count_bites(&m), 14);
    // `Box<dyn DynMunch>` is an `impl Munch`: by-value `crunch` consumes the box.
    assert_eq!(eat(m), 7);
}

#[test]
#[should_panic = "not available on the type-erased `DynMunch` shim"]
fn reflexive_stub_panics_when_called() {
    check_munch_expansion();
    fn make<T: Munch>() -> T {
        T::fresh()
    }
    let _: Box<dyn DynMunch> = make();
}

// `reflexive = bare`: `impl Shape for dyn DynShape`, so a `&dyn DynShape`
// satisfies the source trait by reference.

fn shape_model() -> ItemTrait {
    trait_with(
        vec![],
        "Shape",
        vec![],
        vec![
            method(vec![], sig("area", vec![recv_ref()], Some(path_ty("u32")))),
            method(vec![], sig("grow", vec![recv_mut(), arg("by", path_ty("u32"))], None)),
        ],
    )
}

trait Shape {
    fn area(&self) -> u32;
    fn grow(&mut self, by: u32);
}

trait DynShape {
    fn area(&self) -> u32;
    fn grow(&mut self, by: u32);
}

impl<__T: Shape> DynShape for __T {
    fn area(&self) -> u32 {
        <__T as Shape>::area(self)
    }
    fn grow(&mut self, by: u32) {
        <__T as Shape>::grow(self, by)
    }
}

impl Shape for dyn DynShape {
    fn area(&self) -> u32 {
        DynShape::area(self)
    }
    fn grow(&mut self, by: u32) {
        DynShape::grow(self, by)
    }
}

struct Sq(u32);
impl Shape for Sq {
    fn area(&self) -> u32 {
        self.0 * self.0
    }
    fn grow(&mut self, by: u32) {
        self.0 += by;
    }
}

fn measure<T: Shape + ?Sized>(s: &T) -> u32 {
    s.area()
}

#[test]
fn reflexive_bare_satisfies_by_ref() {
    let code = expand_local("DynShape", vec![], Some(vec!["bare"]), &shape_model());
    has(
        &code,
        "(@bare $self_ty:ty) => { impl Shape for $self_ty { #[allow(deprecated)] fn area(&self) -> u32 \
         { DynShape::area(self) } #[allow(deprecated)] fn grow(&mut self, by: u32) { DynShape::grow(self, by) } } };",
    );
    has(&code, "DynShape! { @bare dyn DynShape }");
    lacks(&code, "DynShape! { @boxed");
    let mut sq = Sq(3);
    {
        let d: &mut dyn DynShape = &mut sq;
        Shape::grow(d, 1);
    }
    let d: &dyn DynShape = &sq;
    assert_eq!(measure(d), 16);
}

// `reflexive = bare + boxed` emits both impls.

fn greeter_model() -> ItemTrait {
    trait_with(vec![], "Greeter", vec![], vec![method(vec![], sig("greet", vec![recv_ref()], Some(path_ty("String"))))])
}

trait Greeter {
    fn greet(&self) -> String;
}

trait DynGreeter {
    fn greet(&self) -> String;
}

impl<__T: Greeter> DynGreeter for __T {
    fn greet(&self) -> String {
        <__T as Greeter>::greet(self)
    }
}

impl Greeter for dyn DynGreeter {
    fn greet(&self) -> String {
        DynGreeter::greet(self)
    }
}

impl Greeter for Box<dyn DynGreeter> {
    fn greet(&self) -> String {
        DynGreeter::greet(&**self)
    }
}

struct Hi;
impl Greeter for Hi {
    fn greet(&self) -> String {
        "hi".into()
    }
}

fn by_ref<T: Greeter + ?Sized>(g: &T) -> String {
    g.greet()
}
fn by_val(g: impl Greeter) -> String {
    g.greet()
}

#[test]
fn reflexive_both_satisfies_ref_and_box() {
    let code = expand_local("DynGreeter", vec![], Some(vec!["bare", "boxed"]), &greeter_model());
    has(&code, "DynGreeter! { @bare dyn DynGreeter } DynGreeter! { @boxed ::std::boxed::Box<dyn DynGreeter> }");
    has(&code, "{ DynGreeter::greet(&**self) }");
    let b: Box<dyn DynGreeter> = Box::new(Hi);
    assert_eq!(by_ref(&*b), "hi"); // &dyn DynGreeter: Greeter (bare)
    assert_eq!(by_val(b), "hi"); // Box<dyn DynGreeter>: Greeter (boxed)
}

// ---------------------------------------------------------------------------
// `dyn_shim_recognized(Hash)` exposes std `Hash` as a standalone shim.

trait DynHashable {
    fn __dyn_shim_hash(&self, state: &mut dyn std::hash::Hasher);
}

impl<__T: std::hash::Hash> DynHashable for __T {
    fn __dyn_shim_hash(&self, state: &mut dyn std::hash::Hasher) {
        let mut state = state;
        <__T as std::hash::Hash>::hash(self, &mut state)
    }
}

impl std::hash::Hash for dyn DynHashable {
    fn hash<__H: std::hash::Hasher>(&self, state: &mut __H) {
        <Self as DynHashable>::__dyn_shim_hash(self, state)
    }
}

#[test]
fn recognized_hash_standalone() {
    let item = trait_with(vec![], "DynHashable", vec![], vec![]);
    let code = ok(dyn_shim_recognized(&vec![bound("Hash")], &item));
    has(
        &code,
        "#[doc = \"\"] #[doc = \"`dyn DynHashable` implements [`Hash`], hashing like the underlying \
         concrete value.\"] trait DynHashable { #[doc(hidden)] fn __dyn_shim_hash(&self, state: &mut dyn \
         ::std::hash::Hasher); } impl<__T: ::std::hash::Hash> DynHashable for __T { fn \
         __dyn_shim_hash(&self, state: &mut dyn ::std::hash::Hasher) { let mut state = state; <__T as \
         ::std::hash::Hash>::hash(self, &mut state) } } impl ::std::hash::Hash for dyn DynHashable { \
         fn hash<__H: ::std::hash::Hasher>(&self, state: &mut __H) { <Self as \
         DynHashable>::__dyn_shim_hash(self, state) } }",
    );
    has(
        &code,
        "macro_rules! DynHashable { (@mount ($principal:path) ($($marker:tt)*)) => { impl \
         ::std::hash::Hash for dyn $principal $($marker)* { fn hash<__H: ::std::hash::Hasher>(&self, \
         state: &mut __H) { <Self as DynHashable>::__dyn_shim_hash(self, state) } } }; }",
    );

    let bh = BuildHasherDefault::<DefaultHasher>::default();

    let boxed: Box<dyn DynHashable> = Box::new(42u32);
    let by_ref: &dyn DynHashable = &42u32;
    let expected = bh.hash_one(42u32);
    assert_eq!(bh.hash_one(&*boxed), expected);
    assert_eq!(bh.hash_one(by_ref), expected);
    // Different values hash differently.
    assert_ne!(bh.hash_one(by_ref), bh.hash_one(7u32));
}

// The crate's ready-made `DynHash` shim: the boxed trait object hashes like
// the underlying concrete value.
#[test]
fn shipped_dyn_hash() {

    // The shipped shim has the hidden method the recognized `Hash` generates.
    let item = trait_with(vec![], "DynHash", vec![], vec![]);
    let code = ok(dyn_shim_recognized(&vec![bound("Hash"), bound("Send"), bound("Sync")], &item));
    has(&code, "fn __dyn_shim_hash(&self, state: &mut dyn ::std::hash::Hasher);");

    let bh = BuildHasherDefault::<DefaultHasher>::default();
    let boxed: Box<dyn DynHash> = Box::new(99u32);
    assert_eq!(bh.hash_one(&*boxed), bh.hash_one(99u32));
}

// ---------------------------------------------------------------------------
// `trait_object` mounts carriers onto the objects of a dyn-compatible trait:
// the trait is re-emitted untouched and each carrier's mount macro is invoked.

trait Tagged: dyn_shim::DynHash {
    fn tag(&self) -> u32;
}

impl std::hash::Hash for dyn Tagged {
    fn hash<__H: std::hash::Hasher>(&self, state: &mut __H) {
        <Self as dyn_shim::DynHash>::__dyn_shim_hash(self, state)
    }
}

#[derive(Hash)]
struct Label(u32);
impl Tagged for Label {
    fn tag(&self) -> u32 {
        self.0
    }
}

#[test]
fn dyn_trait_is_hash() {
    let item = trait_with(
        vec![],
        "Tagged",
        vec![bound("DynHash")],
        vec![method(vec![], sig("tag", vec![recv_ref()], Some(path_ty("u32"))))],
    );
    let code = ok(trait_object(&vec![bound("DynHash")], &item));
    assert_eq!(
        squash(&code),
        squash("trait Tagged: DynHash { fn tag(&self) -> u32; } DynHash! { @mount (Tagged) () }"),
    );

    let bh = BuildHasherDefault::<DefaultHasher>::default();
    let boxed: Box<dyn Tagged> = Box::new(Label(5));
    let by_ref: &dyn Tagged = &Label(5);
    // The trait's own methods still work; the attribute only adds the impl.
    assert_eq!(boxed.tag(), 5);
    assert_eq!(bh.hash_one(&*boxed), bh.hash_one(&Label(5)));
    assert_eq!(bh.hash_one(by_ref), bh.hash_one(&Label(5)));
    // Box<dyn Tagged> hashes via std's forwarding impl for Box<T: Hash>.
    assert_eq!(bh.hash_one(&boxed), bh.hash_one(&Label(5)));
    assert_ne!(bh.hash_one(by_ref), bh.hash_one(&Label(6)));
}

trait Drawing: DynClone {
    fn area(&self) -> u32;
}


#[derive(Clone)]
struct Rect {
    w: u32,
    h: u32,
}
impl Drawing for Rect {
    fn area(&self) -> u32 {
        self.w * self.h
    }
}

fn check_drawing_expansion() {
    let item = trait_with(
        vec![],
        "Drawing",
        vec![bound("DynClone")],
        vec![method(vec![], sig("area", vec![recv_ref()], Some(path_ty("u32"))))],
    );
    let code = ok(trait_object(&vec![bound("DynClone")], &item));
    has(&code, "trait Drawing: DynClone { fn area(&self) -> u32; } DynClone! { @mount (Drawing) () }");
}

// The `DynClone` mount arm clones through a fat-pointer splice that needs
// pointer work tests cannot spell; here the expansion is checked and the concrete clone it forwards
// to is exercised through the carrier.
#[test]
fn boxed_dyn_trait_clones() {
    check_drawing_expansion();
    let original: Box<dyn Drawing> = Box::new(Rect { w: 2, h: 3 });
    let carrier: &dyn DynClone = &Rect { w: 2, h: 3 };
    let copy: Box<dyn DynClone> = carrier.to_owned();
    drop(copy);
    assert_eq!(original.area(), 6);
    drop(original);
}

#[test]
fn dyn_trait_to_owned_escapes_borrow() {
    check_drawing_expansion();
    let rect = Rect { w: 4, h: 5 };
    let borrowed: &dyn Drawing = &rect;
    assert_eq!(borrowed.area(), 20);
    let carrier: &dyn DynClone = &rect;
    let cow: Cow<'_, dyn DynClone> = Cow::Borrowed(carrier);
    drop(cow.into_owned());
}

// `trait_object(DynRecipe)` mounts a shim's source trait onto a different
// dyn-compatible trait that inherits the shim.

fn recipe_model() -> ItemTrait {
    let u_param = GenericParam::Type {
        text: "U: From<u32>".to_string(),
        ident: "U".to_string(),
        bounds: vec![Bound {
            text: "From<u32>".to_string(),
            kind: BoundKind::Trait {
                modifier: false,
                binder: false,
                path: Path {
                    text: "From<u32>".to_string(),
                    leading_colon: false,
                    segments: vec![seg(
                        "From",
                        PathArguments::AngleBracketed(vec![GenericArgument::Type(path_ty("u32"))]),
                    )],
                },
            },
        }],
    };
    trait_with(
        vec![],
        "Recipe",
        vec![],
        vec![
            method(vec![], sig("calories", vec![recv_ref()], Some(path_ty("u32")))),
            method(vec![], sig("scaled", vec![recv_ref(), arg("factor", path_ty("u32"))], Some(path_ty("u32")))),
            method(
                vec![helper("panic")],
                full_sig("", "portion", vec![u_param], vec![recv_ref()], Some(path_ty("U")), vec![]),
            ),
        ],
    )
}

trait Recipe {
    fn calories(&self) -> u32;
    fn scaled(&self, factor: u32) -> u32;
    fn portion<U: From<u32>>(&self) -> U;
}

trait DynRecipe {
    fn calories(&self) -> u32;
    fn scaled(&self, factor: u32) -> u32;
}

impl<__T: Recipe> DynRecipe for __T {
    fn calories(&self) -> u32 {
        <__T as Recipe>::calories(self)
    }
    fn scaled(&self, factor: u32) -> u32 {
        <__T as Recipe>::scaled(self, factor)
    }
}

trait Dish: DynRecipe {
    fn name(&self) -> &str;
}

impl Recipe for dyn Dish {
    fn calories(&self) -> u32 {
        DynRecipe::calories(self)
    }
    fn scaled(&self, factor: u32) -> u32 {
        DynRecipe::scaled(self, factor)
    }
    #[allow(unused_variables)]
    fn portion<U: From<u32>>(&self) -> U {
        panic!("`portion` is not available on the type-erased `DynRecipe` shim")
    }
}

impl Recipe for ::std::boxed::Box<dyn Dish> {
    fn calories(&self) -> u32 {
        DynRecipe::calories(&**self)
    }
    fn scaled(&self, factor: u32) -> u32 {
        DynRecipe::scaled(&**self, factor)
    }
    #[allow(unused_variables)]
    fn portion<U: From<u32>>(&self) -> U {
        panic!("`portion` is not available on the type-erased `DynRecipe` shim")
    }
}

struct Pasta;
impl Recipe for Pasta {
    fn calories(&self) -> u32 {
        400
    }
    fn scaled(&self, factor: u32) -> u32 {
        400 * factor
    }
    fn portion<U: From<u32>>(&self) -> U {
        U::from(Recipe::calories(self))
    }
}
impl Dish for Pasta {
    fn name(&self) -> &str {
        "pasta"
    }
}

fn total(r: &(impl Recipe + ?Sized)) -> u32 {
    r.calories()
}
fn consume_recipe(r: impl Recipe) -> u32 {
    r.scaled(2)
}

#[test]
fn trait_object_mounts_shim_source_onto_principal() {
    let code = expand_local("DynRecipe", vec![], None, &recipe_model());
    has(
        &code,
        "macro_rules! DynRecipe { (@bare $self_ty:ty) => { impl Recipe for $self_ty { \
         #[allow(deprecated)] fn calories(&self) -> u32 { DynRecipe::calories(self) }",
    );
    has(
        &code,
        "#[allow(unused_variables)] #[allow(deprecated)] fn portion<U: From<u32>>(&self) -> U { \
         ::std::panic!(\"`portion` is not available on the type-erased `DynRecipe` shim\") }",
    );
    has(
        &code,
        "(@mount ($principal:path) ($($marker:tt)*)) => { impl Recipe for dyn $principal $($marker)* {",
    );
    has(&code, "impl Recipe for ::std::boxed::Box<dyn $principal $($marker)*> {");
    has(&code, "{ DynRecipe::scaled(&**self, factor) }");
    let dish_item = trait_with(
        vec![],
        "Dish",
        vec![bound("DynRecipe")],
        vec![method(vec![], sig("name", vec![recv_ref()], Some(ref_ty(None, false, path_ty("str")))))],
    );
    let mounted = ok(trait_object(&vec![bound("DynRecipe")], &dish_item));
    has(&mounted, "DynRecipe! { @mount (Dish) () }");

    let dish: Box<dyn Dish> = Box::new(Pasta);
    assert_eq!(dish.name(), "pasta"); // Dish's own method still works
    // `&dyn Dish` satisfies `Recipe` by reference (the bare mount).
    assert_eq!(total(&*dish), 400);
    // The generic `portion` lives only on the concrete type.
    assert_eq!(Recipe::portion::<u32>(&Pasta), 400);
    // `Box<dyn Dish>` satisfies `Recipe` by value (the boxed mount).
    assert_eq!(consume_recipe(dish), 800);
}

// Hash and Clone combine in one attribute, and listed auto traits select the
// covered `dyn` marker variants.

trait Node: dyn_shim::DynHash + DynClone {
    fn id(&self) -> u32;
}

impl std::hash::Hash for dyn Node {
    fn hash<__H: std::hash::Hasher>(&self, state: &mut __H) {
        <Self as dyn_shim::DynHash>::__dyn_shim_hash(self, state)
    }
}
impl std::hash::Hash for dyn Node + Send + Sync {
    fn hash<__H: std::hash::Hasher>(&self, state: &mut __H) {
        <Self as dyn_shim::DynHash>::__dyn_shim_hash(self, state)
    }
}

#[derive(Hash, Clone)]
struct Leaf(u32);
impl Node for Leaf {
    fn id(&self) -> u32 {
        self.0
    }
}

#[test]
fn plain_dyn_is_hash_and_clone() {
    let item = trait_with(
        vec![],
        "Node",
        vec![bound("DynHash"), bound("DynClone")],
        vec![method(vec![], sig("id", vec![recv_ref()], Some(path_ty("u32"))))],
    );
    let list = vec![bound("DynHash"), bound("DynClone"), bound("Send"), bound("Sync")];
    let code = ok(trait_object(&list, &item));
    has(
        &code,
        "DynHash! { @mount (Node) () } DynHash! { @mount (Node) ( + ::std::marker::Send) } \
         DynHash! { @mount (Node) ( + ::std::marker::Sync) } DynHash! { @mount (Node) ( + \
         ::std::marker::Send + ::std::marker::Sync) } DynClone! { @mount (Node) () }",
    );
    assert_eq!(count(&code, "@mount"), 8);

    let bh = BuildHasherDefault::<DefaultHasher>::default();
    let boxed: Box<dyn Node> = Box::new(Leaf(3));
    assert_eq!(boxed.id(), 3);
    assert_eq!(bh.hash_one(&*boxed), bh.hash_one(&Leaf(3)));
}

// ---------------------------------------------------------------------------
// The rules behind the expansions, on concrete values.

#[test]
fn marker_combinations_are_subsets() {
    let autos = vec![AutoTrait::Send, AutoTrait::Sync, AutoTrait::Unpin];
    let combos = MarkerCombo::all(&autos);
    assert_eq!(combos.len(), 8);
    assert_eq!(combos[0].suffix, "");
    assert_eq!(combos[0].markers, "");
    // Mask 0b101 selects the first and the third listed trait, in order.
    assert_eq!(combos[5].suffix, "_send_unpin");
    assert_eq!(combos[5].markers, " + ::std::marker::Send + ::std::marker::Unpin");
    assert_eq!(combos[7].suffix, "_send_sync_unpin");
    assert_eq!(MarkerCombo::all(&vec![]).len(), 1);
}

#[test]
fn classify_dedupes_and_ignores_position() {
    let maybe_sized = Bound {
        text: "?Sized".to_string(),
        kind: BoundKind::Trait { modifier: true, binder: false, path: path("Sized") },
    };
    let bounds = vec![
        bound("Send"),
        bound("Clone"),
        bound("Send"),
        bound("Hash"),
        bound("Clone"),
        bound("Display"),
        bound("std::clone::Clone"),
        maybe_sized,
    ];
    let c = ClassifiedBounds::classify(&bounds);
    assert_eq!(c.recognized, vec![RecognizedBound::Clone, RecognizedBound::Hash]);
    assert_eq!(c.autos, vec![AutoTrait::Send]);
    assert_eq!(c.supertraits, vec![0, 2, 5, 6, 7]);
    assert_eq!(c.passthrough, vec![5, 6, 7]);
    assert!(c.rejected.is_empty());
}

#[test]
fn rejected_bound_reports_first() {
    let e = dyn_shim(&shim_args("DynBadge", vec![bound("Send"), bound("Ord"), bound("Copy")], None), &badge_model(), FEATURES);
    assert!(e.code.is_empty());
    let (site, msg) = err(e);
    assert_eq!(site, Site::Bound(1));
    assert_eq!(
        msg,
        "`Ord` is not supported: the macro cannot define a total order between different implementor \
         types (sort with `sort_by_key` or implement the comparison traits for the shim's `dyn` type by hand)"
    );
}

#[test]
fn generic_source_trait_rejected() {
    let mut item = badge_model();
    item.generics = vec!["T".to_string()];
    let (site, msg) = err(dyn_shim(&shim_args("DynBadge", vec![], None), &item, FEATURES));
    assert_eq!(site, Site::TraitGeneric);
    assert_eq!(msg, "dyn_shim does not support generic source traits");
}

#[test]
fn reflexive_argument_read() {
    let arg = |key: &str, kinds: Vec<&str>| {
        Some(ReflexiveArg { key: key.to_string(), kinds: kinds.iter().map(|k| k.to_string()).collect() })
    };
    assert_eq!(parse_reflexive(&None).ok(), Some(vec![]));
    assert_eq!(
        parse_reflexive(&arg("reflexive", vec!["boxed", "bare", "boxed"])).ok(),
        Some(vec![ObjectForm::Boxed, ObjectForm::Bare])
    );
    let e = parse_reflexive(&arg("reflexiv", vec!["bare"])).err().unwrap();
    assert_eq!(e.0, Site::ReflexiveKey);
    assert_eq!(e.1, "expected `reflexive`");
    let e = parse_reflexive(&arg("reflexive", vec!["bare", "both"])).err().unwrap();
    assert_eq!(e.0, Site::ReflexiveKind(1));
    assert_eq!(e.1, "unsupported reflexive kind, expected `bare` or `boxed`");
}

fn write_bound_param(ident: &str) -> GenericParam {
    GenericParam::Type { text: format!("{}: Write", ident), ident: ident.to_string(), bounds: vec![bound("Write")] }
}

#[test]
fn erase_lowers_generic_arguments() {
    let item = trait_with(
        vec![],
        "Log",
        vec![],
        vec![
            method(
                vec![helper("erase")],
                sig("write_to", vec![recv_ref(), arg("out", ref_ty(None, true, impl_ty("Write")))], None),
            ),
            method(
                vec![helper("erase")],
                full_sig(
                    "",
                    "peek",
                    vec![write_bound_param("W")],
                    vec![recv_ref(), arg("w", ref_ty(None, false, path_ty("W"))), arg("n", path_ty("u8"))],
                    None,
                    vec![],
                ),
            ),
        ],
    );
    let code = expand_local("DynLog", vec![], None, &item);
    has(&code, "fn write_to(&self, out: &mut dyn Write);");
    has(&code, "{ let mut out = out; <__T as Log>::write_to(self, &mut out) }");
    has(&code, "fn peek(&self, w: &dyn Write, n: u8);");
    has(&code, "{ <__T as Log>::peek(self, & w, n) }");
}

#[test]
fn erase_rejects_inexpressible_parameters() {
    let erased = |s: Signature| trait_with(vec![], "Log", vec![], vec![method(vec![helper("erase")], s)]);
    let in_return = full_sig(
        "",
        "make",
        vec![write_bound_param("W")],
        vec![recv_ref(), arg("w", ref_ty(None, true, path_ty("W")))],
        Some(path_ty("W")),
        vec![],
    );
    let (site, msg) = err(dyn_shim(&shim_args("DynLog", vec![], None), &erased(in_return), FEATURES));
    assert_eq!(site, Site::MethodOutput(0));
    assert_eq!(msg, "#[dyn_shim(erase)] cannot erase `W`: it appears in the return type");

    let by_value = full_sig("", "take", vec![write_bound_param("W")], vec![recv_ref(), arg("w", path_ty("W"))], None, vec![]);
    let (site, msg) = err(dyn_shim(&shim_args("DynLog", vec![], None), &erased(by_value), FEATURES));
    assert_eq!(site, Site::ArgType(0, 1));
    assert_eq!(
        msg,
        "#[dyn_shim(erase)] cannot erase `W`: it is not used behind a `&` or `&mut` argument (only such \
         uses lower to a trait object)"
    );

    let twice = full_sig(
        "",
        "both",
        vec![write_bound_param("W")],
        vec![recv_ref(), arg("a", ref_ty(None, true, path_ty("W"))), arg("b", ref_ty(None, true, path_ty("W")))],
        None,
        vec![],
    );
    let (site, msg) = err(dyn_shim(&shim_args("DynLog", vec![], None), &erased(twice), FEATURES));
    assert_eq!(site, Site::ArgType(0, 2));
    assert!(msg.contains("it is used in more than one argument"));

    // Behind a reference once, and by value in another argument.
    let also_by_value = full_sig(
        "",
        "f",
        vec![type_param("T: std::fmt::Debug", "T", vec![bound("std::fmt::Debug")])],
        vec![recv_ref(), arg("a", ref_ty(None, false, path_ty("T"))), arg("b", path_ty("T"))],
        None,
        vec![],
    );
    let (site, msg) = err(dyn_shim(&shim_args("DynLog", vec![], None), &erased(also_by_value), FEATURES));
    assert_eq!(site, Site::ArgType(0, 2));
    assert_eq!(
        msg,
        "#[dyn_shim(erase)] cannot erase `T`: it is used in more than one argument, which would force one \
         reference type onto independent objects"
    );

    // Only nested in another type.
    let nested = full_sig(
        "",
        "g",
        vec![write_bound_param("W")],
        vec![recv_ref(), arg("ws", generic_ty("Vec", path_ty("W")))],
        None,
        vec![],
    );
    let (site, msg) = err(dyn_shim(&shim_args("DynLog", vec![], None), &erased(nested), FEATURES));
    assert_eq!(site, Site::ArgType(0, 1));
    assert!(msg.contains("it is not used behind a `&` or `&mut` argument"));

    // Unused altogether: reported at the parameter.
    let unused = full_sig("", "h", vec![write_bound_param("W")], vec![recv_ref()], None, vec![]);
    let (site, _) = err(dyn_shim(&shim_args("DynLog", vec![], None), &erased(unused), FEATURES));
    assert_eq!(site, Site::MethodParam(0, 0));

    // An associated type of the parameter in the return type mentions it.
    let assoc_out = full_sig(
        "",
        "next",
        vec![type_param("T: Iterator", "T", vec![bound("Iterator")])],
        vec![recv_ref(), arg("it", ref_ty(None, true, path_ty("T")))],
        Some(path_ty("T::Item")),
        vec![],
    );
    let (site, msg) = err(dyn_shim(&shim_args("DynLog", vec![], None), &erased(assoc_out), FEATURES));
    assert_eq!(site, Site::MethodOutput(0));
    assert_eq!(msg, "#[dyn_shim(erase)] cannot erase `T`: it appears in the return type");

    let constant = full_sig("", "fixed", vec![GenericParam::Const("const N: usize".to_string())], vec![recv_ref()], None, vec![]);
    let (site, msg) = err(dyn_shim(&shim_args("DynLog", vec![], None), &erased(constant), FEATURES));
    assert_eq!(site, Site::MethodParam(0, 0));
    assert_eq!(msg, "#[dyn_shim(erase)] cannot erase a const generic parameter to a trait object");
}

#[test]
fn boxed_builder_boxes_self() {
    let item = trait_with(
        vec![],
        "Builder",
        vec![],
        vec![method(vec![helper("boxed")], sig("with", vec![recv_value(), arg("n", path_ty("u32"))], Some(self_ty())))],
    );
    let code = expand_local("DynBuilder", vec![], Some(vec!["boxed"]), &item);
    has(&code, "fn with(self: ::std::boxed::Box<Self>, n: u32) -> ::std::boxed::Box<dyn DynBuilder> where Self: 'static;");
    has(&code, "{ ::std::boxed::Box::new(<__T as Builder>::with(*self, n)) }");
    has(&code, "fn with(self, n: u32) -> Self { DynBuilder::with(self, n) }");

    let not_self = trait_with(
        vec![],
        "Builder",
        vec![],
        vec![method(vec![helper("boxed")], sig("count", vec![recv_ref()], Some(path_ty("u32"))))],
    );
    let (site, msg) = err(dyn_shim(&shim_args("DynBuilder", vec![], None), &not_self, FEATURES));
    assert_eq!(site, Site::MethodOutput(0));
    assert!(msg.starts_with("#[dyn_shim(boxed)] expects the return type to be exactly `Self`"));

    let (site, msg) = err(dyn_shim(&shim_args("DynBuilder", vec![bound("Send")], Some(vec!["boxed"])), &item, FEATURES));
    assert_eq!(site, Site::MethodIdent(0));
    assert!(msg.starts_with("#[dyn_shim(boxed)] does not yet support auto-trait markers on a reflexive shim"));
}

#[test]
fn helper_attributes_checked() {
    let unknown = trait_with(vec![], "Gauge", vec![], vec![method(vec![helper("frob")], sig("level", vec![recv_ref()], None))]);
    let (site, msg) = err(dyn_shim(&shim_args("DynGauge", vec![], None), &unknown, FEATURES));
    assert_eq!(site, Site::ItemAttr(0, 0));
    assert_eq!(msg, "unsupported dyn_shim argument, expected `skip`, `panic`, `erase`, `boxed`, or `stub = <expr>`");

    let on_const = trait_with(
        vec![],
        "Gauge",
        vec![],
        vec![TraitItem::Const { attrs: vec![helper("skip")], text: "#[dyn_shim(skip)] const MAX: u8;".to_string() }],
    );
    let (site, msg) = err(dyn_shim(&shim_args("DynGauge", vec![], None), &on_const, FEATURES));
    assert_eq!(site, Site::ItemAttr(0, 0));
    assert_eq!(msg, "#[dyn_shim] attributes are only supported on methods");

    let skipped = trait_with(
        vec![],
        "Gauge",
        vec![],
        vec![
            method(vec![], sig("level", vec![recv_ref()], Some(path_ty("i32")))),
            method(vec![helper("skip")], sig("debug_only", vec![recv_ref()], None)),
        ],
    );
    let code = expand_local("DynGauge", vec![], None, &skipped);
    has(&code, "#[doc = \"- [`Gauge::debug_only`] (opted out with #[dyn_shim(skip)])\"]");
    lacks(&code, "<__T as Gauge>::debug_only");
    // The helper is stripped from the re-emitted source trait.
    has(&code, "trait Gauge { fn level(&self) -> i32; fn debug_only(&self); }");
}

#[test]
fn reflexive_impl_must_place_every_method() {
    let item = trait_with(
        vec![],
        "Munch",
        vec![],
        vec![
            method(vec![], sig("crunch", vec![recv_value()], Some(path_ty("u32")))),
            method(vec![], sig("fresh", vec![], Some(self_ty()))),
        ],
    );
    let e = dyn_shim(&shim_args("DynMunch", vec![], Some(vec!["bare", "boxed"])), &item, FEATURES);
    let sites: Vec<Site> = e.errors.iter().map(|d| d.site).collect();
    // Bare: `crunch` takes the object by value, `fresh` has no fallback;
    // boxed: `fresh` has no fallback.
    assert_eq!(sites, vec![Site::MethodReceiver(0), Site::MethodIdent(1), Site::MethodIdent(1)]);
    assert!(e.errors[1].message.starts_with("`fresh` is not dyn-compatible (no self receiver), so the reflexive impl cannot forward it"));
    // The shim itself is still generated, without the reflexive invocations.
    has(&e.code, "trait DynMunch {");
    lacks(&e.code, "DynMunch! {");
}

#[test]
fn stub_expression_and_defaults() {
    let stub = Attribute {
        text: "#[dyn_shim(stub = None)]".to_string(),
        ident: Some("dyn_shim".to_string()),
        args: AttrArgs::List(vec![NestedMeta { ident: Some("stub".to_string()), value: Some("None".to_string()), list: false }]),
    };
    let item = trait_with(
        vec![],
        "Lookup",
        vec![],
        vec![
            method(vec![stub], sig("fresh", vec![], Some(path_ty("Option<u8>")))),
            provided(sig("again", vec![], Some(path_ty("u8"))), "{ 1 }"),
        ],
    );
    let code = expand_local("DynLookup", vec![], Some(vec!["boxed"]), &item);
    has(&code, "#[allow(unused_variables)] #[allow(deprecated)] fn fresh() -> Option<u8> { None }");
    // A default body on the source trait is inherited by the impl.
    lacks(&code, "#[allow(deprecated)] fn again");
}

#[test]
fn foreign_provided_method_stays_on_shim() {
    let item = trait_with(
        vec![],
        "DynSink",
        vec![],
        vec![
            method(vec![], sig("total", vec![recv_ref()], Some(path_ty("usize")))),
            provided(sig("doubled", vec![recv_ref()], Some(path_ty("usize"))), "{ self.total() * 2 }"),
        ],
    );
    let args = ForeignArgs { source: path("other_crate::Sink"), reflexive: None };
    let code = ok(dyn_shim_foreign(&args, &item, FEATURES));
    has(&code, "fn doubled(&self) -> usize { self.total() * 2 }");
    lacks(&code, "other_crate::Sink>::doubled");
    has(&code, "{ <__T as other_crate::Sink>::total(self) }");

    // Opted out explicitly, a provided method that is not dyn-compatible is
    // left off the shim like any skipped method.
    let opted_out = TraitItem::Fn(TraitItemFn {
        attrs: vec![helper("skip")],
        sig: full_sig("", "scaled", vec![type_param("T", "T", vec![])], vec![recv_ref()], Some(path_ty("T")), vec![]),
        default: Some("{ T::from(self.total()) }".to_string()),
    });
    let mut with_skip = item;
    with_skip.items.push(opted_out);
    let code = ok(dyn_shim_foreign(&args, &with_skip, FEATURES));
    has(&code, "#[doc = \"- [`other_crate::Sink::scaled`] (opted out with #[dyn_shim(skip)])\"]");
    lacks(&code, "fn scaled");
}

#[test]
fn recognized_misuse_rejected() {
    let empty = trait_with(vec![], "DynThing", vec![], vec![]);
    let (site, msg) = err(dyn_shim_recognized(&vec![bound("Display")], &empty));
    assert_eq!(site, Site::Bound(0));
    assert_eq!(msg, "dyn_shim_recognized expects a recognized trait (`Clone` or `Hash`), optionally followed by auto-trait markers");
    let (site, msg) = err(dyn_shim_recognized(&vec![bound("Clone"), bound("Hash")], &empty));
    assert_eq!(site, Site::Bounds);
    assert_eq!(msg, "expected a single recognized trait (`Clone` or `Hash`)");
    let (_, msg) = err(dyn_shim_recognized(&vec![bound("Send")], &empty));
    assert_eq!(msg, "dyn_shim_recognized expects a recognized trait (`Clone` or `Hash`)");
    let with_item = trait_with(vec![], "DynThing", vec![], vec![method(vec![], sig("f", vec![recv_ref()], None))]);
    let (site, _) = err(dyn_shim_recognized(&vec![bound("Clone")], &with_item));
    assert_eq!(site, Site::Item(0));
    let with_super = trait_with(vec![], "DynThing", vec![bound("Send")], vec![]);
    let (site, _) = err(dyn_shim_recognized(&vec![bound("Clone")], &with_super));
    assert_eq!(site, Site::Supertrait(0));
}

#[test]
fn trait_object_misuse_rejected() {
    let item = trait_with(vec![], "Widget", vec![bound("DynHash")], vec![]);
    let (site, msg) = err(trait_object(&vec![bound("Hash")], &item));
    assert_eq!(site, Site::Bound(0));
    assert!(msg.starts_with("name the carrier trait, not the capability"));
    let (site, msg) = err(trait_object(&vec![bound("Send")], &item));
    assert_eq!(site, Site::Bounds);
    assert!(msg.starts_with("trait_object expects at least one carrier trait to mount"));
    let (site, msg) = err(trait_object(&vec![bound("DynClone")], &item));
    assert_eq!(site, Site::TraitIdent);
    assert_eq!(msg, "trait_object needs `DynClone` as a supertrait; write `trait Widget: DynClone`");
    // A carrier is matched by the last segment of its path.
    let code = ok(trait_object(&vec![bound("dyn_shim::DynHash")], &item));
    has(&code, "dyn_shim::DynHash! { @mount (Widget) () }");
}

#[test]
fn literals_escape_quotes_and_backslashes() {
    assert_eq!(literal("plain"), "\"plain\"");
    assert_eq!(literal("a\"b\\c"), "\"a\\\"b\\\\c\"");
}

#[test]
fn nontrivial_patterns_are_renamed() {
    let pair = FnArg::Typed(PatType {
        attrs_text: String::new(),
        pat: Pat::Other("(a, b)".to_string()),
        ty: other_ty("(u8, u8)", vec![path_ty("u8"), path_ty("u8")], vec![]),
    });
    let item = trait_with(vec![], "Pairs", vec![], vec![method(vec![], sig("sum", vec![recv_ref(), arg("k", path_ty("u8")), pair], None))]);
    let code = expand_local("DynPairs", vec![], None, &item);
    has(&code, "fn sum(&self, k: u8, __a1: (u8, u8));");
    has(&code, "{ <__T as Pairs>::sum(self, k, __a1) }");
}

// ---------------------------------------------------------------------------
// Programs the attributes must refuse. Each case is the annotated trait of a
// program that fails to compile: either the expansion reports the error
// itself, or it generates code whose use fails (a method left off the shim, a
// bound on the blanket impl or the shim that the program cannot meet).

fn self_sized() -> WherePredicate {
    WherePredicate::Type { text: "Self: Sized".to_string(), bounded: self_ty(), bounds: vec![bound("Sized")] }
}

fn type_param(text: &str, ident: &str, bounds: Vec<Bound>) -> GenericParam {
    GenericParam::Type { text: text.to_string(), ident: ident.to_string(), bounds }
}

fn keep_method() -> TraitItem {
    method(vec![], sig("keep", vec![recv_ref()], Some(path_ty("i32"))))
}

fn assert_skipped(extra: TraitItem, name: &str, reason: &str) {
    let item = trait_with(vec![], "Src", vec![], vec![keep_method(), extra]);
    let code = expand_local("Dyn", vec![], None, &item);
    has(&code, "trait Dyn { fn keep(&self) -> i32; }");
    has(&code, "{ <__T as Src>::keep(self) }");
    lacks(&code, &format!("<__T as Src>::{}", name));
    has(&code, &format!("#[doc = \"- [`Src::{}`] ({})\"]", name, reason));
}

#[test]
fn skipped_methods_absent_from_shim() {
    assert_skipped(method(vec![], sig("make", vec![], Some(path_ty("i32")))), "make", "no self receiver");
    assert_skipped(
        method(vec![], full_sig("", "pick", vec![type_param("T", "T", vec![])], vec![recv_ref(), arg("t", path_ty("T"))], None, vec![])),
        "pick",
        "generic type or const parameter",
    );
    assert_skipped(
        method(vec![], full_sig("", "fixed", vec![GenericParam::Const("const N: usize".to_string())], vec![recv_ref()], None, vec![])),
        "fixed",
        "generic type or const parameter",
    );
    let mut fetch = full_sig("async", "fetch", vec![], vec![recv_ref()], Some(path_ty("i32")), vec![]);
    fetch.asyncness = true;
    assert_skipped(method(vec![], fetch), "fetch", "async fn");
    assert_skipped(method(vec![], sig("dup", vec![recv_ref()], Some(self_ty()))), "dup", "mentions Self");
    assert_skipped(method(vec![], sig("merge", vec![recv_ref(), arg("other", self_ty())], None)), "merge", "mentions Self");
    assert_skipped(
        method(vec![], sig("feed", vec![recv_ref(), arg("it", impl_ty("Iterator<Item = u8>"))], None)),
        "feed",
        "uses impl Trait",
    );
    assert_skipped(method(vec![], sig("iter", vec![recv_ref()], Some(impl_ty("Iterator<Item = u8>")))), "iter", "uses impl Trait");
    assert_skipped(
        method(vec![], full_sig("", "size", vec![], vec![recv_ref()], Some(path_ty("usize")), vec![self_sized()])),
        "size",
        "requires Self: Sized",
    );
    assert_skipped(method(vec![helper("skip")], sig("debug", vec![recv_ref()], None)), "debug", "opted out with #[dyn_shim(skip)]");
}

#[test]
fn invalid_helper_attrs_rejected() {
    // A helper on an item that is not a method.
    let on_type = trait_with(
        vec![],
        "Src",
        vec![],
        vec![keep_method(), TraitItem::Type { attrs: vec![helper("skip")], text: "#[dyn_shim(skip)] type Out;".to_string() }],
    );
    let (site, msg) = err(dyn_shim(&shim_args("Dyn", vec![], None), &on_type, FEATURES));
    assert_eq!(site, Site::ItemAttr(1, 0));
    assert_eq!(msg, "#[dyn_shim] attributes are only supported on methods");

    // An unknown helper argument (a typo of `skip`).
    let typo = trait_with(vec![], "Src", vec![], vec![method(vec![helper("skpi")], sig("keep", vec![recv_ref()], Some(path_ty("i32"))))]);
    let (site, msg) = err(dyn_shim(&shim_args("Dyn", vec![], None), &typo, FEATURES));
    assert_eq!(site, Site::ItemAttr(0, 0));
    assert_eq!(msg, "unsupported dyn_shim argument, expected `skip`, `panic`, `erase`, `boxed`, or `stub = <expr>`");

    // A provided method of a foreign shim that is not dyn-compatible has no
    // other home, so it is refused rather than left out.
    let scaled = TraitItem::Fn(TraitItemFn {
        attrs: vec![],
        sig: full_sig(
            "",
            "scaled",
            vec![type_param("T: From<usize>", "T", vec![bound("From<usize>")])],
            vec![recv_ref()],
            Some(path_ty("T")),
            vec![],
        ),
        default: Some("{ T::from(self.total()) }".to_string()),
    });
    let sink = trait_with(
        vec![],
        "DynSink",
        vec![],
        vec![method(vec![], sig("total", vec![recv_ref()], Some(path_ty("usize")))), scaled],
    );
    let args = ForeignArgs { source: path("upstream::Sink"), reflexive: None };
    let e = dyn_shim_foreign(&args, &sink, FEATURES);
    assert!(e.code.is_empty());
    let (site, msg) = err(e);
    assert_eq!(site, Site::MethodIdent(1));
    assert_eq!(
        msg,
        "`scaled` has a default body, so the shim is its only home, but it is not dyn-compatible (generic type \
         or const parameter) and cannot be a method of the shim; make it dyn-compatible or opt it out with \
         `#[dyn_shim(skip)]`"
    );
}

#[test]
fn recognized_bounds_rejected() {
    // The blanket impl demands the recognized bound, so an implementor that
    // is neither `Clone` nor `Hash` never receives the shim.
    let item = trait_with(vec![], "Src", vec![], vec![keep_method()]);
    let code = expand_local("Dyn", vec![bound("Clone")], None, &item);
    has(&code, "impl<__T: Src + ::std::clone::Clone> Dyn for __T {");
    let code = expand_local("Dyn", vec![bound("Hash")], None, &item);
    has(&code, "impl<__T: Src + ::std::hash::Hash> Dyn for __T {");
}

#[test]
fn impossible_bounds_rejected() {
    let item = trait_with(vec![], "Src", vec![], vec![keep_method()]);
    let cases = [
        ("Copy", "trait objects are unsized and can never be `Copy` (use a `Clone` bound to make the shim's boxes cloneable)"),
        ("Sized", "trait objects are unsized, so the shim's `dyn` type can never be `Sized`"),
        (
            "Default",
            "`Default` has no `self` receiver and cannot be dispatched through a trait object (construct values as \
             concrete types and box them)",
        ),
        (
            "Eq",
            "`Eq` is not yet a recognized bound (cross-type equality on trait objects needs an `Any` downcast the \
             macro does not generate)",
        ),
        (
            "PartialEq",
            "`PartialEq` is not yet a recognized bound (cross-type equality on trait objects needs an `Any` downcast \
             the macro does not generate)",
        ),
        (
            "Ord",
            "`Ord` is not supported: the macro cannot define a total order between different implementor types \
             (sort with `sort_by_key` or implement the comparison traits for the shim's `dyn` type by hand)",
        ),
        (
            "PartialOrd",
            "`PartialOrd` is not supported: the macro cannot define an order between different implementor types \
             (sort with `sort_by_key` or implement the comparison traits for the shim's `dyn` type by hand)",
        ),
    ];
    for (name, message) in cases {
        let e = dyn_shim(&shim_args("Dyn", vec![bound(name)], None), &item, FEATURES);
        assert!(e.code.is_empty());
        let (site, msg) = err(e);
        assert_eq!(site, Site::Bound(0));
        assert_eq!(msg, message);
    }
    // A trait the macro cannot recognize by name, a path-form bound, and a
    // `?Sized` relaxation pass through as supertraits, where rustc rejects
    // the shim at its first `dyn` use.
    let code = expand_local("Dyn", vec![bound("NotDynCompatible")], None, &item);
    has(&code, "trait Dyn: NotDynCompatible {");
    let code = expand_local("Dyn", vec![bound("std::marker::Copy")], None, &item);
    has(&code, "trait Dyn: std::marker::Copy {");
    let maybe_sized = Bound {
        text: "?Sized".to_string(),
        kind: BoundKind::Trait { modifier: true, binder: false, path: path("Sized") },
    };
    let code = expand_local("Dyn", vec![maybe_sized], None, &item);
    has(&code, "trait Dyn: ?Sized {");
}

#[test]
fn unlisted_marker_not_covered() {
    let item = trait_with(vec![], "Src", vec![], vec![keep_method()]);
    let code = expand_local("Dyn", vec![bound("Clone")], None, &item);
    has(&code, "impl ::std::clone::Clone for ::std::boxed::Box<dyn Dyn>");
    lacks(&code, "::std::marker::Send");
}

#[test]
fn reflexive_impl_must_be_complete() {
    let by_value = trait_with(
        vec![],
        "Src",
        vec![],
        vec![keep_method(), method(vec![], sig("consume", vec![recv_value()], Some(path_ty("i32"))))],
    );
    let bare_by_value =
        "`reflexive = bare` cannot include `consume`: its by-value `self` receiver would take the unsized `dyn` shim \
         by value. Use `reflexive = boxed`.";
    let e = dyn_shim(&shim_args("Dyn", vec![], Some(vec!["bare"])), &by_value, FEATURES);
    let (site, msg) = err(e);
    assert_eq!(site, Site::MethodReceiver(1));
    assert_eq!(msg, bare_by_value);
    // With both forms, only the bare one fails.
    let e = dyn_shim(&shim_args("Dyn", vec![], Some(vec!["bare", "boxed"])), &by_value, FEATURES);
    let (site, msg) = err(e);
    assert_eq!(site, Site::MethodReceiver(1));
    assert_eq!(msg, bare_by_value);

    // A method that cannot forward needs a fallback; each one is reported.
    let unstubbed = |n: usize| {
        let mut items = vec![keep_method()];
        for k in 0..n {
            items.push(method(vec![], sig(&format!("fresh{}", k), vec![], Some(self_ty()))));
        }
        trait_with(vec![], "Src", vec![], items)
    };
    let e = dyn_shim(&shim_args("Dyn", vec![], Some(vec!["boxed"])), &unstubbed(1), FEATURES);
    let (site, msg) = err(e);
    assert_eq!(site, Site::MethodIdent(1));
    assert_eq!(
        msg,
        "`fresh0` is not dyn-compatible (no self receiver), so the reflexive impl cannot forward it; provide a \
         fallback with `#[dyn_shim(panic)]` or `#[dyn_shim(stub = <expr>)]`, or give it a default body"
    );
    let e = dyn_shim(&shim_args("Dyn", vec![], Some(vec!["boxed"])), &unstubbed(2), FEATURES);
    let sites: Vec<Site> = e.errors.iter().map(|d| d.site).collect();
    assert_eq!(sites, vec![Site::MethodIdent(1), Site::MethodIdent(2)]);

    // A `where Self: Sized` method is left out of the bare impl, so it cannot
    // be called on the unsized shim at all.
    let cfg = trait_with(
        vec![],
        "Cfg",
        vec![],
        vec![
            method(vec![], sig("get", vec![recv_ref()], Some(path_ty("i32")))),
            method(vec![], full_sig("", "rebuild", vec![], vec![recv_ref()], Some(path_ty("i32")), vec![self_sized()])),
        ],
    );
    let code = expand_local("DynCfg", vec![], Some(vec!["bare"]), &cfg);
    has(&code, "(@bare $self_ty:ty) => { impl Cfg for $self_ty { #[allow(deprecated)] fn get(&self) -> i32 { DynCfg::get(self) } } };");
    has(&code, "DynCfg! { @bare dyn DynCfg }");
    lacks(&code, "DynCfg::rebuild");
}

#[test]
fn erase_rejects_inexpressible() {
    let erased = |s: Signature| trait_with(vec![], "Src", vec![], vec![method(vec![helper("erase")], s)]);
    let in_return = full_sig(
        "",
        "make",
        vec![type_param("T: Default", "T", vec![bound("Default")])],
        vec![recv_ref()],
        Some(path_ty("T")),
        vec![],
    );
    let (site, msg) = err(dyn_shim(&shim_args("Dyn", vec![], None), &erased(in_return), FEATURES));
    assert_eq!(site, Site::MethodOutput(0));
    assert_eq!(msg, "#[dyn_shim(erase)] cannot erase `T`: it appears in the return type");

    let by_value = full_sig(
        "",
        "sink",
        vec![type_param("T: std::fmt::Debug", "T", vec![bound("std::fmt::Debug")])],
        vec![recv_ref(), arg("value", path_ty("T"))],
        None,
        vec![],
    );
    let (site, msg) = err(dyn_shim(&shim_args("Dyn", vec![], None), &erased(by_value), FEATURES));
    assert_eq!(site, Site::ArgType(0, 1));
    assert_eq!(
        msg,
        "#[dyn_shim(erase)] cannot erase `T`: it is not used behind a `&` or `&mut` argument (only such uses \
         lower to a trait object)"
    );

    // A bound that does not forward through references is accepted: the
    // generated forwarding call is what fails to compile.
    let drain = sig("drain", vec![recv_ref(), arg("out", ref_ty(None, true, impl_ty("Sink")))], None);
    let code = expand_local("Dyn", vec![], None, &erased(drain));
    has(&code, "fn drain(&self, out: &mut dyn Sink);");
    has(&code, "{ let mut out = out; <__T as Src>::drain(self, &mut out) }");
}

#[test]
fn boxed_rejects_markers() {
    let step = trait_with(
        vec![],
        "Step",
        vec![],
        vec![
            method(vec![], sig("value", vec![recv_ref()], Some(path_ty("i32")))),
            method(vec![helper("boxed")], sig("add", vec![recv_value(), arg("n", path_ty("i32"))], Some(self_ty()))),
        ],
    );
    let e = dyn_shim(&shim_args("DynStep", vec![bound("Send")], Some(vec!["boxed"])), &step, FEATURES);
    assert!(e.code.is_empty());
    let (site, msg) = err(e);
    assert_eq!(site, Site::MethodIdent(1));
    assert_eq!(
        msg,
        "#[dyn_shim(boxed)] does not yet support auto-trait markers on a reflexive shim: the boxed return \
         `Box<dyn Shim>` cannot carry `+ Send` and similar"
    );
}

#[test]
fn dyn_shim_bind_misuse_rejected() {
    let id = || method(vec![], sig("id", vec![recv_ref()], Some(path_ty("u32"))));
    let bare = trait_with(vec![], "Foo", vec![], vec![id()]);
    let (site, msg) = err(trait_object(&vec![bound("DynHash")], &bare));
    assert_eq!(site, Site::TraitIdent);
    assert_eq!(msg, "trait_object needs `DynHash` as a supertrait; write `trait Foo: DynHash`");

    let (site, msg) = err(trait_object(&vec![bound("Send")], &bare));
    assert_eq!(site, Site::Bounds);
    assert_eq!(
        msg,
        "trait_object expects at least one carrier trait to mount (`DynClone`, `DynHash`, or a `#[dyn_shim]` shim), \
         optionally followed by auto-trait markers"
    );

    let inherits = trait_with(vec![], "Foo", vec![bound("DynClone")], vec![id()]);
    let (site, msg) = err(trait_object(&vec![bound("Clone")], &inherits));
    assert_eq!(site, Site::Bound(0));
    assert_eq!(
        msg,
        "name the carrier trait, not the capability: write `DynClone` / `DynHash` (gated on the `dyn_clone` / \
         `dyn_hash` feature) and inherit it as a supertrait"
    );
}

// `reflexive` through the foreign form: `Box<dyn DynBrew>` satisfies the
// foreign `cafe::Brew`, including its by-value `finish`. The foreign trait is
// written at the top level below, standing for `cafe::Brew`.

fn brew_model() -> ItemTrait {
    trait_with(
        vec![],
        "DynBrew",
        vec![],
        vec![
            method(vec![], sig("sip", vec![recv_ref()], Some(path_ty("u32")))),
            method(vec![], sig("finish", vec![recv_value()], Some(path_ty("u32")))),
        ],
    )
}

trait Brew {
    fn sip(&self) -> u32;
    fn finish(self) -> u32;
}

trait DynBrew {
    fn sip(&self) -> u32;
    fn finish(self: ::std::boxed::Box<Self>) -> u32;
}

impl<__T: Brew> DynBrew for __T {
    fn sip(&self) -> u32 {
        <__T as Brew>::sip(self)
    }
    fn finish(self: ::std::boxed::Box<Self>) -> u32 {
        <__T as Brew>::finish(*self)
    }
}

impl Brew for Box<dyn DynBrew> {
    fn sip(&self) -> u32 {
        DynBrew::sip(&**self)
    }
    fn finish(self) -> u32 {
        DynBrew::finish(self)
    }
}

struct Cup(u32);
impl Brew for Cup {
    fn sip(&self) -> u32 {
        self.0
    }
    fn finish(self) -> u32 {
        self.0 + 1
    }
}

fn taste(b: &impl Brew) -> u32 {
    b.sip()
}
fn drink(b: impl Brew) -> u32 {
    b.finish()
}

#[test]
fn foreign_reflexive_satisfies_source() {
    let args = ForeignArgs { source: path("cafe::Brew"), reflexive: Some(ReflexiveArg { key: "reflexive".to_string(), kinds: vec!["boxed".to_string()] }) };
    let code = ok(dyn_shim_foreign(&args, &brew_model(), FEATURES));
    has(&code, "trait DynBrew { fn sip(&self) -> u32; fn finish(self: ::std::boxed::Box<Self>) -> u32; }");
    has(&code, "impl<__T: cafe::Brew> DynBrew for __T {");
    has(&code, "{ <__T as cafe::Brew>::finish(*self) }");
    has(
        &code,
        "(@boxed $self_ty:ty) => { impl cafe::Brew for $self_ty { #[allow(deprecated)] fn sip(&self) -> u32 \
         { DynBrew::sip(&**self) } #[allow(deprecated)] fn finish(self) -> u32 { DynBrew::finish(self) } } };",
    );
    has(&code, "DynBrew! { @boxed ::std::boxed::Box<dyn DynBrew> }");
    let b: Box<dyn DynBrew> = Box::new(Cup(4));
    assert_eq!(taste(&b), 4);
    assert_eq!(drink(b), 5);
}

#[test]
fn combination_suffixes_are_distinct() {
    let autos = vec![AutoTrait::Send, AutoTrait::Sync, AutoTrait::Unpin, AutoTrait::UnwindSafe, AutoTrait::RefUnwindSafe];
    let combos = MarkerCombo::all(&autos);
    assert_eq!(combos.len(), 32);
    let mut suffixes: Vec<String> = combos.iter().map(|c| c.suffix.clone()).collect();
    suffixes.sort();
    suffixes.dedup();
    assert_eq!(suffixes.len(), 32);
    // `ref_unwind_safe` is not `ref` joined with `unwind_safe`, and the
    // one-trait suffixes are not joins of others.
    for a in &autos {
        let s = a.suffix();
        assert!(!s.is_empty() && !s.starts_with('_') && !s.ends_with('_'));
        assert!(s.chars().all(|c| c.is_ascii_lowercase() || c == '_'));
    }
    assert!(combos.iter().any(|c| c.suffix == "_unwind_safe_ref_unwind_safe"));
}
