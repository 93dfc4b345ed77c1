//! The pseudo-locale's file: the en-US `.ftl` file with every message and
//! its attributes accented and in brackets, and every term accented only
//! (a term is part of the messages that use it, which have their own
//! brackets). Variable names, selectors, variant keys and string literals
//! are left alone, so it has the same messages taking the same arguments.
//!
//! `fluent_syntax` parses and writes the file; the entries are held here
//! as they are in its syntax tree, and the library decides on them.

use vstd::prelude::*;
use fluent_syntax::ast::{Attribute, Comment, Entry, Expression, Identifier, InlineExpression, Message, Pattern,
    PatternElement, Resource, Term, Variant, VariantKey};
use crate::pseudo::{accent, accented_text};
use crate::text::owned;

verus! {

#[verifier::external_type_specification]
#[verifier::external_body]
#[verifier::reject_recursive_types(S)]
pub struct ExEntry<S>(Entry<S>);

#[verifier::external_type_specification]
#[verifier::external_body]
#[verifier::reject_recursive_types(S)]
pub struct ExIdentifier<S>(Identifier<S>);

#[verifier::external_type_specification]
#[verifier::external_body]
#[verifier::reject_recursive_types(S)]
pub struct ExComment<S>(Comment<S>);

#[verifier::external_type_specification]
#[verifier::external_body]
#[verifier::reject_recursive_types(S)]
pub struct ExPattern<S>(Pattern<S>);

#[verifier::external_type_specification]
#[verifier::external_body]
#[verifier::reject_recursive_types(S)]
pub struct ExExpression<S>(Expression<S>);

#[verifier::external_type_specification]
#[verifier::external_body]
#[verifier::reject_recursive_types(S)]
pub struct ExInlineExpression<S>(InlineExpression<S>);

#[verifier::external_type_specification]
#[verifier::external_body]
#[verifier::reject_recursive_types(S)]
pub struct ExVariantKey<S>(VariantKey<S>);

/// An element of a pattern: text, or an expression in braces.
#[derive(Debug)]
pub enum Element {
    Text(String),
    Placeable(Expr),
}

/// An expression in braces.
#[derive(Debug)]
pub enum Expr {
    /// A select expression: its selector, and its variants in order.
    Select { selector: InlineExpression<String>, variants: Vec<FtlVariant> },
    /// A string literal.
    Literal(String),
    /// Braces inside braces.
    Nested(Box<Expr>),
    /// Any other inline expression: a variable, a reference, a call.
    Kept(InlineExpression<String>),
}

/// A variant of a select expression.
#[derive(Debug)]
pub struct FtlVariant {
    pub key: VariantKey<String>,
    pub value: Vec<Element>,
    pub default: bool,
}

/// An attribute of a message or term.
#[derive(Debug)]
pub struct FtlAttribute {
    pub id: Identifier<String>,
    pub value: Vec<Element>,
}

/// An entry of a `.ftl` file.
#[derive(Debug)]
pub enum FtlEntry {
    Message { id: Identifier<String>, value: Option<Vec<Element>>, attributes: Vec<FtlAttribute>, comment: Option<Comment<String>> },
    Term { id: Identifier<String>, value: Vec<Element>, attributes: Vec<FtlAttribute>, comment: Option<Comment<String>> },
    /// A comment, or what didn't parse: written back as it was.
    Other(Entry<String>),
}

pub enum ElementView {
    Text(Seq<char>),
    Placeable(ExprView),
}

pub enum ExprView {
    Select { selector: InlineExpression<String>, variants: Seq<VariantView> },
    Literal(Seq<char>),
    Nested(Box<ExprView>),
    Kept(InlineExpression<String>),
}

pub struct VariantView {
    pub key: VariantKey<String>,
    pub value: Seq<ElementView>,
    pub default: bool,
}

pub enum FtlEntryView {
    Message {
        id: Identifier<String>,
        value: Option<Seq<ElementView>>,
        attributes: Seq<(Identifier<String>, Seq<ElementView>)>,
        comment: Option<Comment<String>>,
    },
    Term {
        id: Identifier<String>,
        value: Seq<ElementView>,
        attributes: Seq<(Identifier<String>, Seq<ElementView>)>,
        comment: Option<Comment<String>>,
    },
    Other(Entry<String>),
}

pub open spec fn element_view(e: Element) -> ElementView
    decreases e,
{
    match e {
        Element::Text(t) => ElementView::Text(t@),
        Element::Placeable(x) => ElementView::Placeable(expr_view(x)),
    }
}

pub open spec fn expr_view(x: Expr) -> ExprView
    decreases x,
{
    match x {
        Expr::Select { selector, variants } => {
            proof { broadcast use vstd::std_specs::vec::axiom_vec_decreases_to_view; }
            ExprView::Select { selector, variants: variants_view(variants@) }
        },
        Expr::Literal(s) => ExprView::Literal(s@),
        Expr::Nested(inner) => ExprView::Nested(Box::new(expr_view(*inner))),
        Expr::Kept(k) => ExprView::Kept(k),
    }
}

pub open spec fn variants_view(vs: Seq<FtlVariant>) -> Seq<VariantView>
    decreases vs,
{
    if vs.len() == 0 {
        Seq::empty()
    } else {
        proof {
            broadcast use vstd::std_specs::vec::axiom_vec_decreases_to_view;
            assert(decreases_to!(vs => vs[0]));
            assert(decreases_to!(vs => vs.drop_first()));
        }
        seq![VariantView { key: vs[0].key, value: pattern_view(vs[0].value@), default: vs[0].default }]
            + variants_view(vs.drop_first())
    }
}

pub open spec fn pattern_view(ps: Seq<Element>) -> Seq<ElementView>
    decreases ps,
{
    if ps.len() == 0 {
        Seq::empty()
    } else {
        proof {
            assert(decreases_to!(ps => ps[0]));
            assert(decreases_to!(ps => ps.drop_first()));
        }
        seq![element_view(ps[0])] + pattern_view(ps.drop_first())
    }
}

pub open spec fn attributes_view(attributes: Seq<FtlAttribute>) -> Seq<(Identifier<String>, Seq<ElementView>)> {
    attributes.map_values(|a: FtlAttribute| (a.id, pattern_view(a.value@)))
}

impl View for FtlEntry {
    type V = FtlEntryView;

    open spec fn view(&self) -> FtlEntryView {
        match *self {
            FtlEntry::Message { id, value, attributes, comment } => FtlEntryView::Message {
                id,
                value: match value { Some(v) => Some(pattern_view(v@)), None => None },
                attributes: attributes_view(attributes@),
                comment,
            },
            FtlEntry::Term { id, value, attributes, comment } => FtlEntryView::Term {
                id,
                value: pattern_view(value@),
                attributes: attributes_view(attributes@),
                comment,
            },
            FtlEntry::Other(entry) => FtlEntryView::Other(entry),
        }
    }
}

pub open spec fn entries_view(entries: Seq<FtlEntry>) -> Seq<FtlEntryView> {
    entries.map_values(|e: FtlEntry| e@)
}

/// An element with its text accented; braces keep what they hold but for
/// the variants of a select, accented in turn.
pub open spec fn accented_element(e: ElementView) -> ElementView
    decreases e,
{
    match e {
        ElementView::Text(t) => ElementView::Text(accented_text(t)),
        ElementView::Placeable(x) => ElementView::Placeable(accented_expr(x)),
    }
}

pub open spec fn accented_expr(x: ExprView) -> ExprView
    decreases x,
{
    match x {
        ExprView::Select { selector, variants } => ExprView::Select { selector, variants: accented_variants(variants) },
        ExprView::Nested(inner) => ExprView::Nested(Box::new(accented_expr(*inner))),
        other => other,
    }
}

pub open spec fn accented_variants(vs: Seq<VariantView>) -> Seq<VariantView>
    decreases vs,
{
    if vs.len() == 0 {
        Seq::empty()
    } else {
        proof {
            assert(decreases_to!(vs => vs[0]));
            assert(decreases_to!(vs => vs.drop_first()));
        }
        seq![VariantView { key: vs[0].key, value: accented_pattern(vs[0].value), default: vs[0].default }]
            + accented_variants(vs.drop_first())
    }
}

/// A pattern with its texts accented.
pub open spec fn accented_pattern(ps: Seq<ElementView>) -> Seq<ElementView>
    decreases ps,
{
    if ps.len() == 0 {
        Seq::empty()
    } else {
        proof {
            assert(decreases_to!(ps => ps[0]));
            assert(decreases_to!(ps => ps.drop_first()));
        }
        seq![accented_element(ps[0])] + accented_pattern(ps.drop_first())
    }
}

/// A message's pattern for the pseudo-locale: accented and in brackets,
/// written as string literals, as a `[` starting a line of a multiline
/// pattern would read as a variant key.
pub open spec fn bracketed(ps: Seq<ElementView>) -> Seq<ElementView> {
    seq![ElementView::Placeable(ExprView::Literal("["@))] + accented_pattern(ps)
        + seq![ElementView::Placeable(ExprView::Literal("]"@))]
}

/// Each entry for the pseudo-locale: a message's value and attributes
/// accented and in brackets, a term's accented only, the rest as it was.
pub open spec fn pseudo_entry(entry: FtlEntryView) -> FtlEntryView {
    match entry {
        FtlEntryView::Message { id, value, attributes, comment } => FtlEntryView::Message {
            id,
            value: match value { Some(v) => Some(bracketed(v)), None => None },
            attributes: attributes.map_values(|a: (Identifier<String>, Seq<ElementView>)| (a.0, bracketed(a.1))),
            comment,
        },
        FtlEntryView::Term { id, value, attributes, comment } => FtlEntryView::Term {
            id,
            value: accented_pattern(value),
            attributes: attributes.map_values(|a: (Identifier<String>, Seq<ElementView>)| (a.0, accented_pattern(a.1))),
            comment,
        },
        other => other,
    }
}

pub open spec fn pseudo_entries(entries: Seq<FtlEntryView>) -> Seq<FtlEntryView> {
    entries.map_values(|e: FtlEntryView| pseudo_entry(e))
}

proof fn lemma_pattern_push(s: Seq<Element>, e: Element)
    ensures
        pattern_view(s.push(e)) == pattern_view(s).push(element_view(e)),
    decreases s.len(),
{
    if s.len() == 0 {
        assert(s.push(e).drop_first() =~= Seq::<Element>::empty());
        assert(pattern_view(s.push(e).drop_first()).len() == 0);
        assert(pattern_view(s.push(e)) =~= seq![element_view(e)]);
    } else {
        assert(s.push(e).drop_first() =~= s.drop_first().push(e));
        lemma_pattern_push(s.drop_first(), e);
        assert(s.push(e)[0] == s[0]);
        assert(pattern_view(s.push(e)) =~= pattern_view(s).push(element_view(e)));
    }
}

proof fn lemma_pattern_append(a: Seq<Element>, b: Seq<Element>)
    ensures
        pattern_view(a + b) == pattern_view(a) + pattern_view(b),
    decreases a.len(),
{
    if a.len() == 0 {
        assert(a + b =~= b);
        assert(pattern_view(a) + pattern_view(b) =~= pattern_view(b));
    } else {
        assert((a + b).drop_first() =~= a.drop_first() + b);
        assert((a + b)[0] == a[0]);
        lemma_pattern_append(a.drop_first(), b);
        assert(pattern_view(a + b) =~= pattern_view(a) + pattern_view(b));
    }
}

proof fn lemma_variants_push(s: Seq<FtlVariant>, v: FtlVariant)
    ensures
        variants_view(s.push(v)) == variants_view(s).push(VariantView { key: v.key, value: pattern_view(v.value@), default: v.default }),
    decreases s.len(),
{
    if s.len() == 0 {
        assert(s.push(v).drop_first() =~= Seq::<FtlVariant>::empty());
        assert(variants_view(s.push(v).drop_first()).len() == 0);
        assert(s.push(v)[0] == v);
    } else {
        assert(s.push(v).drop_first() =~= s.drop_first().push(v));
        lemma_variants_push(s.drop_first(), v);
        assert(s.push(v)[0] == s[0]);
    }
    assert(variants_view(s.push(v)) =~= variants_view(s).push(VariantView { key: v.key, value: pattern_view(v.value@), default: v.default }));
}

fn accent_element(e: Element) -> (r: Element)
    ensures
        element_view(r) == accented_element(element_view(e)),
    decreases e,
{
    match e {
        Element::Text(t) => Element::Text(accent(t.as_str())),
        Element::Placeable(x) => Element::Placeable(accent_expr(x)),
    }
}

fn accent_expr(x: Expr) -> (r: Expr)
    ensures
        expr_view(r) == accented_expr(expr_view(x)),
    decreases x,
{
    match x {
        Expr::Select { selector, variants } => {
            proof { broadcast use vstd::std_specs::vec::axiom_vec_decreases_to_view; }
            Expr::Select { selector, variants: accent_variants(variants) }
        },
        Expr::Nested(inner) => Expr::Nested(Box::new(accent_expr(*inner))),
        other => other,
    }
}

fn accent_variants(vs: Vec<FtlVariant>) -> (r: Vec<FtlVariant>)
    ensures
        variants_view(r@) == accented_variants(variants_view(vs@)),
    decreases vs,
{
    proof { broadcast use vstd::std_specs::vec::axiom_vec_decreases_to_view; }
    let ghost orig = vs@;
    let ghost whole = vs;
    proof { assert(decreases_to!(vs => vs@)); }
    let mut rest = vs;
    let mut out: Vec<FtlVariant> = Vec::new();
    let mut i: usize = 0;
    let n = rest.len();
    assert(n == orig.len());
    assert(orig.subrange(0, orig.len() as int) =~= orig);
    while rest.len() > 0
        invariant
            i <= orig.len() <= usize::MAX,
            rest@ == orig.subrange(i as int, orig.len() as int),
            variants_view(out@) + accented_variants(variants_view(rest@)) == accented_variants(variants_view(orig)),
            whole@ == orig,
            whole == vs,
        decreases rest@.len(),
    {
        let ghost before = rest@;
        let v = rest.remove(0);
        assert(v == orig[i as int]);
        proof {
            assert(i < orig.len());
            assert(whole@ == orig);
            assert(decreases_to!(whole => whole@));
            assert(decreases_to!(orig => orig[i as int]));
            assert(decreases_to!(v => v.value));
            assert(decreases_to!(whole => v.value));
        }
        let value = accent_pattern(v.value);
        let nv = FtlVariant { key: v.key, value, default: v.default };
        let ghost done = out@;
        out.push(nv);
        proof {
            assert(rest@ =~= before.drop_first());
            assert(rest@ =~= orig.subrange(i + 1, orig.len() as int));
            lemma_variants_push(done, nv);
            let vv = VariantView { key: v.key, value: pattern_view(v.value@), default: v.default };
            assert(variants_view(before) =~= seq![vv] + variants_view(rest@));
            let acc = seq![vv] + variants_view(rest@);
            assert(acc[0] == vv);
            assert(acc.drop_first() =~= variants_view(rest@));
            assert(accented_variants(acc) =~= seq![VariantView { key: vv.key, value: accented_pattern(vv.value), default: vv.default }]
                + accented_variants(variants_view(rest@)));
            assert(variants_view(out@) + accented_variants(variants_view(rest@))
                =~= variants_view(done) + accented_variants(variants_view(before)));
        }
        i = i + 1;
    }
    assert(variants_view(rest@).len() == 0);
    assert(accented_variants(variants_view(rest@)).len() == 0);
    assert(variants_view(out@) =~= variants_view(out@) + accented_variants(variants_view(rest@)));
    out
}

/// `pattern` with its texts accented, and each select expression's
/// variants; the rest as it was.
pub fn accent_pattern(pattern: Vec<Element>) -> (r: Vec<Element>)
    ensures
        pattern_view(r@) == accented_pattern(pattern_view(pattern@)),
    decreases pattern,
{
    proof { broadcast use vstd::std_specs::vec::axiom_vec_decreases_to_view; }
    let ghost orig = pattern@;
    let ghost whole = pattern;
    proof { assert(decreases_to!(pattern => pattern@)); }
    let mut rest = pattern;
    let mut out: Vec<Element> = Vec::new();
    let mut i: usize = 0;
    let n = rest.len();
    assert(n == orig.len());
    assert(orig.subrange(0, orig.len() as int) =~= orig);
    while rest.len() > 0
        invariant
            i <= orig.len() <= usize::MAX,
            rest@ == orig.subrange(i as int, orig.len() as int),
            pattern_view(out@) + accented_pattern(pattern_view(rest@)) == accented_pattern(pattern_view(orig)),
            whole@ == orig,
            whole == pattern,
        decreases rest@.len(),
    {
        let ghost before = rest@;
        let e = rest.remove(0);
        assert(e == orig[i as int]);
        proof {
            assert(i < orig.len());
            assert(whole@ == orig);
            assert(decreases_to!(whole => whole@));
            assert(decreases_to!(orig => orig[i as int]));
            assert(decreases_to!(whole => e));
        }
        let a = accent_element(e);
        let ghost done = out@;
        out.push(a);
        proof {
            assert(rest@ =~= before.drop_first());
            assert(rest@ =~= orig.subrange(i + 1, orig.len() as int));
            lemma_pattern_push(done, a);
            assert(pattern_view(before) =~= seq![element_view(e)] + pattern_view(rest@));
            let acc = seq![element_view(e)] + pattern_view(rest@);
            assert(acc[0] == element_view(e));
            assert(acc.drop_first() =~= pattern_view(rest@));
            assert(accented_pattern(acc) =~= seq![accented_element(element_view(e))] + accented_pattern(pattern_view(rest@)));
            assert(pattern_view(out@) + accented_pattern(pattern_view(rest@))
                =~= pattern_view(done) + accented_pattern(pattern_view(before)));
        }
        i = i + 1;
    }
    assert(pattern_view(rest@).len() == 0);
    assert(accented_pattern(pattern_view(rest@)).len() == 0);
    assert(pattern_view(out@) =~= pattern_view(out@) + accented_pattern(pattern_view(rest@)));
    out
}

/// A message's pattern for the pseudo-locale: accented, and in brackets.
pub fn bracket(pattern: Vec<Element>) -> (r: Vec<Element>)
    ensures
        pattern_view(r@) == bracketed(pattern_view(pattern@)),
{
    let mut inner = accent_pattern(pattern);
    let ghost accented = inner@;
    let open = Element::Placeable(Expr::Literal(owned("[")));
    let close = Element::Placeable(Expr::Literal(owned("]")));
    assert(element_view(open) == ElementView::Placeable(ExprView::Literal("["@)));
    assert(element_view(close) == ElementView::Placeable(ExprView::Literal("]"@)));
    let mut out: Vec<Element> = Vec::new();
    out.push(open);
    let ghost first = out@;
    out.append(&mut inner);
    let ghost middle = out@;
    out.push(close);
    proof {
        assert(middle =~= first + accented);
        lemma_pattern_append(first, accented);
        assert(first.drop_first() =~= Seq::<Element>::empty());
        assert(pattern_view(first.drop_first()).len() == 0);
        assert(pattern_view(first) =~= seq![ElementView::Placeable(ExprView::Literal("["@))]);
        assert(out@ =~= middle.push(close));
        lemma_pattern_push(middle, close);
        assert(pattern_view(out@) =~= bracketed(pattern_view(pattern@)));
    }
    out
}

/// The attributes, each through `bracket` (`brackets`) or accented only.
fn pseudo_attributes(attributes: Vec<FtlAttribute>, brackets: bool) -> (r: Vec<FtlAttribute>)
    ensures
        attributes_view(r@) == attributes_view(attributes@).map_values(|a: (Identifier<String>, Seq<ElementView>)|
            (a.0, if brackets { bracketed(a.1) } else { accented_pattern(a.1) })),
{
    let ghost orig = attributes@;
    let mut rest = attributes;
    let mut out: Vec<FtlAttribute> = Vec::new();
    let mut i: usize = 0;
    let n = rest.len();
    assert(n == orig.len());
    assert(orig.subrange(0, orig.len() as int) =~= orig);
    while rest.len() > 0
        invariant
            i <= orig.len() <= usize::MAX,
            rest@ == orig.subrange(i as int, orig.len() as int),
            out@.len() == i,
            forall|k: int| 0 <= k < i ==> (#[trigger] out@[k]).id == orig[k].id
                && pattern_view(out@[k].value@) == (if brackets { bracketed(pattern_view(orig[k].value@)) } else { accented_pattern(pattern_view(orig[k].value@)) }),
        decreases rest@.len(),
    {
        let ghost before = rest@;
        let a = rest.remove(0);
        assert(a == orig[i as int]);
        let value = if brackets { bracket(a.value) } else { accent_pattern(a.value) };
        out.push(FtlAttribute { id: a.id, value });
        assert(rest@ =~= orig.subrange(i + 1, orig.len() as int));
        i = i + 1;
    }
    assert(attributes_view(out@) =~= attributes_view(orig).map_values(|a: (Identifier<String>, Seq<ElementView>)|
        (a.0, if brackets { bracketed(a.1) } else { accented_pattern(a.1) })));
    out
}

/// One entry for the pseudo-locale.
pub fn pseudo_entry_of(entry: FtlEntry) -> (r: FtlEntry)
    ensures
        r@ == pseudo_entry(entry@),
{
    match entry {
        FtlEntry::Message { id, value, attributes, comment } => {
            let ghost attrs = attributes@;
            let value = match value { Some(v) => Some(bracket(v)), None => None };
            let attributes = pseudo_attributes(attributes, true);
            proof {
                assert(attributes_view(attributes@) =~= attributes_view(attrs).map_values(
                    |a: (Identifier<String>, Seq<ElementView>)| (a.0, bracketed(a.1))));
            }
            FtlEntry::Message { id, value, attributes, comment }
        },
        FtlEntry::Term { id, value, attributes, comment } => {
            let ghost attrs = attributes@;
            let value = accent_pattern(value);
            let attributes = pseudo_attributes(attributes, false);
            proof {
                assert(attributes_view(attributes@) =~= attributes_view(attrs).map_values(
                    |a: (Identifier<String>, Seq<ElementView>)| (a.0, accented_pattern(a.1))));
            }
            FtlEntry::Term { id, value, attributes, comment }
        },
        FtlEntry::Other(entry) => FtlEntry::Other(entry),
    }
}

/// The entries of the en-US file, for the pseudo-locale: each message's
/// value and attributes accented and in brackets, each term's accented
/// only, the rest as it was.
pub fn pseudolocalize_entries(entries: Vec<FtlEntry>) -> (r: Vec<FtlEntry>)
    ensures
        entries_view(r@) == pseudo_entries(entries_view(entries@)),
{
    let ghost orig = entries@;
    let mut rest = entries;
    let mut out: Vec<FtlEntry> = Vec::new();
    let mut i: usize = 0;
    let n = rest.len();
    assert(n == orig.len());
    assert(orig.subrange(0, orig.len() as int) =~= orig);
    while rest.len() > 0
        invariant
            i <= orig.len() <= usize::MAX,
            rest@ == orig.subrange(i as int, orig.len() as int),
            out@.len() == i,
            forall|k: int| 0 <= k < i ==> (#[trigger] out@[k])@ == pseudo_entry(orig[k]@),
        decreases rest@.len(),
    {
        let e = rest.remove(0);
        assert(e == orig[i as int]);
        out.push(pseudo_entry_of(e));
        assert(rest@ =~= orig.subrange(i + 1, orig.len() as int));
        i = i + 1;
    }
    assert(entries_view(out@) =~= pseudo_entries(entries_view(orig)));
    out
}

/// A name for the entries `fluent_syntax` reads in the `.ftl` file
/// `source` (keeping what parses when some of it doesn't).
pub uninterp spec fn ftl_entries(source: Seq<char>) -> Seq<FtlEntryView>;

/// A name for the `.ftl` file `fluent_syntax` writes for `entries`.
pub uninterp spec fn ftl_text(entries: Seq<FtlEntryView>) -> Seq<char>;

/// The entries of the `.ftl` file `source`.
///
/// Trusted: parses with `fluent_syntax::parser::parse` (on errors, what
/// parsed) and takes each entry over as it stands in the syntax tree, node
/// for node; the entries are a function of `source` alone.
#[verifier::external_body]
pub fn parse_ftl(source: &str) -> (r: Vec<FtlEntry>)
    ensures
        entries_view(r@) == ftl_entries(source@),
{
    let resource = fluent_syntax::parser::parse(source.to_owned()).unwrap_or_else(|(resource, _errors)| resource);
    resource.body.into_iter().map(from_entry).collect()
}

/// The `.ftl` file holding `entries`.
///
/// Trusted: hands the entries back to `fluent_syntax`'s syntax tree, node
/// for node, and writes it with `fluent_syntax::serializer::serialize`;
/// the text is a function of `entries` alone.
#[verifier::external_body]
pub fn write_ftl(entries: Vec<FtlEntry>) -> (r: String)
    ensures
        r@ == ftl_text(entries_view(entries@)),
{
    let resource = Resource { body: entries.into_iter().map(to_entry).collect() };
    fluent_syntax::serializer::serialize(&resource)
}

/// Part of [`parse_ftl`]: an entry of the syntax tree, node for node.
#[verifier::external_body]
fn from_entry(entry: Entry<String>) -> FtlEntry {
    let attribute = |a: Attribute<String>| FtlAttribute { id: a.id, value: from_pattern(a.value) };
    match entry {
        Entry::Message(m) => FtlEntry::Message {
            id: m.id, value: m.value.map(from_pattern), attributes: m.attributes.into_iter().map(attribute).collect(), comment: m.comment,
        },
        Entry::Term(t) => FtlEntry::Term {
            id: t.id, value: from_pattern(t.value), attributes: t.attributes.into_iter().map(attribute).collect(), comment: t.comment,
        },
        other => FtlEntry::Other(other),
    }
}

/// Part of [`parse_ftl`]: a pattern of the syntax tree, node for node.
#[verifier::external_body]
fn from_pattern(pattern: Pattern<String>) -> Vec<Element> {
    pattern.elements.into_iter().map(|element| match element {
        PatternElement::TextElement { value } => Element::Text(value),
        PatternElement::Placeable { expression } => Element::Placeable(from_expression(expression)),
    }).collect()
}

/// Part of [`parse_ftl`]: an expression of the syntax tree, node for node.
#[verifier::external_body]
fn from_expression(expression: Expression<String>) -> Expr {
    match expression {
        Expression::Select { selector, variants } => Expr::Select {
            selector,
            variants: variants.into_iter()
                .map(|v| FtlVariant { key: v.key, value: from_pattern(v.value), default: v.default }).collect(),
        },
        Expression::Inline(InlineExpression::StringLiteral { value }) => Expr::Literal(value),
        Expression::Inline(InlineExpression::Placeable { expression }) => Expr::Nested(Box::new(from_expression(*expression))),
        Expression::Inline(other) => Expr::Kept(other),
    }
}

/// Part of [`write_ftl`]: an entry back in the syntax tree, node for node.
#[verifier::external_body]
fn to_entry(entry: FtlEntry) -> Entry<String> {
    let attribute = |a: FtlAttribute| Attribute { id: a.id, value: to_pattern(a.value) };
    match entry {
        FtlEntry::Message { id, value, attributes, comment } => Entry::Message(Message {
            id, value: value.map(to_pattern), attributes: attributes.into_iter().map(attribute).collect(), comment,
        }),
        FtlEntry::Term { id, value, attributes, comment } => Entry::Term(Term {
            id, value: to_pattern(value), attributes: attributes.into_iter().map(attribute).collect(), comment,
        }),
        FtlEntry::Other(entry) => entry,
    }
}

/// Part of [`write_ftl`]: a pattern back in the syntax tree, node for node.
#[verifier::external_body]
fn to_pattern(elements: Vec<Element>) -> Pattern<String> {
    Pattern {
        elements: elements.into_iter().map(|element| match element {
            Element::Text(value) => PatternElement::TextElement { value },
            Element::Placeable(x) => PatternElement::Placeable { expression: to_expression(x) },
        }).collect(),
    }
}

/// Part of [`write_ftl`]: an expression back in the syntax tree, node for
/// node.
#[verifier::external_body]
fn to_expression(x: Expr) -> Expression<String> {
    match x {
        Expr::Select { selector, variants } => Expression::Select {
            selector,
            variants: variants.into_iter()
                .map(|v| Variant { key: v.key, value: to_pattern(v.value), default: v.default }).collect(),
        },
        Expr::Literal(value) => Expression::Inline(InlineExpression::StringLiteral { value }),
        Expr::Nested(inner) => Expression::Inline(InlineExpression::Placeable { expression: Box::new(to_expression(*inner)) }),
        Expr::Kept(inline) => Expression::Inline(inline),
    }
}

/// `source`, a whole `.ftl` file, pseudo-localized: each message's and
/// attribute's text accented, lengthened and in brackets, each term's
/// accented only; the rest of the file as it was.
pub fn pseudolocalize(source: &str) -> (r: String)
    ensures
        r@ == ftl_text(pseudo_entries(ftl_entries(source@))),
{
    let entries = parse_ftl(source);
    write_ftl(pseudolocalize_entries(entries))
}

} // verus!
