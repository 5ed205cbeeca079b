//! The document model the locator searches: a snapshot of the interactive
//! elements of one browsing context, and the declarative predicates that
//! describe which element a step wants, independent of where it lives.

use vstd::prelude::*;

use crate::text::{contains_str, text_contains, text_eq};

verus! {

/// One attribute of an element, as reported by the live document.
pub struct Attribute {
    pub name: String,
    pub value: String,
}

/// A snapshot of one interactive element: its tag, its visible text, its
/// attributes, and the three visibility signals the document reports.
pub struct Element {
    pub tag: String,
    pub text: String,
    pub attributes: Vec<Attribute>,
    /// Computed CSS `display` value.
    pub css_display: String,
    /// Computed CSS `visibility` value.
    pub css_visibility: String,
    /// Whether the document reports a displayed bounding box.
    pub displayed: bool,
}

/// An XPath-like leaf query: an optional tag restriction combined with a
/// text-containment or attribute-equality condition.
#[derive(Clone)]
pub enum Query {
    /// Elements whose text contains `needle` (restricted to `tag` if given).
    TextContains { tag: Option<String>, needle: String },
    /// Elements carrying an attribute `name` whose value equals `value`
    /// (restricted to `tag` if given).
    AttrEquals { tag: Option<String>, name: String, value: String },
}

/// What to find, independent of where: a tagged predicate over elements, or
/// a combinator that tries a list of queries in order and keeps the first
/// one that matches anything.
#[derive(Clone)]
pub enum ElementPredicate {
    /// Elements with exactly this tag.
    ByTag(String),
    /// Elements whose text contains this needle.
    ByTextContains(String),
    /// Elements carrying an attribute with exactly this name and value.
    ByAttribute { name: String, value: String },
    /// The first query in the list that matches anything in the searched
    /// context wins; its first matching element is the result.
    FirstOf(Vec<Query>),
}

/// The element passes an optional tag restriction.
pub open spec fn tag_ok(e: Element, tag: Option<String>) -> bool {
    tag matches Some(t) ==> e.tag@ == t@
}

/// The element carries an attribute with this exact name and value.
pub open spec fn has_attr(e: Element, name: Seq<char>, value: Seq<char>) -> bool {
    exists|i: int|
        0 <= i < e.attributes@.len() && e.attributes@[i].name@ == name && e.attributes@[i].value@
            == value
}

/// The element satisfies one leaf query.
pub open spec fn query_matches(e: Element, q: Query) -> bool {
    match q {
        Query::TextContains { tag, needle } => tag_ok(e, tag) && text_contains(e.text@, needle@),
        Query::AttrEquals { tag, name, value } => tag_ok(e, tag) && has_attr(e, name@, value@),
    }
}

/// The element satisfies one of the three simple predicate forms.
/// `FirstOf` is resolved at the context level, not per element.
pub open spec fn simple_matches(e: Element, p: ElementPredicate) -> bool {
    match p {
        ElementPredicate::ByTag(t) => e.tag@ == t@,
        ElementPredicate::ByTextContains(n) => text_contains(e.text@, n@),
        ElementPredicate::ByAttribute { name, value } => has_attr(e, name@, value@),
        ElementPredicate::FirstOf(_) => false,
    }
}

/// The visibility filter used for steps with known ambiguous matches:
/// CSS `display` is not `none`, CSS `visibility` is not `hidden`, and the
/// document reports the element as displayed.
pub open spec fn visible(e: Element) -> bool {
    e.css_display@ != "none"@ && e.css_visibility@ != "hidden"@ && e.displayed
}

/// Runtime check of `visible`.
pub fn is_visible(e: &Element) -> (r: bool)
    ensures
        r == visible(*e),
{
    !text_eq(e.css_display.as_str(), "none") && !text_eq(e.css_visibility.as_str(), "hidden")
        && e.displayed
}

/// Runtime check of `tag_ok`.
fn check_tag(e: &Element, tag: &Option<String>) -> (r: bool)
    ensures
        r == tag_ok(*e, *tag),
{
    match tag {
        Some(t) => text_eq(e.tag.as_str(), t.as_str()),
        None => true,
    }
}

/// Runtime check of `has_attr`.
fn check_attr(e: &Element, name: &String, value: &String) -> (r: bool)
    ensures
        r == has_attr(*e, name@, value@),
{
    let mut i: usize = 0;
    while i < e.attributes.len()
        invariant
            i <= e.attributes@.len(),
            forall|j: int|
                0 <= j < i ==> !(e.attributes@[j].name@ == name@ && e.attributes@[j].value@
                    == value@),
        decreases e.attributes@.len() - i,
    {
        let a = &e.attributes[i];
        if text_eq(a.name.as_str(), name.as_str()) && text_eq(a.value.as_str(), value.as_str()) {
            return true;
        }
        i += 1;
    }
    false
}

/// Runtime check of `query_matches`.
pub fn check_query(e: &Element, q: &Query) -> (r: bool)
    ensures
        r == query_matches(*e, *q),
{
    match q {
        Query::TextContains { tag, needle } => check_tag(e, tag) && contains_str(
            e.text.as_str(),
            needle.as_str(),
        ),
        Query::AttrEquals { tag, name, value } => check_tag(e, tag) && check_attr(e, name, value),
    }
}

/// Runtime check of `simple_matches`.
pub fn check_simple(e: &Element, p: &ElementPredicate) -> (r: bool)
    ensures
        r == simple_matches(*e, *p),
{
    match p {
        ElementPredicate::ByTag(t) => text_eq(e.tag.as_str(), t.as_str()),
        ElementPredicate::ByTextContains(n) => contains_str(e.text.as_str(), n.as_str()),
        ElementPredicate::ByAttribute { name, value } => check_attr(e, name, value),
        ElementPredicate::FirstOf(_) => false,
    }
}

} // verus!
