//! The element locator: searches a document snapshot (main context first,
//! then each frame in document order) for the first element satisfying a
//! predicate, with an optional visibility filter.  Produces no match — not
//! an error — when nothing satisfies the predicate anywhere.

use vstd::prelude::*;

use crate::dom::{
    check_query, check_simple, is_visible, query_matches, simple_matches, visible, Element,
    ElementPredicate, Query,
};
use crate::text::text_contains;

verus! {

/// A snapshot of the elements of one browsing context (the main document or
/// one iframe).
pub struct Context {
    pub elements: Vec<Element>,
}

/// A snapshot of the searchable document: the main context and its iframe
/// contexts in document order.
pub struct Document {
    pub main: Context,
    pub frames: Vec<Context>,
}

/// Whether a search may leave the main context and enumerate the frames.
#[derive(Clone, Copy, PartialEq, Eq, Structural, Debug)]
pub enum FrameSearch {
    CurrentOnly,
    AllFrames,
}

/// Which context a located element lives in.
#[derive(Clone, Copy, PartialEq, Eq, Structural, Debug)]
pub enum ContextRef {
    MainDocument,
    Frame(usize),
}

/// A located element: its context and its position among that context's
/// elements.
#[derive(Clone, Copy, PartialEq, Eq, Structural, Debug)]
pub struct ElementHandle {
    pub place: ContextRef,
    pub index: usize,
}

/// Element `i` of the context satisfies the leaf query (and the visibility
/// filter, when it is on).
pub open spec fn q_hit(elems: Seq<Element>, q: Query, vis: bool, i: int) -> bool {
    0 <= i < elems.len() && query_matches(elems[i], q) && (vis ==> visible(elems[i]))
}

/// Some element of the context satisfies the leaf query.
pub open spec fn q_some(elems: Seq<Element>, q: Query, vis: bool) -> bool {
    exists|i: int| q_hit(elems, q, vis, i)
}

/// Element `i` of the context satisfies a simple (non-combinator) predicate.
pub open spec fn simple_hit(elems: Seq<Element>, p: ElementPredicate, vis: bool, i: int) -> bool {
    0 <= i < elems.len() && simple_matches(elems[i], p) && (vis ==> visible(elems[i]))
}

/// The predicate is satisfied somewhere in the context.
pub open spec fn context_has(elems: Seq<Element>, p: ElementPredicate, vis: bool) -> bool {
    match p {
        ElementPredicate::FirstOf(qs) => exists|k: int|
            0 <= k < qs@.len() && q_some(elems, #[trigger] qs@[k], vis),
        _ => exists|i: int| simple_hit(elems, p, vis, i),
    }
}

/// `pick` is the position the locator must choose in this context: the first
/// element satisfying a simple predicate, or — for the query-list combinator —
/// the first element satisfying the first query that matches anything.
pub open spec fn context_pick(
    elems: Seq<Element>,
    p: ElementPredicate,
    vis: bool,
    pick: Option<int>,
) -> bool {
    match pick {
        None => !context_has(elems, p, vis),
        Some(i) => match p {
            ElementPredicate::FirstOf(qs) => exists|k: int|
                {
                    &&& 0 <= k < qs@.len()
                    &&& q_hit(elems, #[trigger] qs@[k], vis, i)
                    &&& forall|j: int| 0 <= j < i ==> !q_hit(elems, qs@[k], vis, j)
                    &&& forall|l: int| 0 <= l < k ==> !q_some(elems, qs@[l], vis)
                },
            _ => simple_hit(elems, p, vis, i) && forall|j: int|
                0 <= j < i ==> !simple_hit(elems, p, vis, j),
        },
    }
}

/// Spec-level image of an optional index.
pub open spec fn opt_as_int(r: Option<usize>) -> Option<int> {
    match r {
        Some(i) => Some(i as int),
        None => None,
    }
}

/// The locator's full contract: what `locate` returns for a given document,
/// predicate, frame policy and visibility filter.
pub open spec fn locate_post(
    doc: Document,
    p: ElementPredicate,
    fs: FrameSearch,
    vis: bool,
    r: Option<ElementHandle>,
) -> bool {
    match r {
        None => !context_has(doc.main.elements@, p, vis) && (fs is AllFrames ==> forall|f: int|
            0 <= f < doc.frames@.len() ==> !context_has(
                #[trigger] doc.frames@[f].elements@,
                p,
                vis,
            )),
        Some(h) => match h.place {
            ContextRef::MainDocument => context_pick(
                doc.main.elements@,
                p,
                vis,
                Some(h.index as int),
            ),
            ContextRef::Frame(f) => {
                &&& fs is AllFrames
                &&& f < doc.frames@.len()
                &&& !context_has(doc.main.elements@, p, vis)
                &&& forall|g: int|
                    0 <= g < f ==> !context_has(#[trigger] doc.frames@[g].elements@, p, vis)
                &&& context_pick(doc.frames@[f as int].elements@, p, vis, Some(h.index as int))
            },
        },
    }
}

/// First element of the context satisfying one leaf query.
fn find_first_query(elems: &Vec<Element>, q: &Query, vis: bool) -> (r: Option<usize>)
    ensures
        r matches Some(i) ==> q_hit(elems@, *q, vis, i as int) && (forall|j: int|
            0 <= j < i ==> !q_hit(elems@, *q, vis, j)),
        r is None ==> !q_some(elems@, *q, vis),
{
    let mut i: usize = 0;
    while i < elems.len()
        invariant
            i <= elems@.len(),
            forall|j: int| 0 <= j < i ==> !q_hit(elems@, *q, vis, j),
        decreases elems@.len() - i,
    {
        let e = &elems[i];
        if check_query(e, q) && (!vis || is_visible(e)) {
            return Some(i);
        }
        i += 1;
    }
    None
}

/// First element of the context satisfying a simple predicate.
fn find_first_simple(elems: &Vec<Element>, p: &ElementPredicate, vis: bool) -> (r: Option<usize>)
    ensures
        r matches Some(i) ==> simple_hit(elems@, *p, vis, i as int) && (forall|j: int|
            0 <= j < i ==> !simple_hit(elems@, *p, vis, j)),
        r is None ==> forall|i: int| !simple_hit(elems@, *p, vis, i),
{
    let mut i: usize = 0;
    while i < elems.len()
        invariant
            i <= elems@.len(),
            forall|j: int| 0 <= j < i ==> !simple_hit(elems@, *p, vis, j),
        decreases elems@.len() - i,
    {
        let e = &elems[i];
        if check_simple(e, p) && (!vis || is_visible(e)) {
            return Some(i);
        }
        i += 1;
    }
    None
}

/// The position the locator chooses within one context, if any.
pub fn locate_in_context(elems: &Vec<Element>, p: &ElementPredicate, vis: bool) -> (r: Option<
    usize,
>)
    ensures
        context_pick(elems@, *p, vis, opt_as_int(r)),
{
    match p {
        ElementPredicate::FirstOf(qs) => {
            let mut k: usize = 0;
            while k < qs.len()
                invariant
                    k <= qs@.len(),
                    *p == ElementPredicate::FirstOf(*qs),
                    forall|l: int| 0 <= l < k ==> !q_some(elems@, #[trigger] qs@[l], vis),
                decreases qs@.len() - k,
            {
                match find_first_query(elems, &qs[k], vis) {
                    Some(i) => {
                        proof {
                            let kk = k as int;
                            assert(exists|kx: int|
                                {
                                    &&& 0 <= kx < qs@.len()
                                    &&& q_hit(elems@, #[trigger] qs@[kx], vis, i as int)
                                    &&& forall|j: int| 0 <= j < i ==> !q_hit(elems@, qs@[kx], vis, j)
                                    &&& forall|l: int| 0 <= l < kx ==> !q_some(elems@, qs@[l], vis)
                                }) by {
                                assert({
                                    &&& 0 <= kk < qs@.len()
                                    &&& q_hit(elems@, qs@[kk], vis, i as int)
                                    &&& forall|j: int|
                                        0 <= j < i ==> !q_hit(elems@, qs@[kk], vis, j)
                                    &&& forall|l: int| 0 <= l < kk ==> !q_some(elems@, qs@[l], vis)
                                });
                            }
                            assert((*p)->FirstOf_0 == *qs);
                        }
                        return Some(i);
                    },
                    None => {},
                }
                k += 1;
            }
            None
        },
        _ => find_first_simple(elems, p, vis),
    }
}

/// Search the main context first; if the predicate is not satisfied there and
/// `fs` allows it, search each frame context in document order.  Returns the
/// first match, or `None` — never an error — when nothing matches anywhere
/// searched.
pub fn locate(doc: &Document, p: &ElementPredicate, fs: FrameSearch, visible_only: bool) -> (r:
    Option<ElementHandle>)
    ensures
        locate_post(*doc, *p, fs, visible_only, r),
{
    match locate_in_context(&doc.main.elements, p, visible_only) {
        Some(i) => {
            return Some(ElementHandle { place: ContextRef::MainDocument, index: i });
        },
        None => {},
    }
    match fs {
        FrameSearch::CurrentOnly => None,
        FrameSearch::AllFrames => {
            let mut f: usize = 0;
            while f < doc.frames.len()
                invariant
                    f <= doc.frames@.len(),
                    fs is AllFrames,
                    !context_has(doc.main.elements@, *p, visible_only),
                    forall|g: int|
                        0 <= g < f ==> !context_has(
                            #[trigger] doc.frames@[g].elements@,
                            *p,
                            visible_only,
                        ),
                decreases doc.frames@.len() - f,
            {
                match locate_in_context(&doc.frames[f].elements, p, visible_only) {
                    Some(i) => {
                        return Some(ElementHandle { place: ContextRef::Frame(f), index: i });
                    },
                    None => {},
                }
                f += 1;
            }
            None
        },
    }
}

/// A chosen position always witnesses that the context has a match.
proof fn lemma_pick_implies_has(elems: Seq<Element>, p: ElementPredicate, vis: bool, i: int)
    requires
        context_pick(elems, p, vis, Some(i)),
    ensures
        context_has(elems, p, vis),
{
    match p {
        ElementPredicate::FirstOf(qs) => {
            let k = choose|k: int|
                {
                    &&& 0 <= k < qs@.len()
                    &&& q_hit(elems, #[trigger] qs@[k], vis, i)
                    &&& forall|j: int| 0 <= j < i ==> !q_hit(elems, qs@[k], vis, j)
                    &&& forall|l: int| 0 <= l < k ==> !q_some(elems, qs@[l], vis)
                };
            assert(q_some(elems, qs@[k], vis));
        },
        _ => {},
    }
}

/// Within one context the chosen position is unique.
proof fn lemma_pick_unique(elems: Seq<Element>, p: ElementPredicate, vis: bool, i1: int, i2: int)
    requires
        context_pick(elems, p, vis, Some(i1)),
        context_pick(elems, p, vis, Some(i2)),
    ensures
        i1 == i2,
{
    match p {
        ElementPredicate::FirstOf(qs) => {
            let k1 = choose|k: int|
                {
                    &&& 0 <= k < qs@.len()
                    &&& q_hit(elems, #[trigger] qs@[k], vis, i1)
                    &&& forall|j: int| 0 <= j < i1 ==> !q_hit(elems, qs@[k], vis, j)
                    &&& forall|l: int| 0 <= l < k ==> !q_some(elems, qs@[l], vis)
                };
            let k2 = choose|k: int|
                {
                    &&& 0 <= k < qs@.len()
                    &&& q_hit(elems, #[trigger] qs@[k], vis, i2)
                    &&& forall|j: int| 0 <= j < i2 ==> !q_hit(elems, qs@[k], vis, j)
                    &&& forall|l: int| 0 <= l < k ==> !q_some(elems, qs@[l], vis)
                };
            assert(q_some(elems, qs@[k1], vis));
            assert(q_some(elems, qs@[k2], vis));
            assert(k1 == k2);
        },
        _ => {},
    }
}

/// Law: the locator is deterministic.  Any two results that both satisfy the
/// locator's contract for the same document, predicate, frame policy and
/// visibility filter are the same result; so repeated calls against an
/// unchanged document retrieve the same element.
pub proof fn lemma_locate_deterministic(
    doc: Document,
    p: ElementPredicate,
    fs: FrameSearch,
    vis: bool,
    r1: Option<ElementHandle>,
    r2: Option<ElementHandle>,
)
    requires
        locate_post(doc, p, fs, vis, r1),
        locate_post(doc, p, fs, vis, r2),
    ensures
        r1 == r2,
{
    match (r1, r2) {
        (Some(h1), Some(h2)) => {
            match (h1.place, h2.place) {
                (ContextRef::MainDocument, ContextRef::MainDocument) => {
                    lemma_pick_unique(
                        doc.main.elements@,
                        p,
                        vis,
                        h1.index as int,
                        h2.index as int,
                    );
                },
                (ContextRef::MainDocument, ContextRef::Frame(f2)) => {
                    lemma_pick_implies_has(doc.main.elements@, p, vis, h1.index as int);
                },
                (ContextRef::Frame(f1), ContextRef::MainDocument) => {
                    lemma_pick_implies_has(doc.main.elements@, p, vis, h2.index as int);
                },
                (ContextRef::Frame(f1), ContextRef::Frame(f2)) => {
                    if f1 < f2 {
                        lemma_pick_implies_has(
                            doc.frames@[f1 as int].elements@,
                            p,
                            vis,
                            h1.index as int,
                        );
                    } else if f2 < f1 {
                        lemma_pick_implies_has(
                            doc.frames@[f2 as int].elements@,
                            p,
                            vis,
                            h2.index as int,
                        );
                    } else {
                        lemma_pick_unique(
                            doc.frames@[f1 as int].elements@,
                            p,
                            vis,
                            h1.index as int,
                            h2.index as int,
                        );
                    }
                },
            }
        },
        (Some(h1), None) => {
            match h1.place {
                ContextRef::MainDocument => {
                    lemma_pick_implies_has(doc.main.elements@, p, vis, h1.index as int);
                },
                ContextRef::Frame(f1) => {
                    lemma_pick_implies_has(
                        doc.frames@[f1 as int].elements@,
                        p,
                        vis,
                        h1.index as int,
                    );
                },
            }
        },
        (None, Some(h2)) => {
            match h2.place {
                ContextRef::MainDocument => {
                    lemma_pick_implies_has(doc.main.elements@, p, vis, h2.index as int);
                },
                ContextRef::Frame(f2) => {
                    lemma_pick_implies_has(
                        doc.frames@[f2 as int].elements@,
                        p,
                        vis,
                        h2.index as int,
                    );
                },
            }
        },
        (None, None) => {},
    }
}

/// The in-meeting success check the session pipeline uses: some element of
/// the current (main) context has text containing "Leave".
pub open spec fn spec_in_meeting(doc: Document) -> bool {
    exists|i: int|
        0 <= i < doc.main.elements@.len() && text_contains(
            #[trigger] doc.main.elements@[i].text@,
            "Leave"@,
        )
}

/// Confirm the join actually took hold: look for a control whose text
/// contains "Leave" in the current context.
pub fn in_meeting(doc: &Document) -> (r: bool)
    ensures
        r == spec_in_meeting(*doc),
{
    let needle: String = String::from_str("Leave");
    let pred = ElementPredicate::ByTextContains(needle);
    let found = locate(doc, &pred, FrameSearch::CurrentOnly, false);
    proof {
        if spec_in_meeting(*doc) {
            let i = choose|i: int|
                0 <= i < doc.main.elements@.len() && text_contains(
                    #[trigger] doc.main.elements@[i].text@,
                    "Leave"@,
                );
            assert(simple_hit(doc.main.elements@, pred, false, i));
        }
    }
    match found {
        Some(_) => true,
        None => false,
    }
}

} // verus!
