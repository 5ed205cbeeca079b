//! Character-level text helpers shared by the locator, the signal decoder and
//! the pipeline: equality, substring containment and first-occurrence search,
//! all specified over `Seq<char>` views.

use vstd::prelude::*;
use vstd::string::StrSliceExecFns;

verus! {

/// `needle` occurs inside `hay` starting exactly at position `i`.
pub open spec fn contains_at(hay: Seq<char>, needle: Seq<char>, i: int) -> bool {
    0 <= i && i + needle.len() <= hay.len() && hay.subrange(i, i + needle.len()) == needle
}

/// `needle` occurs somewhere inside `hay`.
pub open spec fn text_contains(hay: Seq<char>, needle: Seq<char>) -> bool {
    exists|i: int| contains_at(hay, needle, i)
}

/// Character-for-character string equality.
pub fn text_eq(a: &str, b: &str) -> (r: bool)
    ensures
        r == (a@ == b@),
{
    let na = a.unicode_len();
    let nb = b.unicode_len();
    if na != nb {
        return false;
    }
    let mut i: usize = 0;
    while i < na
        invariant
            i <= na,
            na == a@.len(),
            na == b@.len(),
            forall|j: int| 0 <= j < i ==> a@[j] == b@[j],
        decreases na - i,
    {
        if a.get_char(i) != b.get_char(i) {
            return false;
        }
        i += 1;
    }
    proof {
        assert(a@ =~= b@);
    }
    true
}

/// Does `needle` occur in `hay` starting at position `i`?
pub fn match_at(hay: &str, needle: &str, i: usize) -> (r: bool)
    requires
        i + needle@.len() <= hay@.len(),
    ensures
        r == contains_at(hay@, needle@, i as int),
{
    let h = hay.unicode_len();
    let n = needle.unicode_len();
    let mut j: usize = 0;
    while j < n
        invariant
            j <= n,
            h == hay@.len(),
            n == needle@.len(),
            i + n <= h,
            forall|k: int| 0 <= k < j ==> hay@[i + k] == needle@[k],
        decreases n - j,
    {
        if hay.get_char(i + j) != needle.get_char(j) {
            proof {
                assert(hay@.subrange(i as int, i + needle@.len())[j as int] == hay@[i + j]);
            }
            return false;
        }
        j += 1;
    }
    proof {
        assert(hay@.subrange(i as int, i + needle@.len()) =~= needle@);
    }
    true
}

/// Position of the first occurrence of `needle` in `hay`, if any.
pub fn find_sub(hay: &str, needle: &str) -> (r: Option<usize>)
    ensures
        r matches Some(i) ==> contains_at(hay@, needle@, i as int) && (forall|j: int|
            0 <= j < i ==> !contains_at(hay@, needle@, j)),
        r is None ==> !text_contains(hay@, needle@),
{
    let h = hay.unicode_len();
    let n = needle.unicode_len();
    if n > h {
        return None;
    }
    if n == 0 {
        proof {
            assert(hay@.subrange(0, 0) =~= needle@);
        }
        return Some(0);
    }
    let mut i: usize = 0;
    while i <= h - n
        invariant
            h == hay@.len(),
            n == needle@.len(),
            1 <= n <= h,
            i <= h - n + 1,
            forall|j: int| 0 <= j < i ==> !contains_at(hay@, needle@, j),
        decreases h - n - i + 1,
    {
        if match_at(hay, needle, i) {
            return Some(i);
        }
        i += 1;
    }
    None
}

/// Does `needle` occur anywhere in `hay`?
pub fn contains_str(hay: &str, needle: &str) -> (r: bool)
    ensures
        r == text_contains(hay@, needle@),
{
    match find_sub(hay, needle) {
        Some(_) => true,
        None => false,
    }
}

/// Position of the first occurrence of `target` in `hay` at or after `from`.
pub fn find_char_from(hay: &str, from: usize, target: char) -> (r: Option<usize>)
    requires
        from <= hay@.len(),
    ensures
        r matches Some(k) ==> from <= k < hay@.len() && hay@[k as int] == target && (forall|j: int|
            from <= j < k ==> hay@[j] != target),
        r is None ==> forall|j: int| from <= j < hay@.len() ==> hay@[j] != target,
{
    let h = hay.unicode_len();
    let mut k: usize = from;
    while k < h
        invariant
            from <= k <= h,
            h == hay@.len(),
            forall|j: int| from <= j < k ==> hay@[j] != target,
        decreases h - k,
    {
        if hay.get_char(k) == target {
            return Some(k);
        }
        k += 1;
    }
    None
}

/// The characters the library treats as whitespace when it picks the first
/// token out of a line: the ASCII whitespace set.
pub open spec fn ascii_whitespace(c: char) -> bool {
    c == ' ' || c == '\t' || c == '\n' || c == '\r' || c == '\u{b}' || c == '\u{c}'
}

/// Position of the first ASCII whitespace character at or after `from`.
pub fn find_whitespace_from(hay: &str, from: usize) -> (r: Option<usize>)
    requires
        from <= hay@.len(),
    ensures
        r matches Some(k) ==> from <= k < hay@.len() && ascii_whitespace(hay@[k as int]) && (
        forall|j: int| from <= j < k ==> !ascii_whitespace(hay@[j])),
        r is None ==> forall|j: int| from <= j < hay@.len() ==> !ascii_whitespace(hay@[j]),
{
    let h = hay.unicode_len();
    let mut k: usize = from;
    while k < h
        invariant
            from <= k <= h,
            h == hay@.len(),
            forall|j: int| from <= j < k ==> !ascii_whitespace(hay@[j]),
        decreases h - k,
    {
        let c = hay.get_char(k);
        if c == ' ' || c == '\t' || c == '\n' || c == '\r' || c == '\u{b}' || c == '\u{c}' {
            return Some(k);
        }
        k += 1;
    }
    None
}

} // verus!
