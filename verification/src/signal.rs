//! Decoding the hardware signal stream: a line-oriented event stream where
//! one fixed byte pattern denotes the mode trigger, and the discovery
//! output in which the device node of the signal source is found.

use vstd::prelude::*;
use vstd::string::StrSliceExecFns;
use vstd::string::StringExecFns;

use crate::text::{
    ascii_whitespace, contains_at, contains_str, find_char_from, find_sub, find_whitespace_from,
    text_contains,
};

verus! {

/// The data pattern that denotes a trigger inside a report line.
pub open spec fn trigger_pattern() -> Seq<char> {
    "3 03 01 00"@
}

/// Does this line of the event stream carry the trigger pattern?  Every
/// other line is ignored.
pub fn line_is_trigger(line: &str) -> (r: bool)
    ensures
        r == text_contains(line@, trigger_pattern()),
{
    contains_str(line, "3 03 01 00")
}

/// The device-node prefix looked for in discovery output.
pub open spec fn device_prefix() -> Seq<char> {
    "/dev/hidraw"@
}

/// The maker's name looked for in discovery output.
pub open spec fn device_maker() -> Seq<char> {
    "Jabra"@
}

/// What extracting a device path from one discovery line returns.
/// A line without the maker's name or without a device-node prefix yields
/// nothing.  Otherwise the path starts at the first device-node prefix and
/// runs to the first colon after it; when no colon follows, it runs to the
/// first ASCII whitespace after it, or to the end of the line.
#[verifier::opaque]
pub open spec fn extract_post(line: Seq<char>, r: Option<Seq<char>>) -> bool {
    if !text_contains(line, device_maker()) || !text_contains(line, device_prefix()) {
        r is None
    } else {
        exists|d: int|
            {
                &&& #[trigger] contains_at(line, device_prefix(), d)
                &&& forall|j: int| 0 <= j < d ==> !contains_at(line, device_prefix(), j)
                &&& ({
                    ||| exists|c: int|
                        {
                            &&& d <= c < line.len()
                            &&& #[trigger] line[c] == ':'
                            &&& forall|j: int| d <= j < c ==> line[j] != ':'
                            &&& r == Some(line.subrange(d, c))
                        }
                    ||| ((forall|j: int| d <= j < line.len() ==> line[j] != ':') && ({
                        ||| exists|w: int|
                            {
                                &&& d <= w < line.len()
                                &&& ascii_whitespace(#[trigger] line[w])
                                &&& forall|j: int| d <= j < w ==> !ascii_whitespace(line[j])
                                &&& r == Some(line.subrange(d, w))
                            }
                        ||| ((forall|j: int| d <= j < line.len() ==> !ascii_whitespace(line[j]))
                            && r == Some(line.subrange(d, line.len() as int)))
                    }))
                })
            }
    }
}

/// Extract the device path from one line of discovery output.
pub fn extract_device_path(line: &str) -> (r: Option<String>)
    ensures
        match r {
            Some(p) => extract_post(line@, Some(p@)),
            None => extract_post(line@, None),
        },
{
    proof {
        reveal(extract_post);
    }
    if !contains_str(line, "Jabra") {
        return None;
    }
    let d = match find_sub(line, "/dev/hidraw") {
        Some(d) => d,
        None => {
            return None;
        },
    };
    let h = line.unicode_len();
    proof {
        assert(contains_at(line@, device_prefix(), d as int));
    }
    let end = match find_char_from(line, d, ':') {
        Some(c) => c,
        None => match find_whitespace_from(line, d) {
            Some(w) => w,
            None => h,
        },
    };
    let path = line.substring_char(d, end);
    Some(String::from_str(path))
}

/// Scan a whole discovery transcript for the signal device.  Later
/// extractable lines override earlier ones: the result is the path taken
/// from the last line that yields one.
pub fn find_device_path(lines: &Vec<String>) -> (r: Option<String>)
    ensures
        match r {
            Some(p) => exists|i: int|
                {
                    &&& 0 <= i < lines@.len()
                    &&& extract_post(#[trigger] lines@[i]@, Some(p@))
                    &&& forall|j: int| i < j < lines@.len() ==> extract_post(#[trigger] lines@[j]@, None)
                },
            None => forall|i: int| 0 <= i < lines@.len() ==> extract_post(#[trigger] lines@[i]@, None),
        },
{
    let mut best: Option<String> = None;
    let ghost mut best_i: int = 0;
    let mut i: usize = 0;
    while i < lines.len()
        invariant
            i <= lines@.len(),
            best matches Some(p) ==> {
                &&& 0 <= best_i < i
                &&& extract_post(lines@[best_i]@, Some(p@))
                &&& forall|j: int| best_i < j < i ==> extract_post(#[trigger] lines@[j]@, None)
            },
            best is None ==> forall|j: int|
                0 <= j < i ==> extract_post(#[trigger] lines@[j]@, None),
        decreases lines@.len() - i,
    {
        match extract_device_path(lines[i].as_str()) {
            Some(p) => {
                best = Some(p);
                proof {
                    best_i = i as int;
                }
            },
            None => {},
        }
        i += 1;
    }
    best
}

} // verus!
