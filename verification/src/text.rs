//! Scans over the characters of a string, each in one pass.

use std::str::Chars;
use vstd::prelude::*;
use vstd::std_specs::iter::IteratorSpec;
use vstd::string::*;

verus! {

/// Tells whether `needle` occurs among the characters of `text`.
pub fn contains_char(text: &str, needle: char) -> (found: bool)
    ensures
        found == text@.contains(needle),
{
    let mut chars: Chars<'_> = text.chars();
    let ghost mut seen: int = 0;
    loop
        invariant
            0 <= seen <= text@.len(),
            chars.obeys_prophetic_iter_laws(),
            chars.remaining() == text@.skip(seen),
            forall|k: int| 0 <= k < seen ==> text@[k] != needle,
        decreases text@.len() - seen,
    {
        match chars.next() {
            None => {
                return false;
            },
            Some(c) => {
                if c == needle {
                    return true;
                }
                proof {
                    assert(text@.skip(seen).drop_first() == text@.skip(seen + 1));
                    seen = seen + 1;
                }
            },
        }
    }
}

/// Takes `prefix` off the front of `text` and returns what follows it, or
/// `None` when `text` does not begin with `prefix`.
pub fn strip_prefix<'a>(text: &'a str, prefix: &str) -> (rest: Option<&'a str>)
    ensures
        match rest {
            Some(tail) => text@ == prefix@ + tail@,
            None => !prefix@.is_prefix_of(text@),
        },
{
    let total: usize = text.unicode_len();
    let mut expected: Chars<'_> = prefix.chars();
    let mut actual: Chars<'_> = text.chars();
    let mut matched: usize = 0;
    loop
        invariant
            total == text@.len(),
            matched <= prefix@.len(),
            matched <= total,
            expected.obeys_prophetic_iter_laws(),
            actual.obeys_prophetic_iter_laws(),
            expected.remaining() == prefix@.skip(matched as int),
            actual.remaining() == text@.skip(matched as int),
            forall|k: int| 0 <= k < matched ==> prefix@[k] == text@[k],
        decreases prefix@.len() - matched,
    {
        match expected.next() {
            None => {
                let tail = text.substring_char(matched, total);
                return Some(tail);
            },
            Some(want) => {
                match actual.next() {
                    None => {
                        return None;
                    },
                    Some(got) => {
                        if got != want {
                            proof {
                                if prefix@.len() <= text@.len() {
                                    let head = text@.subrange(0, prefix@.len() as int);
                                    assert(head[matched as int] != prefix@[matched as int]);
                                }
                            }
                            return None;
                        }
                        proof {
                            assert(prefix@.skip(matched as int).drop_first() == prefix@.skip(
                                matched + 1,
                            ));
                            assert(text@.skip(matched as int).drop_first() == text@.skip(
                                matched + 1,
                            ));
                        }
                        matched = matched + 1;
                    },
                }
            },
        }
    }
}

/// Compares two strings character by character.
pub fn str_eq(left: &str, right: &str) -> (same: bool)
    ensures
        same == (left@ == right@),
{
    match strip_prefix(left, right) {
        Some(tail) => tail.is_empty(),
        None => false,
    }
}

} // verus!
