//! Comparing and searching text. A text is reasoned about as the sequence of
//! its characters.

use vstd::prelude::*;
use vstd::string::StringSliceAdditionalSpecFns;
use vstd::utf8::encode_utf8_decode_utf8;

verus! {

/// `needle` occurs in `text` as a contiguous run of characters.
pub open spec fn occurs_in(needle: Seq<char>, text: Seq<char>) -> bool {
    exists|i: int|
        0 <= i && i + needle.len() <= text.len() && #[trigger] text.subrange(
            i,
            i + needle.len(),
        ) == needle
}

/// `text` ends with the characters of `tail`.
pub open spec fn ends_in(text: Seq<char>, tail: Seq<char>) -> bool {
    tail.len() <= text.len() && text.subrange(text.len() - tail.len(), text.len() as int) == tail
}

/// Whether two texts hold the same characters.
pub fn text_eq(a: &str, b: &str) -> (r: bool)
    ensures
        r == (a@ == b@),
{
    let x = a.as_bytes();
    let y = b.as_bytes();
    proof {
        encode_utf8_decode_utf8(a@);
        encode_utf8_decode_utf8(b@);
    }
    if x.len() != y.len() {
        return false;
    }
    let mut i: usize = 0;
    while i < x.len()
        invariant
            x.len() == y.len(),
            i <= x.len(),
            x@ == a.spec_bytes(),
            y@ == b.spec_bytes(),
            forall|j: int| 0 <= j < i ==> x@[j] == y@[j],
        decreases x.len() - i,
    {
        if x[i] != y[i] {
            return false;
        }
        i += 1;
    }
    assert(x@ =~= y@);
    true
}

/// Calls `str::contains` with a `&str` as the pattern, which std documents
/// to hold exactly when the pattern matches a sub-slice of the text.
#[verifier::external_body]
pub(crate) fn text_contains(text: &str, needle: &str) -> (r: bool)
    ensures
        r == occurs_in(needle@, text@),
{
    text.contains(needle)
}

/// Calls `str::ends_with` with a `&str` as the pattern, which std documents
/// to hold exactly when the pattern matches a suffix of the text.
#[verifier::external_body]
pub(crate) fn text_ends_with(text: &str, tail: &str) -> (r: bool)
    ensures
        r == ends_in(text@, tail@),
{
    text.ends_with(tail)
}

} // verus!
