//! Character-level facts that the parsers rely on, taken from std and from
//! `unicode-segmentation`.
use unicode_segmentation::UnicodeSegmentation;
use vstd::prelude::*;

verus! {

/// Whether `c` has the Unicode `Alphabetic` or `Numeric` property.
pub uninterp spec fn alphanumeric(c: char) -> bool;

/// Whether `c` has the Unicode `White_Space` property.
pub uninterp spec fn white_space(c: char) -> bool;

/// Number of extended grapheme clusters in `s`.
pub uninterp spec fn grapheme_count(s: Seq<char>) -> nat;

/// A character in `' '..='~'`.
pub open spec fn printable_ascii(c: char) -> bool {
    ' ' <= c && c <= '~'
}

/// An ASCII letter or digit.
pub open spec fn ascii_alphanumeric(c: char) -> bool {
    ('a' <= c && c <= 'z') || ('A' <= c && c <= 'Z') || ('0' <= c && c <= '9')
}

/// Relies on `char::is_alphanumeric`, which is `is_alphabetic() ||
/// is_numeric()`: the answer depends on `c` alone, and `a-z`, `A-Z` and
/// `0-9` are alphabetic or numeric.
#[verifier::external_body]
pub(crate) fn is_alphanumeric(c: char) -> (r: bool)
    ensures
        r == alphanumeric(c),
        ascii_alphanumeric(c) ==> r,
{
    c.is_alphanumeric()
}

/// Relies on `char::is_whitespace`: the answer depends on `c` alone.
#[verifier::external_body]
pub(crate) fn is_whitespace(c: char) -> (r: bool)
    ensures
        r == white_space(c),
{
    c.is_whitespace()
}

/// Relies on `UnicodeSegmentation::graphemes(s, true).count()`. The
/// segmenter gives every character of `' '..='~'` the category `Any`, and
/// breaks between two such characters (rule GB999), so a string made only
/// of those has one cluster per character.
#[verifier::external_body]
pub(crate) fn count_graphemes(s: &str) -> (r: usize)
    ensures
        r as nat == grapheme_count(s@),
        (forall|i: int| 0 <= i < s@.len() ==> printable_ascii(#[trigger] s@[i])) ==> r
            == s@.len(),
{
    s.graphemes(true).count()
}

/// Relies on `String::push`: appends `c` at the end.
#[verifier::external_body]
pub(crate) fn push_char(s: &mut String, c: char)
    ensures
        final(s)@ == old(s)@.push(c),
{
    s.push(c)
}

/// Every character of `s` satisfies `alphanumeric`.
pub(crate) fn all_alphanumeric(s: &str) -> (r: bool)
    ensures
        r == (forall|i: int| 0 <= i < s@.len() ==> alphanumeric(#[trigger] s@[i])),
        (forall|i: int| 0 <= i < s@.len() ==> ascii_alphanumeric(#[trigger] s@[i])) ==> r,
{
    for c in it: s.chars()
        invariant
            it.seq() == s@,
            forall|j: int| 0 <= j < it.index() ==> alphanumeric(#[trigger] s@[j]),
    {
        if !is_alphanumeric(c) {
            return false;
        }
    }
    true
}

} // verus!
