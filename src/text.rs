//! Text operations of std that the library relies on, and string equality.

use vstd::prelude::*;

verus! {

/// What `str::trim` leaves of a text.
pub uninterp spec fn trim_of(s: Seq<char>) -> Seq<char>;

/// What `str::to_uppercase` makes of a text.
pub uninterp spec fn upper_of(s: Seq<char>) -> Seq<char>;

/// Whether a character is ASCII and not white space (white space among
/// ASCII characters being tab, line feed, vertical tab, form feed, carriage
/// return and space).
pub open spec fn ascii_non_space(c: char) -> bool {
    (c as u32) < 128 && !((c as u32) >= 9 && (c as u32) <= 13) && c != ' '
}

/// Whether a character is ASCII white space.
pub open spec fn ascii_space(c: char) -> bool {
    ((c as u32) >= 9 && (c as u32) <= 13) || c == ' '
}

/// The upper-case form of an ASCII character.
pub open spec fn ascii_upper(c: char) -> char {
    if 'a' <= c && c <= 'z' {
        ((c as u32) - 32) as char
    } else {
        c
    }
}

/// Relies on `str::trim`: leading and trailing white space (Unicode
/// White_Space) removed; the result depends on the characters alone. A text
/// that starts and ends with a character that is not white space is kept
/// whole, and a text of white space alone leaves nothing.
#[verifier::external_body]
pub(crate) fn trim_text(s: &str) -> (r: String)
    ensures
        r@ == trim_of(s@),
        s@.len() > 0 && ascii_non_space(s@[0]) && ascii_non_space(s@.last()) ==> r@ == s@,
        (forall|i: int| 0 <= i < s@.len() ==> ascii_space(#[trigger] s@[i])) ==> r@.len() == 0,
{
    s.trim().to_string()
}

/// Relies on `str::to_uppercase`: the upper-case mapping of each character;
/// the result depends on the characters alone. On ASCII text, `a` to `z`
/// become `A` to `Z` and every other character stays.
#[verifier::external_body]
pub(crate) fn upper_text(s: &str) -> (r: String)
    ensures
        r@ == upper_of(s@),
        (forall|i: int| 0 <= i < s@.len() ==> (#[trigger] s@[i] as u32) < 128) ==> r@
            == s@.map_values(|c: char| ascii_upper(c)),
{
    s.to_uppercase()
}

/// Whether two texts are equal.
pub fn same_text(a: &str, b: &str) -> (r: bool)
    ensures
        r == (a@ == b@),
{
    String::from_str(a) == String::from_str(b)
}

} // verus!
