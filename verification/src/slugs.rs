//! Slugs: short identifiers that are safe in a URL.

use vstd::prelude::*;

verus! {

/// The slug that `slug::slugify` makes of `s`.
pub uninterp spec fn slugified(s: Seq<char>) -> Seq<char>;

/// The characters a slug is made of: `a` to `z`, `0` to `9` and `-`.
pub open spec fn is_slug_char(c: char) -> bool {
    ('a' <= c && c <= 'z') || ('0' <= c && c <= '9') || c == '-'
}

/// Whether `c` is an ASCII letter or digit.
pub open spec fn is_letter_or_digit(c: char) -> bool {
    ('a' <= c && c <= 'z') || ('A' <= c && c <= 'Z') || ('0' <= c && c <= '9')
}

/// Whether `s` holds an ASCII letter or digit.
pub open spec fn holds_letter_or_digit(s: Seq<char>) -> bool {
    exists|i: int| 0 <= i < s.len() && is_letter_or_digit(#[trigger] s[i])
}

/// Whether two `-` stand at the indices `i` and `i + 1` of `s`.
pub open spec fn double_dash_at(s: Seq<char>, i: int) -> bool {
    0 <= i && i + 1 < s.len() && s[i] == '-' && s[i + 1] == '-'
}

/// Whether every `-` of `s` stands between two other characters: none at
/// either end, and no two in a row.
pub open spec fn dashes_only_between(s: Seq<char>) -> bool {
    &&& s.len() > 0 ==> s[0] != '-' && s.last() != '-'
    &&& forall|i: int| !#[trigger] double_dash_at(s, i)
}

/// `slug::slugify`. The result depends on the characters of `s` alone. It
/// holds nothing but lower-case ASCII letters, digits and `-`, with no `-`
/// at either end and no two in a row. It is not empty where `s` holds an
/// ASCII letter or digit, each of which is taken over in lower case.
#[verifier::external_body]
pub(crate) fn slugify(s: &str) -> (r: String)
    ensures
        r@ == slugified(s@),
        forall|i: int| 0 <= i < r@.len() ==> is_slug_char(#[trigger] r@[i]),
        dashes_only_between(r@),
        holds_letter_or_digit(s@) ==> r@.len() > 0,
{
    ::slug::slugify(s)
}

} // verus!
