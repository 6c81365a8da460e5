//! Small string helpers shared by the name-matching code.

use vstd::prelude::*;

verus! {

/// Compares two string slices with `str`'s `PartialEq::eq`.
///
/// Trusted: the result is taken to be true exactly when both slices hold
/// the same sequence of characters, which is what the standard library
/// documents for string equality.
#[verifier::external_body]
pub(crate) fn str_eq(a: &str, b: &str) -> (same: bool)
    ensures
        same == (a@ == b@),
{
    a == b
}

/// Whether `needle` occurs in `hay` as a run of neighbouring characters.
pub open spec fn occurs_in(needle: Seq<char>, hay: Seq<char>) -> bool {
    exists|i: int|
        0 <= i && i + needle.len() <= hay.len() && #[trigger] hay.subrange(
            i,
            i + needle.len(),
        ) == needle
}

/// Searches a string slice for another with `str::contains`.
///
/// Trusted: the result is taken to be true exactly when the second slice
/// matches a sub-slice of the first, as the standard library documents.
#[verifier::external_body]
pub(crate) fn str_contains(hay: &str, needle: &str) -> (found: bool)
    ensures
        found == occurs_in(needle@, hay@),
{
    hay.contains(needle)
}

/// The result of `str::to_lowercase` on a string with the given characters.
pub uninterp spec fn lowercase_of(s: Seq<char>) -> Seq<char>;

/// Lowercases a string with `str::to_lowercase`.
///
/// Trusted: the result is named `lowercase_of` of the input; nothing else
/// is claimed about Unicode case mapping.
#[verifier::external_body]
pub(crate) fn to_lowercase(s: &str) -> (lowered: String)
    ensures
        lowered@ == lowercase_of(s@),
{
    s.to_lowercase()
}

} // verus!
