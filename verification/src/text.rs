//! Small helpers on strings.

use vstd::prelude::*;

verus! {

/// Compares two string slices.
///
/// Trusted: stands for `str::eq` of the standard library, which holds exactly
/// when both slices spell the same characters.
#[verifier::external_body]
pub(crate) fn text_eq(a: &str, b: &str) -> (same: bool)
    ensures
        same == (a@ == b@),
{
    a == b
}

} // verus!
