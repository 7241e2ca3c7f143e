//! String primitives of std that the option logic relies on.

use vstd::prelude::*;

verus! {

/// Compares two string slices with std's `==` on `str`, which holds exactly
/// when both slices consist of the same characters in the same order.
#[verifier::external_body]
pub(crate) fn str_eq(a: &str, b: &str) -> (r: bool)
    ensures
        r == (a@ == b@),
{
    a == b
}

} // verus!
