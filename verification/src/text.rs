//! Comparing text.

use vstd::prelude::*;

verus! {

/// `==` of std on two string slices. Trusted: it is `true` exactly when both
/// hold the same characters in the same order.
#[verifier::external_body]
pub(crate) fn same_text(a: &str, b: &str) -> (same: bool)
    ensures
        same == (a@ == b@),
{
    a == b
}

} // verus!
