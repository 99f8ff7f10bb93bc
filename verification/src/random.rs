use vstd::prelude::*;

use rand::Rng;

verus! {

/// `rand::Rng::random_range` on the thread-local generator (`rand::rng()`), over the range
/// `lo..hi`: the result lies in the range. Which value comes back is left to chance.
#[verifier::external_body]
pub(crate) fn random_range(lo: i64, hi: i64) -> (r: i64)
    requires
        lo < hi,
    ensures
        lo <= r < hi,
{
    rand::rng().random_range(lo..hi)
}

} // verus!
