//! The one source of randomness: initial particle placement and type
//! assignment draw uniform integers from the process RNG.

use rand::Rng;
use vstd::prelude::*;

verus! {

/// Relies on rand's `Rng::gen_range` over the half-open range `0..n`: for
/// a non-empty range it returns a value of the range, so the result is
/// strictly below `n`. Nothing more is assumed of the draw.
#[verifier::external_body]
pub fn random_below(n: u64) -> (r: u64)
    requires
        n >= 1,
    ensures
        r < n,
{
    rand::thread_rng().gen_range(0..n)
}

} // verus!
