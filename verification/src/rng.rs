//! The one source of randomness: a draw of a small integer, used for the
//! route tag recorded at spawn and for picking a random approach edge.

use vstd::prelude::*;

use rand::Rng;

verus! {

/// Relies on `rand::thread_rng` and `rand::Rng::gen_range` on the range
/// `0..n`: the sample lies in that half-open range, and the range is
/// nonempty, so the call does not panic. Nothing is assumed about which
/// value comes back.
#[verifier::external_body]
pub fn random_below(n: u32) -> (r: u32)
    requires
        1 <= n,
    ensures
        r < n,
{
    rand::thread_rng().gen_range(0..n)
}

} // verus!
