//! The one source of randomness the game uses.

use rand::Rng;
use vstd::prelude::*;

verus! {

/// Draws an index below `n` from the thread-local generator, by
/// `rand::Rng::gen_range` on the half-open range `0..n`.
///
/// Trusted: the result lies in the range. Nothing is claimed about which
/// index comes out. The range must not be empty, since `gen_range` panics on
/// an empty one.
#[verifier::external_body]
pub(crate) fn random_below(n: usize) -> (r: usize)
    requires
        n > 0,
    ensures
        r < n,
{
    rand::thread_rng().gen_range(0..n)
}

} // verus!
