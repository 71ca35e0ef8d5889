//! The one place where chance enters.

use rand::Rng;
use vstd::prelude::*;

verus! {

/// Draws a number below `bound` from the thread's random number generator:
/// `rand::Rng::gen_range` on `rand::thread_rng()`, with the range
/// `0..bound`. The contract claims only that the draw lies in that range,
/// which `gen_range` documents; an empty range makes it panic, so `bound`
/// is positive. Nothing is said of which number comes.
#[verifier::external_body]
pub(crate) fn random_below(bound: u64) -> (draw: u64)
    requires
        bound > 0,
    ensures
        draw < bound,
{
    rand::thread_rng().gen_range(0..bound)
}

} // verus!
