//! Random draws for spawning, targeting and weapon selection.

use vstd::prelude::*;

verus! {

/// Relies on `rand::Rng::gen_range` on the thread RNG: for a non-empty range
/// `0..bound` it returns a value of that range and does not panic.  Nothing
/// is assumed about which value comes back.
#[verifier::external_body]
pub(crate) fn rand_u64_below(bound: u64) -> (r: u64)
    requires
        1 <= bound,
    ensures
        r < bound,
{
    rand::Rng::gen_range(&mut rand::thread_rng(), 0..bound)
}

/// A fair coin: true or false, nothing assumed about which.
pub(crate) fn rand_flip() -> (r: bool) {
    rand_u64_below(2) == 1
}

} // verus!
