//! Random draws, from the thread-local generator of `rand`.

use vstd::prelude::*;

verus! {

/// Relies on `rand::thread_rng` and `Rng::gen_range`: a draw from the
/// half-open range `0..bound`, which `gen_range` panics on only when the
/// range is empty. Nothing else is known of the value.
#[verifier::external_body]
pub(crate) fn roll_below(bound: u32) -> (r: u32)
    requires
        bound > 0,
    ensures
        r < bound,
{
    rand::Rng::gen_range(&mut rand::thread_rng(), 0..bound)
}

} // verus!
