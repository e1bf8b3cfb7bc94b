use rand::Rng;
use vstd::prelude::*;

verus! {

/// Draws an integer uniformly from `0..=hi`.
///
/// Relies on `rand::Rng::gen_range` (rand 0.8) on the thread-local generator:
/// the value lies in the given inclusive range, which is never empty here, so
/// the call does not panic. Nothing more can be promised of a random value.
#[verifier::external_body]
pub(crate) fn draw_up_to(hi: usize) -> (r: usize)
    ensures
        r <= hi,
{
    rand::thread_rng().gen_range(0..=hi)
}

} // verus!
