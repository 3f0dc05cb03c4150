//! Trusted boundary to the `rand` crate, used once at startup to seed the
//! board with a fixed live-cell density.

use vstd::prelude::*;

verus! {

#[verifier::external_type_specification]
#[verifier::external_body]
pub struct ExThreadRng(rand::rngs::ThreadRng);

/// Relies on rand::rng: a handle to the thread-local random generator.
#[verifier::external_body]
pub(crate) fn fresh_rng() -> rand::rngs::ThreadRng {
    rand::rng()
}

/// Relies on rand::RngExt::random_ratio: a random boolean that is true with
/// probability `num / den`. Nothing can be promised of a single draw, so this
/// has no postcondition; the precondition keeps out the inputs on which the
/// call panics.
#[verifier::external_body]
pub(crate) fn random_with_ratio(rng: &mut rand::rngs::ThreadRng, num: u32, den: u32) -> bool
    requires
        0 < den,
        num <= den,
{
    rand::RngExt::random_ratio(rng, num, den)
}

} // verus!
