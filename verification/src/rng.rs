//! The trusted boundary to the `rand` crate: scenario generation draws its
//! distances, angles and masses here. Nothing is assumed of a sample
//! beyond its range.

use vstd::prelude::*;

verus! {

#[verifier::external_type_specification]
#[verifier::external_body]
pub struct ExThreadRng(rand::rngs::ThreadRng);

/// Relies on rand::thread_rng: a handle to the thread-local generator.
#[verifier::external_body]
pub fn fresh_rng() -> rand::rngs::ThreadRng {
    rand::thread_rng()
}

/// Relies on Rng::gen_range on a half-open `i64` range: a uniform sample
/// in `[lo, hi)`. The call panics only on an empty range, which the
/// precondition rules out; nothing more is assumed of which value comes
/// back.
#[verifier::external_body]
pub fn sample_range(rng: &mut rand::rngs::ThreadRng, lo: i64, hi: i64) -> (r: i64)
    requires
        lo < hi,
    ensures
        lo <= r < hi,
{
    rand::Rng::gen_range(rng, lo..hi)
}

} // verus!
