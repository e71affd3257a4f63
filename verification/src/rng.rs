//! The random source.  Every probabilistic decision in the simulation
//! (spawn jitter, fire rolls, power-up drop rolls, camera-shake offsets)
//! draws through these two samplers; the deciding logic itself takes the
//! drawn values as arguments, so it is verified for every possible draw.

use vstd::prelude::*;
use rand::Rng;

verus! {

/// Relies on `rand::Rng::gen_range` over a half-open range: the sample
/// lies in `[lo, hi)`.  Nothing more can be promised of a random value.
#[verifier::external_body]
pub(crate) fn sample_range(lo: i64, hi: i64) -> (r: i64)
    requires
        lo < hi,
    ensures
        lo <= r < hi,
{
    rand::thread_rng().gen_range(lo..hi)
}

/// Relies on `rand::Rng::gen_range` over an inclusive range: the sample
/// lies in `[lo, hi]`.  Nothing more can be promised of a random value.
#[verifier::external_body]
pub(crate) fn sample_range_inclusive(lo: i64, hi: i64) -> (r: i64)
    requires
        lo <= hi,
    ensures
        lo <= r <= hi,
{
    rand::thread_rng().gen_range(lo..=hi)
}

} // verus!
