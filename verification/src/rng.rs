//! The engine's only outside call: the pseudo-random number generator.
//!
//! Bounce jitter, post-bounce speeds and initial headings are drawn from
//! macroquad's process-wide PRNG.  Nothing is assumed of a drawn value
//! beyond its range, so every function that consumes one is verified for
//! every value the range admits.

use vstd::prelude::*;

verus! {

/// Relies on `macroquad::rand::gen_range::<i64>` (quad_rand): it returns
/// `low + (high - low) * u` truncated toward zero, with `u` drawn in
/// `[0, 1)`; for arguments within `+-2^31` the result lies in
/// `[low, high]`.
#[verifier::external_body]
pub(crate) fn gen_range_i64(low: i64, high: i64) -> (r: i64)
    requires
        -0x8000_0000 <= low < high <= 0x8000_0000,
    ensures
        low <= r <= high,
{
    macroquad::rand::gen_range(low, high)
}

} // verus!
