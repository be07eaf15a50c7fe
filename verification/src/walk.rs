//! The walking pace, picked at random when the sprite is set up.

use rand::Rng;
use vstd::prelude::*;

verus! {

/// Slowest pace a sprite is given, in pixels per tick.
pub const WALK_STEP_MIN: u64 = 2;

/// First pace past the fastest one.
pub const WALK_STEP_END: u64 = 30;

/// Draws one number from `rand::thread_rng()` through
/// `rand::distributions::Uniform::new(low, high)` and `Rng::sample`. Trusted:
/// the number lies in the half-open range `[low, high)`; `Uniform::new`
/// panics on an empty range, which the precondition leaves out.
#[verifier::external_body]
fn sample_uniform(low: u64, high: u64) -> (value: u64)
    requires
        low < high,
    ensures
        low <= value < high,
{
    rand::thread_rng().sample(rand::distributions::Uniform::new(low, high))
}

/// A pace drawn at random from `[low, high)`; nothing if the range is
/// empty.
pub fn random_walk_step(low: u64, high: u64) -> (step: Option<u64>)
    ensures
        step is Some <==> low < high,
        step matches Some(s) ==> low <= s < high,
{
    if low < high {
        Some(sample_uniform(low, high))
    } else {
        None
    }
}

} // verus!
