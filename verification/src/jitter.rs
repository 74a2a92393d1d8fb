//! The randomized delay before an attempt that follows a failed request.

use rand::rngs::StdRng;
use rand::Rng;
use vstd::prelude::*;

verus! {

/// The generator that delays are drawn from. Nothing is known of its state.
#[verifier::external_type_specification]
#[verifier::external_body]
pub struct ExStdRng(rand::rngs::StdRng);

/// The least delay, in milliseconds.
pub const JITTER_MIN_MS: u64 = 1000;

/// The bound that every delay stays under, in milliseconds.
pub const JITTER_END_MS: u64 = 5000;

/// Whether `ms` is a delay that may follow a failed request.
pub open spec fn is_jitter(ms: int) -> bool {
    JITTER_MIN_MS <= ms < JITTER_END_MS
}

/// Calls `rand::Rng::gen_range` on the half-open range from `low` to `high`.
/// rand documents that the value it returns lies in the range, and that it
/// panics on an empty range, which `requires` leaves out. Which value comes
/// back depends on the generator: nothing more is stated.
#[verifier::external_body]
fn sample_between(rng: &mut StdRng, low: u64, high: u64) -> (value: u64)
    requires
        low < high,
    ensures
        low <= value < high,
{
    rng.gen_range(low..high)
}

/// A delay between 1000 and 4999 milliseconds, drawn from `rng`.
pub fn jitter_delay(rng: &mut StdRng) -> (ms: u64)
    ensures
        is_jitter(ms as int),
{
    sample_between(rng, JITTER_MIN_MS, JITTER_END_MS)
}

} // verus!
