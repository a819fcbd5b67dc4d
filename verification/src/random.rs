//! The source of chance for the ball's drift.
use rand::Rng;
use vstd::prelude::*;

verus! {

/// Draws an integer from `low..high` with `rand`'s thread-local generator
/// (`rand::thread_rng().gen_range(low..high)`).
///
/// Trusted: the result lies in the half-open range. `gen_range` panics on
/// an empty range, which `requires` leaves out; `thread_rng` panics where
/// the operating system cannot seed the generator, which no argument
/// decides. Nothing is claimed about which value of the range is drawn.
#[verifier::external_body]
pub(crate) fn random_between(low: i64, high: i64) -> (r: i64)
    requires
        low < high,
    ensures
        low <= r < high,
{
    rand::thread_rng().gen_range(low..high)
}

} // verus!
