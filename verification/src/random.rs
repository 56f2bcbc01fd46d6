//! Random numbers.

use vstd::prelude::*;

verus! {

/// Draws a number from `low..high` with `rand::Rng::gen_range`, on the
/// generator of the calling thread (`rand::thread_rng`). All that is claimed
/// of the number is that it lies in the range, `high` excluded. The call
/// panics on an empty range, which the precondition leaves out.
#[verifier::external_body]
pub(crate) fn roll(low: i64, high: i64) -> (r: i64)
    requires
        low < high,
    ensures
        low <= r < high,
{
    rand::Rng::gen_range(&mut rand::thread_rng(), low..high)
}

} // verus!
