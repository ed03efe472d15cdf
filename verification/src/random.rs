//! The one source of chance in the game.

use rand::Rng;
use vstd::prelude::*;

verus! {

/// Draws a whole number from `low..high` with `gen_range` of the `rand` crate,
/// on the generator that `thread_rng` hands out. Nothing is claimed of the
/// number but that it lies in the range, the low end included and the high end
/// not. `gen_range` panics on an empty range, which the precondition rules out.
#[verifier::external_body]
pub(crate) fn random_in_range(low: i32, high: i32) -> (n: i32)
    requires
        low < high,
    ensures
        low <= n < high,
{
    rand::thread_rng().gen_range(low..high)
}

} // verus!
