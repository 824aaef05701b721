//! The one place where the crate asks for a random number.

use vstd::prelude::*;
use rand::Rng;

verus! {

/// Draws an integer with `rand::Rng::gen_range` from the half-open range
/// `low..high`, on the generator that `rand::thread_rng` hands out.
///
/// Trusted: the contract is taken from the documentation and the source of
/// `gen_range`, which samples from `low` up to but excluding `high` and
/// panics on an empty range.  Nothing is claimed about which value of the
/// range comes back.
#[verifier::external_body]
pub(crate) fn draw_in_range(low: i64, high: i64) -> (r: i64)
    requires
        low < high,
    ensures
        low <= r < high,
{
    rand::thread_rng().gen_range(low..high)
}

} // verus!
