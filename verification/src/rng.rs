//! Random numbers from the `rand` crate.
use vstd::prelude::*;

use rand::rngs::StdRng;
use rand::Rng;

verus! {

/// Declares `rand`'s standard random number generator.
#[verifier::external_type_specification]
#[verifier::external_body]
pub struct ExStdRng(StdRng);

/// Calls `rand::Rng::gen_range(low, high)` for `i64`, which draws a value
/// uniformly from `low` (inclusive) to `high` (exclusive) and panics
/// unless `low < high`. Claimed: the result lies in that range; nothing
/// else is known of it.
#[verifier::external_body]
pub(crate) fn gen_range_i64(rng: &mut StdRng, low: i64, high: i64) -> (r: i64)
    requires
        low < high,
    ensures
        low <= r < high,
{
    rng.gen_range(low, high)
}

} // verus!
