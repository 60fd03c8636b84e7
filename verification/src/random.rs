//! The random choices of the gateway.

use rand::Rng;
use std::num::NonZeroU64;
use vstd::prelude::*;

verus! {

/// `Rng::gen_range` on the generator of the thread, with the half-open
/// range from `low` to `high`: some number of that range.
#[verifier::external_body]
pub(crate) fn random_between(low: u64, high: u64) -> (n: u64)
    requires
        low < high,
    ensures
        low <= n < high,
{
    rand::thread_rng().gen_range(low..high)
}

/// `Rng::gen` for a non-zero 64-bit integer, on the generator of the
/// thread: some number other than zero.
#[verifier::external_body]
pub(crate) fn random_nonzero() -> (n: u64)
    ensures
        n != 0,
{
    rand::thread_rng().gen::<NonZeroU64>().get()
}

} // verus!
