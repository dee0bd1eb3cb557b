use rand::Rng;
use vstd::prelude::*;

verus! {

/// `rand::Rng::gen_range` on the thread's generator, over the closed range
/// from `low` to `high`: some number of that range.
#[verifier::external_body]
pub(crate) fn random_between(low: u32, high: u32) -> (n: u32)
    requires
        low <= high,
    ensures
        low <= n <= high,
{
    rand::thread_rng().gen_range(low..=high)
}

/// `rand::Rng::gen` on the thread's generator: 128 bits of which nothing is
/// known.
#[verifier::external_body]
pub(crate) fn random_bits() -> u128 {
    rand::thread_rng().gen()
}

} // verus!
