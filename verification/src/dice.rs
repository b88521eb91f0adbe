//! Draws from the random number generator.

use vstd::prelude::*;

verus! {

/// `rand::random::<u32>()`: a 32-bit number drawn from the thread's generator.
/// Read as the numerator of a fraction over 2^32 it is a draw from the unit
/// interval. Nothing is claimed of the value.
#[verifier::external_body]
pub(crate) fn random_unit() -> (roll: u32) {
    rand::random::<u32>()
}

/// `rand::random_range(0..n)`: a number drawn from the thread's generator. The
/// claim is that it lies in the range, `0 <= pick < n`. An empty range makes
/// `rand` panic, so `n` must be positive.
#[verifier::external_body]
pub(crate) fn random_below(n: usize) -> (pick: usize)
    requires
        n > 0,
    ensures
        pick < n,
{
    rand::random_range(0..n)
}

} // verus!
