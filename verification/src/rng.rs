//! Trusted interface to the `rand` crate, used for the binary exponential
//! backoff draw.

use vstd::prelude::*;

verus! {

/// Relies on rand::random_range over `0..bound`: a draw from the
/// thread-local generator, uniform over the range and so strictly below
/// `bound`. It panics on an empty range, which the precondition rules out.
#[verifier::external_body]
pub(crate) fn random_below(bound: u32) -> (r: u32)
    requires
        bound >= 1,
    ensures
        r < bound,
{
    rand::random_range(0..bound)
}

} // verus!
