//! The one source of randomness: a uniform draw below a bound.

use vstd::prelude::*;
use rand::Rng;

verus! {

/// Relies on rand's thread_rng and Rng::gen_range over a half-open
/// range: a fresh, uniform, independent draw strictly below `bound`;
/// the range must not be empty.
#[verifier::external_body]
pub(crate) fn random_below(bound: u32) -> (r: u32)
    requires
        bound >= 1,
    ensures
        r < bound,
{
    rand::thread_rng().gen_range(0..bound)
}

} // verus!
