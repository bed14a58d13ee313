//! The only place where the library touches a random number generator.
//!
//! Both functions draw from the generator that `rand` keeps for the calling
//! thread. Nothing here is proved: the contracts restate what `rand`
//! documents, and the rest of the library is verified against them.

use rand::Rng;
use vstd::prelude::*;

verus! {

/// Draws a number below `bound` with `rand::Rng::gen_range` on the range
/// `0..bound`.
///
/// Trusted: `gen_range` panics on an empty range, which `bound > 0` rules out,
/// and otherwise returns a value inside the range it was given. Which value
/// comes back is left open.
#[verifier::external_body]
pub(crate) fn random_below(bound: u32) -> (index: u32)
    requires
        bound > 0,
    ensures
        index < bound,
{
    rand::thread_rng().gen_range(0..bound)
}

/// Draws a yes or no with `rand::Rng::gen_ratio`, which says yes with a
/// chance of `numerator` in `denominator`.
///
/// Trusted: `gen_ratio` panics when the denominator is zero or smaller than
/// the numerator, which the precondition rules out. It always says yes when
/// the two numbers are equal and always says no when the numerator is zero;
/// in between, the answer is left open.
#[verifier::external_body]
pub(crate) fn random_ratio(numerator: u32, denominator: u32) -> (hit: bool)
    requires
        denominator > 0,
        numerator <= denominator,
    ensures
        numerator == denominator ==> hit,
        numerator == 0 ==> !hit,
{
    rand::thread_rng().gen_ratio(numerator, denominator)
}

} // verus!
