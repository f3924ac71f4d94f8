//! The random draws the simulation makes, taken from the `rand` crate.
//!
//! Nothing is proved about `rand`: the contracts in this file are believed
//! as they stand. They say only what holds of every draw.

use vstd::prelude::*;
use rand::rngs::StdRng;
use rand::Rng;

verus! {

/// `rand::rngs::StdRng`, the generator all draws are taken from. Its state is
/// opaque to the proofs.
#[verifier::external_type_specification]
#[verifier::external_body]
pub struct ExStdRng(StdRng);

/// A draw from `0..bound`, by `rand::Rng::gen_range` on the half-open range
/// from zero to `bound`. The contract claims that the draw lies in the range;
/// `gen_range` panics on an empty range, which `requires` rules out.
#[verifier::external_body]
pub(crate) fn random_below(rng: &mut StdRng, bound: i32) -> (draw: i32)
    requires
        bound > 0,
    ensures
        0 <= draw < bound,
{
    rng.gen_range(0..bound)
}

/// A coin flip that comes up `true` with probability
/// `numerator / denominator`, by `rand::Rng::gen_ratio`. Nothing is claimed
/// of the outcome; `gen_ratio` panics on a zero denominator and on a ratio
/// above one, which `requires` rules out.
#[verifier::external_body]
pub(crate) fn random_ratio(rng: &mut StdRng, numerator: u32, denominator: u32) -> (heads: bool)
    requires
        denominator > 0,
        numerator <= denominator,
{
    rng.gen_ratio(numerator, denominator)
}

} // verus!
