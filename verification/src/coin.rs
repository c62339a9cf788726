//! Random coin flips that decide the direction of a clock's drift.

use vstd::prelude::*;
use rand::rngs::StdRng;
use rand::Rng;

verus! {

/// The standard random number generator of `rand`, opaque to proofs.
#[verifier::external_type_specification]
#[verifier::external_body]
pub struct ExStdRng(StdRng);

/// Flips a fair coin with `rand::Rng::gen_ratio(1, 2)`.  The outcome is random, so
/// nothing is stated of it; `gen_ratio` panics only for a zero denominator or a
/// numerator above the denominator, which one half is not.
#[verifier::external_body]
pub(crate) fn flip_coin(rng: &mut StdRng) -> (heads: bool) {
    rng.gen_ratio(1, 2)
}

} // verus!
