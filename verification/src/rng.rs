use vstd::prelude::*;

verus! {

#[verifier::external_type_specification]
#[verifier::external_body]
pub struct ExStdRng(rand::rngs::StdRng);

/// Relies on rand's `SeedableRng::seed_from_u64`: builds a deterministic
/// generator from a 64-bit seed, so a simulation run is reproducible.
#[verifier::external_body]
pub fn rng_from_seed(seed: u64) -> (r: rand::rngs::StdRng) {
    <rand::rngs::StdRng as rand::SeedableRng>::seed_from_u64(seed)
}

/// Relies on rand's `Rng::gen_range` on an `i64` range: returns a value
/// uniform in `[lo, hi)` and panics only on an empty range, which the
/// precondition rules out. Nothing more is assumed of which value comes out.
#[verifier::external_body]
pub(crate) fn rng_range_i64(rng: &mut rand::rngs::StdRng, lo: i64, hi: i64) -> (r: i64)
    requires
        lo < hi,
    ensures
        lo <= r < hi,
{
    rand::Rng::gen_range(rng, lo..hi)
}

} // verus!
