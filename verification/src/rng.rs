//! The trusted boundary to the `rand` crate, used only to seed chunks with
//! varied demo content — never by the mesh-building path. Callers construct
//! the generator themselves (for example with `SeedableRng::seed_from_u64`,
//! so that population is reproducible) and pass it in.

use vstd::prelude::*;

verus! {

#[verifier::external_type_specification]
#[verifier::external_body]
pub struct ExStdRng(rand::rngs::StdRng);

/// Relies on `rand::Rng::gen_range` over the inclusive range `0..=5`: the
/// sampled value lies in the range, and the range is not empty, so the call
/// does not panic. Nothing more is assumed of the draw.
#[verifier::external_body]
pub(crate) fn draw_block_index(rng: &mut rand::rngs::StdRng) -> (index: u8)
    ensures
        index <= 5,
{
    rand::Rng::gen_range(rng, 0..=5u8)
}

} // verus!
