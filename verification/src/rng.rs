//! The one source of randomness: the `rand` crate's thread-local
//! generator, behind a single trusted draw. Nothing is assumed about
//! which value comes back, only that it lies in the requested range.

use vstd::prelude::*;

verus! {

/// `rand`'s thread-local generator, opaque to the proofs here; callers
/// hold one and pass it to `draw_in_range`.
#[verifier::external_type_specification]
#[verifier::external_body]
pub struct ExThreadRng(rand::rngs::ThreadRng);

/// Relies on `rand::Rng::gen_range` over `lo..hi`: the draw lies in the
/// half-open range, and the call panics only on an empty range, which the
/// precondition rules out. Two draws on equal inputs may differ.
#[verifier::external_body]
pub(crate) fn draw_in_range(rng: &mut rand::rngs::ThreadRng, lo: i64, hi: i64) -> (r: i64)
    requires
        lo < hi,
    ensures
        lo <= r < hi,
{
    rand::Rng::gen_range(rng, lo..hi)
}

} // verus!
