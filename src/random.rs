//! The random source that the sampler and the renderer draw from.
use vstd::prelude::*;

verus! {

/// rand's standard generator, carried through opaquely; callers seed it.
#[verifier::external_type_specification]
#[verifier::external_body]
pub struct ExStdRng(rand::rngs::StdRng);

/// Relies on `rand::Rng::gen_range` over `0..n`: the value drawn lies in
/// `[0, n)`. It panics on an empty range, hence `0 < n`.
#[verifier::external_body]
pub(crate) fn draw_index(rng: &mut rand::rngs::StdRng, n: usize) -> (r: usize)
    requires
        0 < n,
    ensures
        r < n,
{
    rand::Rng::gen_range(rng, 0..n)
}

} // verus!
