use vstd::prelude::*;
use rand::rngs::StdRng;
use rand::Rng;

verus! {

/// The seedable generator that the simulation draws from.
#[verifier::external_type_specification]
#[verifier::external_body]
pub struct StdRngSpec(StdRng);

/// Relies on `rand::Rng::gen_range` over `0..n`: a value in `[0, n)`; it
/// panics on an empty range, which `requires` leaves out.
#[verifier::external_body]
pub(crate) fn random_below(rng: &mut StdRng, n: u64) -> (r: u64)
    requires
        n > 0,
    ensures
        r < n,
{
    rng.gen_range(0..n)
}

} // verus!
