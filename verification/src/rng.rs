//! The seeded pseudo-random generator that drives colours and placement.

use rand::rngs::SmallRng;
use rand::Rng;
use rand::SeedableRng;
use vstd::prelude::*;

verus! {

/// `rand::rngs::SmallRng`, carried through the engine as an opaque value.
#[verifier::external_type_specification]
#[verifier::external_body]
pub struct ExSmallRng(SmallRng);

/// Calls `SmallRng::seed_from_u64`. Nothing is claimed of the generator that
/// comes back.
#[verifier::external_body]
pub(crate) fn seeded(seed: u64) -> SmallRng {
    SmallRng::seed_from_u64(seed)
}

/// Calls `Rng::random_range` on the half-open range `low..high`. The call
/// panics on an empty range, which the precondition leaves out; whatever the
/// generator's state, the value drawn lies in the range.
#[verifier::external_body]
pub(crate) fn draw(rng: &mut SmallRng, low: u32, high: u32) -> (value: u32)
    requires
        low < high,
    ensures
        low <= value < high,
{
    rng.random_range(low..high)
}

} // verus!
