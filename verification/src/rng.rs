//! The one call into the outside world the simulation makes: drawing the
//! random row for an obstacle's gap center.
use vstd::prelude::*;

verus! {

/// Relies on bracket_lib's `RandomNumberGenerator`: `new` seeds a generator
/// from entropy and `range(min, max)` draws a value that is at least `min`
/// and strictly below `max` (rand's `gen_range` over the half-open range
/// `min..max`, which panics when that range is empty, so an empty range is
/// excluded here). Nothing more is assumed of the draw: every caller must
/// cope with any value in the band.
#[verifier::external_body]
pub(crate) fn random_in_range(min: i32, max: i32) -> (r: i32)
    requires
        min < max,
    ensures
        min <= r < max,
{
    let mut generator = bracket_lib::random::RandomNumberGenerator::new();
    generator.range(min, max)
}

} // verus!
