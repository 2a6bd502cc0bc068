//! The one source of chance in the game: the vertical speed at which the
//! ball leaves a paddle. The generator is handed in by the caller, so a game
//! played from a fixed seed can be played again.

use vstd::prelude::*;

verus! {

/// The seedable generator of the `rand` crate. Nothing is known of its
/// state.
#[verifier::external_type_specification]
#[verifier::external_body]
pub struct ExStdRng(rand::rngs::StdRng);

/// Draws a number from `low` to `high`, both included, with
/// `rand::Rng::gen_range` on the inclusive range. `rand` panics on an empty
/// range, which `low <= high` rules out, and returns a member of the range;
/// that it draws each member with equal chance is not stated here.
#[verifier::external_body]
pub(crate) fn draw_between(rng: &mut rand::rngs::StdRng, low: i64, high: i64) -> (drawn: i64)
    requires
        low <= high,
    ensures
        low <= drawn <= high,
{
    rand::Rng::gen_range(rng, low..=high)
}

} // verus!
