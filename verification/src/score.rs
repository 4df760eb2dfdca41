//! The score counter: one point per food event, cleared on game over.
use vstd::prelude::*;

verus! {

/// A non-negative score counter.
#[derive(Clone, Copy, Debug, PartialEq, Eq, Structural)]
pub struct Score(pub usize);

/// Adds one point, as a food event does.
pub fn increase_score(score: &mut Score)
    requires
        old(score).0 < usize::MAX,
    ensures
        final(score).0 == old(score).0 + 1,
{
    score.0 = score.0 + 1;
}

/// Clears the score, as a game-over event does.
pub fn reset_score(score: &mut Score)
    ensures
        final(score).0 == 0,
{
    score.0 = 0;
}

} // verus!
