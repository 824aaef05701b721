//! The score: one point per food eaten.

use vstd::prelude::*;

verus! {

/// Number of food items eaten so far.
#[derive(Clone, Copy, Debug, PartialEq, Eq, Structural)]
pub struct Score {
    pub value: u64,
}

impl Score {
    /// The score at the start of a game.
    pub fn new() -> (score: Score)
        ensures
            score.value == 0,
    {
        Score { value: 0 }
    }

    /// Adds one point.
    pub fn award(&mut self)
        requires
            old(self).value < u64::MAX,
        ensures
            final(self).value == old(self).value + 1,
    {
        self.value = self.value + 1;
    }
}

} // verus!
