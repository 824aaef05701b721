//! The direction controller: holds the most recently requested heading and
//! decides, once per tick, which heading the actor commits to.
//!
//! A request to reverse straight into the actor's own body is kept in the
//! pending slot like any other request, but it is never committed: every
//! tick passes it over and keeps the current heading until a later request
//! replaces it.

use vstd::prelude::*;
use crate::geometry::Direction;

verus! {

/// The heading that a tick commits to: the pending one, unless that is the
/// exact reverse of the heading the actor already has.
pub open spec fn resolved(pending: Direction, facing: Direction) -> Direction {
    if pending == facing.reversed() {
        facing
    } else {
        pending
    }
}

/// Holds the pending heading.
#[derive(Clone, Copy, Debug, PartialEq, Eq, Structural)]
pub struct DirectionController {
    /// The most recently requested heading.
    pub pending: Direction,
}

impl DirectionController {
    /// A controller whose pending heading is `initial`.
    pub fn new(initial: Direction) -> (c: DirectionController)
        ensures
            c.pending == initial,
    {
        DirectionController { pending: initial }
    }

    /// Records `direction` as the pending heading, replacing any earlier
    /// request.
    pub fn request(&mut self, direction: Direction)
        ensures
            final(self).pending == direction,
    {
        self.pending = direction;
    }

    /// The heading to commit to for an actor that currently faces `facing`.
    pub fn resolve(&self, facing: Direction) -> (r: Direction)
        ensures
            r == resolved(self.pending, facing),
    {
        if self.pending.is_opposite_of(facing) {
            facing
        } else {
            self.pending
        }
    }
}

} // verus!
