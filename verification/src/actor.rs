//! The snake actor: its length, the heading it has committed to, and the
//! cell its head is on.

use vstd::prelude::*;
use crate::geometry::{Direction, Point, Position, CELL_SIZE};

verus! {

/// Length of the actor at the start of a game.
pub const INITIAL_LENGTH: u32 = 3;

/// Model of a [`SnakeActor`].
pub struct Actor {
    pub length: nat,
    pub facing: Direction,
    pub position: Point,
}

impl Actor {
    /// The actor at the start of a game: three long, facing left, with its
    /// head on the origin.
    pub open spec fn initial() -> Actor {
        Actor {
            length: INITIAL_LENGTH as nat,
            facing: Direction::Left,
            position: Point { x: 0, y: 0 },
        }
    }

    /// The actor after committing to `heading` and moving one cell along
    /// it.
    pub open spec fn stepped(self, heading: Direction) -> Actor {
        Actor {
            length: self.length,
            facing: heading,
            position: self.position.shifted(heading, CELL_SIZE as int),
        }
    }

    /// The actor after growing by one.
    pub open spec fn grown(self) -> Actor {
        Actor { length: self.length + 1, facing: self.facing, position: self.position }
    }
}

/// The one controllable actor of the game.
#[derive(Clone, Copy, Debug, PartialEq, Eq, Structural)]
pub struct SnakeActor {
    /// Number of ticks that a segment emitted now will live; at least 1.
    pub length: u32,
    /// The heading committed to by the last tick.
    pub facing: Direction,
    /// Where the head is.
    pub position: Position,
}

impl View for SnakeActor {
    type V = Actor;

    open spec fn view(&self) -> Actor {
        Actor { length: self.length as nat, facing: self.facing, position: self.position@ }
    }
}

impl SnakeActor {
    /// The actor at the start of a game.
    pub fn new() -> (actor: SnakeActor)
        ensures
            actor@ == Actor::initial(),
    {
        SnakeActor { length: INITIAL_LENGTH, facing: Direction::Left, position: Position { x: 0, y: 0 } }
    }

    /// Commits to `heading` and moves the head one cell along it.
    pub fn step(&mut self, heading: Direction)
        requires
            old(self)@.stepped(heading).position.representable(),
        ensures
            final(self)@ == old(self)@.stepped(heading),
    {
        self.facing = heading;
        self.position = self.position.shifted(heading, CELL_SIZE);
    }

    /// Grows the actor by one.
    pub fn grow(&mut self)
        requires
            old(self).length < u32::MAX,
        ensures
            final(self)@ == old(self)@.grown(),
    {
        self.length = self.length + 1;
    }
}

} // verus!
