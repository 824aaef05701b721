//! The mathematical model of a whole game and of every step it can take.
//!
//! A [`SimState`] is the state of a game with unbounded integers in place
//! of machine ones.  Each operation of the engine is described here as a
//! function from state to state; the executable engine is proved to follow
//! these functions step for step.
//!
//! Two orders are fixed here and hold throughout.
//!
//! Within a tick the head moves first and the collisions are judged after.
//! The trail is judged as it stood when the tick began: a segment on its
//! last tick is still solid for the head that moves during that tick, and
//! is gone only once the tick is over.
//!
//! A halted game is final.  Every operation leaves it exactly as it was.

use vstd::prelude::*;
use crate::actor::{Actor, INITIAL_LENGTH};
use crate::clock::{ClockState, INITIAL_INTERVAL};
use crate::controller::resolved;
use crate::food::placed;
use crate::geometry::{Bounds, Direction, Point, CELL_SIZE};
use crate::projectile::{all_poised, culled, flown, launched, strikes, Shot};
use crate::trail::{aged, extended, ordered, touches, Segment};

verus! {

/// Model of a [`crate::simulation::Simulation`].
pub struct SimState {
    pub actor: Actor,
    /// The heading most recently asked for.
    pub pending: Direction,
    /// Live segments, oldest first.
    pub trail: Seq<Segment>,
    /// Where the live food is, if there is any.
    pub food: Option<Point>,
    /// Live projectiles, in firing order.
    pub shots: Seq<Shot>,
    pub clock: ClockState,
    /// Number of food items eaten.
    pub score: nat,
    /// Whether a projectile that overlaps the head is fatal.
    pub hostile: bool,
}

impl SimState {
    /// The state of a game that starts with the given interval between
    /// ticks: the actor as it starts out, no request but for the heading it
    /// faces, no trail, no food, no projectiles, no points, and the clock
    /// running with nothing gathered.
    pub open spec fn starting(hostile: bool, interval: nat) -> SimState {
        SimState {
            actor: Actor::initial(),
            pending: Direction::Left,
            trail: Seq::empty(),
            food: None,
            shots: Seq::empty(),
            clock: ClockState { interval, elapsed: 0, paused: false },
            score: 0,
            hostile,
        }
    }

    /// The state a game starts in when nothing else is asked for.
    pub open spec fn initial(hostile: bool) -> SimState {
        SimState::starting(hostile, INITIAL_INTERVAL as nat)
    }

    /// What holds of every state a game can reach: the actor is as long as
    /// it was at the start plus one per food eaten; the trail has the shape
    /// that an actor of this length leaves; the clock's interval is at or
    /// above its floor; every projectile can be advanced by one frame.
    pub open spec fn wf(self) -> bool {
        &&& self.actor.length == INITIAL_LENGTH + self.score
        &&& ordered(self.trail, self.actor.length)
        &&& self.clock.wf()
        &&& all_poised(self.shots)
    }

    /// Whether a fatal collision has ended the game.
    pub open spec fn halted(self) -> bool {
        self.clock.paused
    }

    /// The state after a request for `direction`.
    pub open spec fn requested(self, direction: Direction) -> SimState {
        if self.halted() {
            self
        } else {
            SimState { pending: direction, ..self }
        }
    }

    /// The state after the actor has fired along the heading it faces.
    pub open spec fn fired(self) -> SimState {
        if self.halted() {
            self
        } else {
            SimState {
                shots: self.shots.push(launched(self.actor.position, self.actor.facing)),
                ..self
            }
        }
    }

    /// The state after food has been offered on the grid cell of `raw`.
    pub open spec fn spawned_at(self, raw: Point) -> SimState {
        if self.halted() {
            self
        } else {
            SimState { food: placed(self.food, raw), ..self }
        }
    }

    /// The heading the next tick commits to.
    pub open spec fn next_facing(self) -> Direction {
        resolved(self.pending, self.actor.facing)
    }

    /// The cell the next tick moves the head to.
    pub open spec fn next_head(self) -> Point {
        self.actor.position.shifted(self.next_facing(), CELL_SIZE as int)
    }

    /// The movement half of a tick: the trail decays by one tick and gains
    /// a segment where the head was, set to live as many ticks as the actor
    /// is long; the actor commits to its next heading and moves one cell.
    pub open spec fn moved(self) -> SimState {
        SimState {
            actor: self.actor.stepped(self.next_facing()),
            trail: aged(self.trail).push(
                Segment { position: self.actor.position, ttl: self.actor.length },
            ),
            ..self
        }
    }

    /// Whether the head overlaps the food.
    pub open spec fn food_reached(self) -> bool {
        self.food matches Some(f) && self.actor.position.overlaps(f)
    }

    /// Whether a projectile overlaps the food.
    pub open spec fn food_struck(self) -> bool {
        self.food matches Some(f) && strikes(self.shots, f)
    }

    /// Whether a hostile projectile overlaps the head.
    pub open spec fn shot(self) -> bool {
        self.hostile && strikes(self.shots, self.actor.position)
    }

    /// The state after a food-eaten event: the food is gone, the actor is
    /// one longer, every segment has one more tick to live, the score is
    /// one higher and the clock runs faster.
    pub open spec fn fed(self) -> SimState {
        SimState {
            actor: self.actor.grown(),
            trail: extended(self.trail),
            food: None,
            clock: self.clock.sped_up(),
            score: self.score + 1,
            ..self
        }
    }

    /// The state after a fatal collision.
    pub open spec fn stopped(self) -> SimState {
        SimState { clock: self.clock.stopped(), ..self }
    }

    /// The state after one tick.  A halted game does not change.
    /// Otherwise the actor moves; then food that the head or a projectile
    /// overlaps is eaten; then the game halts if the head has run into a
    /// segment that was alive when the tick began, or into a hostile
    /// projectile.  Eating and halting can both happen in one tick.
    pub open spec fn ticked(self) -> SimState {
        if self.halted() {
            self
        } else {
            let moved = self.moved();
            let scored = if moved.food_reached() || moved.food_struck() {
                moved.fed()
            } else {
                moved
            };
            if touches(self.trail, moved.actor.position) || moved.shot() {
                scored.stopped()
            } else {
                scored
            }
        }
    }

    /// The projectile half of a frame: every projectile moves by its
    /// velocity, and those that are then outside the play area are gone.
    pub open spec fn flown(self, bounds: Bounds) -> SimState {
        SimState { shots: culled(flown(self.shots), bounds), ..self }
    }

    /// The state after one frame that lasted `delta` nanoseconds.  A halted
    /// game does not change.  Otherwise the projectiles fly; then food that
    /// a projectile overlaps is eaten, and the game halts if a hostile
    /// projectile overlaps the head; then the clock is fed `delta`, and if
    /// it fires, one tick follows.
    pub open spec fn framed(self, delta: nat, bounds: Bounds) -> SimState {
        if self.halted() {
            self
        } else {
            let flown = self.flown(bounds);
            let scored = if flown.food_struck() {
                flown.fed()
            } else {
                flown
            };
            let judged = if flown.shot() {
                scored.stopped()
            } else {
                scored
            };
            let clocked = SimState { clock: judged.clock.ticked(delta), ..judged };
            if judged.clock.fires(delta) {
                clocked.ticked()
            } else {
                clocked
            }
        }
    }

    /// Whether the machine types have room for the next tick or frame: the
    /// cell the head would move to is representable, and while food is
    /// alive the length can still grow by one.  A halted game needs no
    /// room.
    pub open spec fn has_headroom(self) -> bool {
        self.halted() || (self.next_head().representable() && (self.food is Some
            ==> self.actor.length < u32::MAX))
    }

    /// Whether the machine types have room for the projectile that firing
    /// now would create, and for its first frame of flight.  A halted game
    /// needs no room.
    pub open spec fn can_fire(self) -> bool {
        self.halted() || launched(self.actor.position, self.actor.facing).poised()
    }
}

} // verus!
