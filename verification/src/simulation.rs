//! The engine: the state of one game and the operations that drive it.
//!
//! A caller feeds the engine the player's input ([`Simulation::request`],
//! [`Simulation::fire`]), one [`Simulation::frame`] per rendered frame, and
//! a call of [`Simulation::ensure_spawned`] whenever food may be missing.
//! Everything the engine does is stated over [`SimState`], the model of the
//! game.

use vstd::prelude::*;
use crate::actor::SnakeActor;
use crate::clock::{GameClock, MIN_INTERVAL};
use crate::controller::DirectionController;
use crate::food::{Food, FoodSpawner};
use crate::geometry::{Bounds, Direction, Point, Position, CELL_SIZE};
use crate::laws::{
    feeding_keeps_wf, flight_keeps_wf, frame_keeps_wf, move_keeps_wf, tick_keeps_wf,
    trail_within_length,
};
use crate::projectile::{shots_of, Projectile, ProjectileSubsystem, PROJECTILE_SPEED};
use crate::scoring::Score;
use crate::state::SimState;
use crate::trail::{segments_of, BodySegment, BodyTrail};

verus! {

/// One game of snake.
#[derive(Debug)]
pub struct Simulation {
    actor: SnakeActor,
    controller: DirectionController,
    trail: BodyTrail,
    spawner: FoodSpawner,
    projectiles: ProjectileSubsystem,
    clock: GameClock,
    score: Score,
    hostile: bool,
}

impl View for Simulation {
    type V = SimState;

    closed spec fn view(&self) -> SimState {
        SimState {
            actor: self.actor@,
            pending: self.controller.pending,
            trail: self.trail@,
            food: self.spawner@,
            shots: self.projectiles@,
            clock: self.clock@,
            score: self.score.value as nat,
            hostile: self.hostile,
        }
    }
}

impl Simulation {
    /// A fresh game around the given clock.
    fn around(hostile: bool, clock: GameClock) -> (sim: Simulation)
        requires
            clock@.elapsed == 0,
            !clock@.paused,
        ensures
            sim@ == SimState::starting(hostile, clock@.interval),
    {
        Simulation {
            actor: SnakeActor::new(),
            controller: DirectionController::new(Direction::Left),
            trail: BodyTrail::new(),
            spawner: FoodSpawner::new(),
            projectiles: ProjectileSubsystem::new(),
            clock,
            score: Score::new(),
            hostile,
        }
    }

    /// A fresh game: the actor three long on the origin, facing left, no
    /// trail, no food, no projectiles, no points, and the clock running at
    /// its initial interval.  `hostile` decides whether a projectile that
    /// overlaps the head ends the game.
    pub fn new(hostile: bool) -> (sim: Simulation)
        ensures
            sim@ == SimState::initial(hostile),
            sim@.wf(),
    {
        Simulation::around(hostile, GameClock::initial())
    }

    /// A fresh game whose clock starts at `interval` nanoseconds between
    /// ticks.  An interval below the floor of the clock is refused.
    pub fn with_interval(hostile: bool, interval: u64) -> (r: Option<Simulation>)
        ensures
            r is Some <==> interval >= MIN_INTERVAL,
            r matches Some(sim) ==> sim@ == SimState::starting(hostile, interval as nat) && sim@.wf(),
    {
        match GameClock::new(interval) {
            Some(clock) => Some(Simulation::around(hostile, clock)),
            None => None,
        }
    }

    /// Where the head is.
    pub fn head(&self) -> (p: Position)
        ensures
            p@ == self@.actor.position,
    {
        self.actor.position
    }

    /// How long the actor is.
    pub fn length(&self) -> (n: u32)
        ensures
            n == self@.actor.length,
    {
        self.actor.length
    }

    /// The heading the actor has committed to.
    pub fn facing(&self) -> (d: Direction)
        ensures
            d == self@.actor.facing,
    {
        self.actor.facing
    }

    /// The heading most recently asked for.
    pub fn pending(&self) -> (d: Direction)
        ensures
            d == self@.pending,
    {
        self.controller.pending
    }

    /// The live segments of the trail, oldest first.
    pub fn segments(&self) -> (r: &Vec<BodySegment>)
        ensures
            segments_of(r@) == self@.trail,
    {
        self.trail.segments()
    }

    /// The live food, if any.
    pub fn food(&self) -> (r: Option<Food>)
        ensures
            match r {
                Some(f) => self@.food == Some(f@),
                None => self@.food is None,
            },
    {
        self.spawner.food()
    }

    /// The live projectiles, in firing order.
    pub fn projectiles(&self) -> (r: &Vec<Projectile>)
        ensures
            shots_of(r@) == self@.shots,
    {
        self.projectiles.projectiles()
    }

    /// Number of food items eaten so far.
    pub fn score(&self) -> (n: u64)
        ensures
            n == self@.score,
    {
        self.score.value
    }

    /// Time between two ticks, in nanoseconds.
    pub fn interval(&self) -> (n: u64)
        ensures
            n == self@.clock.interval,
    {
        self.clock.interval()
    }

    /// Whether a fatal collision has ended the game.
    pub fn is_halted(&self) -> (b: bool)
        ensures
            b == self@.halted(),
    {
        self.clock.is_paused()
    }

    /// Whether a projectile that overlaps the head ends the game.
    pub fn is_hostile(&self) -> (b: bool)
        ensures
            b == self@.hostile,
    {
        self.hostile
    }

    /// Records `direction` as the heading the player wants next.
    pub fn request(&mut self, direction: Direction)
        ensures
            final(self)@ == old(self)@.requested(direction),
            old(self)@.wf() ==> final(self)@.wf(),
    {
        if !self.clock.is_paused() {
            self.controller.request(direction);
        }
    }

    /// Tells whether [`Simulation::fire`] may be called.
    pub fn can_fire(&self) -> (b: bool)
        ensures
            b == self@.can_fire(),
    {
        self.clock.is_paused() || self.actor.position.can_shift(
            self.actor.facing,
            CELL_SIZE + PROJECTILE_SPEED,
        )
    }

    /// Fires a projectile from the head along the heading the actor faces.
    pub fn fire(&mut self)
        requires
            old(self)@.wf(),
            old(self)@.can_fire(),
        ensures
            final(self)@ == old(self)@.fired(),
            final(self)@.wf(),
    {
        if !self.clock.is_paused() {
            self.projectiles.fire(self.actor.position, self.actor.facing);
        }
    }

    /// Places food on the grid cell of `raw` unless food is alive already.
    pub fn spawn_food_at(&mut self, raw: Position)
        requires
            raw@.snapped().representable(),
        ensures
            final(self)@ == old(self)@.spawned_at(raw@),
            old(self)@.wf() ==> final(self)@.wf(),
    {
        if !self.clock.is_paused() {
            self.spawner.place(raw);
        }
    }

    /// Makes sure food is alive.  With food alive, or the game halted,
    /// nothing happens.  Otherwise food appears on the grid cell of a point
    /// drawn at random from the play area.
    pub fn ensure_spawned(&mut self, bounds: &Bounds)
        requires
            bounds.wf(),
        ensures
            old(self)@.halted() || old(self)@.food is Some ==> final(self)@ == old(self)@,
            !old(self)@.halted() && old(self)@.food is None ==> exists|raw: Point|
                bounds.draws(raw) && final(self)@ == #[trigger] old(self)@.spawned_at(raw),
            old(self)@.wf() ==> final(self)@.wf(),
    {
        if !self.clock.is_paused() {
            self.spawner.ensure_spawned(bounds);
            proof {
                if old(self)@.food is None {
                    let raw = choose|raw: Point|
                        bounds.draws(raw) && self.spawner@ == Some(#[trigger] raw.snapped());
                    assert(self@ == old(self)@.spawned_at(raw));
                }
            }
        }
    }

    /// Tells whether [`Simulation::tick`] and [`Simulation::frame`] may be
    /// called.
    pub fn has_headroom(&self) -> (b: bool)
        ensures
            b == self@.has_headroom(),
    {
        if self.clock.is_paused() {
            return true;
        }
        let heading: Direction = self.controller.resolve(self.actor.facing);
        let room_to_move: bool = self.actor.position.can_shift(heading, CELL_SIZE);
        let room_to_grow: bool = self.spawner.food().is_none() || self.actor.length < u32::MAX;
        room_to_move && room_to_grow
    }

    /// Tells whether the head overlaps the food.
    pub fn food_reached(&self) -> (b: bool)
        ensures
            b == self@.food_reached(),
    {
        match self.spawner.food() {
            Some(f) => self.actor.position.overlaps(f.position),
            None => false,
        }
    }

    /// Tells whether a projectile overlaps the food.
    pub fn food_struck(&self) -> (b: bool)
        ensures
            b == self@.food_struck(),
    {
        match self.spawner.food() {
            Some(f) => self.projectiles.strikes(f.position),
            None => false,
        }
    }

    /// Tells whether a hostile projectile overlaps the head.
    pub fn shot(&self) -> (b: bool)
        ensures
            b == self@.shot(),
    {
        self.hostile && self.projectiles.strikes(self.actor.position)
    }

    /// Processes one food-eaten event: the food is destroyed, the actor
    /// grows by one, every segment gains a tick, a point is scored and the
    /// clock speeds up.
    fn feed(&mut self)
        requires
            old(self)@.wf(),
            old(self)@.actor.length < u32::MAX,
        ensures
            final(self)@ == old(self)@.fed(),
            final(self)@.wf(),
    {
        proof {
            feeding_keeps_wf(self@);
        }
        self.actor.grow();
        self.trail.extend();
        self.spawner.consume();
        self.clock.speed_up();
        self.score.award();
    }

    /// Delivers one tick: the actor commits to a heading and moves one
    /// cell, the trail decays and gains a segment, food is eaten and a fatal
    /// collision halts the game.  A halted game is left as it is.
    pub fn tick(&mut self)
        requires
            old(self)@.wf(),
            old(self)@.has_headroom(),
        ensures
            final(self)@ == old(self)@.ticked(),
            final(self)@.wf(),
            old(self)@.halted() ==> final(self)@ == old(self)@,
            final(self)@.actor.facing != old(self)@.actor.facing.reversed(),
            final(self)@.trail.len() <= final(self)@.actor.length,
    {
        proof {
            tick_keeps_wf(self@);
            trail_within_length(self@.ticked());
        }
        if self.clock.is_paused() {
            return;
        }
        proof {
            move_keeps_wf(self@);
        }
        let heading: Direction = self.controller.resolve(self.actor.facing);
        let origin: Position = self.actor.position;
        let hit_body: bool = self.trail.touches(origin.shifted(heading, CELL_SIZE));
        self.trail.age();
        self.trail.emit(origin, self.actor.length);
        self.actor.step(heading);
        let eaten: bool = self.food_reached() || self.food_struck();
        let hit_shot: bool = self.shot();
        if eaten {
            self.feed();
        }
        if hit_body || hit_shot {
            self.clock.pause();
        }
    }

    /// Runs one frame that lasted `delta` nanoseconds in the play area
    /// `bounds`: the projectiles fly and are culled, what they hit is
    /// judged, and the clock is fed `delta`; if it fires, one tick follows.
    /// A halted game is left as it is.
    pub fn frame(&mut self, delta: u64, bounds: &Bounds)
        requires
            old(self)@.wf(),
            old(self)@.has_headroom(),
        ensures
            final(self)@ == old(self)@.framed(delta as nat, *bounds),
            final(self)@.wf(),
            old(self)@.halted() ==> final(self)@ == old(self)@,
            final(self)@.actor.facing != old(self)@.actor.facing.reversed(),
            final(self)@.trail.len() <= final(self)@.actor.length,
    {
        proof {
            frame_keeps_wf(self@, delta as nat, *bounds);
            trail_within_length(self@.framed(delta as nat, *bounds));
        }
        if self.clock.is_paused() {
            return;
        }
        proof {
            flight_keeps_wf(self@, *bounds);
        }
        self.projectiles.advance();
        self.projectiles.cull(bounds);
        let struck: bool = self.food_struck();
        let hit_shot: bool = self.shot();
        if struck {
            self.feed();
        }
        if hit_shot {
            self.clock.pause();
        }
        let fired: bool = self.clock.tick(delta);
        if fired {
            self.tick();
        }
    }
}

} // verus!
