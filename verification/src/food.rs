//! Food and the spawner that keeps at most one of it alive.
//!
//! The spawner places food on the grid cell of a point drawn at random from
//! the play area.  It does not look at what else occupies that cell: food
//! may appear under the actor or its trail.

use vstd::prelude::*;
use crate::geometry::{Bounds, Point, Position};
use crate::random::draw_in_range;

verus! {

/// A food item.
#[derive(Clone, Copy, Debug, PartialEq, Eq, Structural)]
pub struct Food {
    pub position: Position,
}

impl View for Food {
    type V = Point;

    open spec fn view(&self) -> Point {
        self.position@
    }
}

/// Where food placed from the drawn point `raw` ends up, given what was
/// there before: existing food stays, an empty slot receives food on the
/// grid cell of `raw`.
pub open spec fn placed(food: Option<Point>, raw: Point) -> Option<Point> {
    match food {
        Some(_) => food,
        None => Some(raw.snapped()),
    }
}

/// Owner of the single food slot.
#[derive(Clone, Copy, Debug)]
pub struct FoodSpawner {
    food: Option<Food>,
}

impl View for FoodSpawner {
    type V = Option<Point>;

    closed spec fn view(&self) -> Option<Point> {
        match self.food {
            Some(f) => Some(f@),
            None => None,
        }
    }
}

impl FoodSpawner {
    /// A spawner with no food alive.
    pub fn new() -> (spawner: FoodSpawner)
        ensures
            spawner@ is None,
    {
        FoodSpawner { food: None }
    }

    /// The live food, if any.
    pub fn food(&self) -> (r: Option<Food>)
        ensures
            match r {
                Some(f) => self@ == Some(f@),
                None => self@ is None,
            },
    {
        self.food
    }

    /// Places food on the grid cell of `raw` unless food is already alive.
    pub fn place(&mut self, raw: Position)
        requires
            raw@.snapped().representable(),
        ensures
            final(self)@ == placed(old(self)@, raw@),
    {
        if self.food.is_none() {
            self.food = Some(Food { position: raw.snapped() });
        }
    }

    /// Makes sure food is alive.  With food alive this does nothing;
    /// otherwise it draws a point of the play area at random and places
    /// food on its grid cell.
    pub fn ensure_spawned(&mut self, bounds: &Bounds)
        requires
            bounds.wf(),
        ensures
            old(self)@ is Some ==> final(self)@ == old(self)@,
            old(self)@ is None ==> exists|raw: Point|
                bounds.draws(raw) && final(self)@ == Some(#[trigger] raw.snapped()),
    {
        if self.food.is_none() {
            let half_w: i64 = bounds.half_width_units();
            let half_h: i64 = bounds.half_height_units();
            let raw = Position { x: draw_in_range(-half_w, half_w), y: draw_in_range(-half_h, half_h) };
            self.place(raw);
        }
    }

    /// Destroys the live food, if any, and hands it back.
    pub fn consume(&mut self) -> (eaten: Option<Food>)
        ensures
            final(self)@ is None,
            match eaten {
                Some(f) => old(self)@ == Some(f@),
                None => old(self)@ is None,
            },
    {
        let eaten = self.food;
        self.food = None;
        eaten
    }
}

} // verus!
