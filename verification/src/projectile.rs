//! Projectiles: fired from a cell along a heading, moved by their velocity
//! once per frame, and dropped when they leave the play area.

use vstd::prelude::*;
use crate::geometry::{Bounds, Direction, Point, Position, CELL_SIZE};

verus! {

/// Distance a fired projectile covers per frame, in world units.
pub const PROJECTILE_SPEED: i64 = 15;

/// Model of a [`Projectile`].
pub struct Shot {
    pub position: Point,
    /// Displacement per frame.
    pub velocity: Point,
}

impl Shot {
    /// The shot one frame later.
    pub open spec fn advanced(self) -> Shot {
        Shot { position: self.position.plus(self.velocity), velocity: self.velocity }
    }

    /// Whether the shot moves no faster on either axis than a fired
    /// projectile does.
    pub open spec fn paced(self) -> bool {
        &&& -PROJECTILE_SPEED <= self.velocity.x <= PROJECTILE_SPEED
        &&& -PROJECTILE_SPEED <= self.velocity.y <= PROJECTILE_SPEED
    }

    /// Whether the shot can be advanced by one frame: it is paced, and
    /// where it lands fits the machine type of a [`Position`].
    pub open spec fn poised(self) -> bool {
        self.paced() && self.advanced().position.representable()
    }
}

/// The velocity of a projectile fired along `facing`: the projectile speed
/// times the unit vector of the heading.
pub open spec fn muzzle_velocity(facing: Direction) -> Point {
    Point { x: facing.dx() * PROJECTILE_SPEED, y: facing.dy() * PROJECTILE_SPEED }
}

/// The shot that firing from `origin` along `facing` creates: one cell
/// beyond `origin`, moving at the projectile speed along `facing`.
pub open spec fn launched(origin: Point, facing: Direction) -> Shot {
    Shot { position: origin.shifted(facing, CELL_SIZE as int), velocity: muzzle_velocity(facing) }
}

/// A displacement per frame, in world units.
#[derive(Clone, Copy, Debug, PartialEq, Eq, Structural)]
pub struct Velocity {
    pub x: i64,
    pub y: i64,
}

impl View for Velocity {
    type V = Point;

    open spec fn view(&self) -> Point {
        Point { x: self.x as int, y: self.y as int }
    }
}

impl Velocity {
    /// The velocity of a projectile fired along `facing`.
    pub fn along(facing: Direction) -> (v: Velocity)
        ensures
            v@ == muzzle_velocity(facing),
    {
        match facing {
            Direction::Up => Velocity { x: 0, y: PROJECTILE_SPEED },
            Direction::Down => Velocity { x: 0, y: -PROJECTILE_SPEED },
            Direction::Left => Velocity { x: -PROJECTILE_SPEED, y: 0 },
            Direction::Right => Velocity { x: PROJECTILE_SPEED, y: 0 },
        }
    }
}

/// A moving projectile.
#[derive(Clone, Copy, Debug, PartialEq, Eq, Structural)]
pub struct Projectile {
    pub position: Position,
    pub velocity: Velocity,
}

impl View for Projectile {
    type V = Shot;

    open spec fn view(&self) -> Shot {
        Shot { position: self.position@, velocity: self.velocity@ }
    }
}

impl Projectile {
    /// The projectile that firing from `origin` along `facing` creates.
    pub fn launch(origin: Position, facing: Direction) -> (p: Projectile)
        requires
            launched(origin@, facing).position.representable(),
        ensures
            p@ == launched(origin@, facing),
    {
        Projectile { position: origin.shifted(facing, CELL_SIZE), velocity: Velocity::along(facing) }
    }

    /// Moves the projectile by its velocity.
    pub fn advance(&mut self)
        requires
            old(self)@.advanced().position.representable(),
        ensures
            final(self)@ == old(self)@.advanced(),
    {
        self.position = Position {
            x: self.position.x + self.velocity.x,
            y: self.position.y + self.velocity.y,
        };
    }
}

/// The models of a sequence of projectiles, in the same order.
pub open spec fn shots_of(projectiles: Seq<Projectile>) -> Seq<Shot> {
    projectiles.map_values(|p: Projectile| p@)
}

/// All shots one frame later.
pub open spec fn flown(shots: Seq<Shot>) -> Seq<Shot> {
    shots.map_values(|s: Shot| s.advanced())
}

/// The shots that are within the play area, in their old order.
pub open spec fn culled(shots: Seq<Shot>, bounds: Bounds) -> Seq<Shot> {
    shots.filter(|s: Shot| bounds.contains(s.position))
}

/// Whether some shot overlaps the cell at `target`.
pub open spec fn strikes(shots: Seq<Shot>, target: Point) -> bool {
    exists|i: int| 0 <= i < shots.len() && (#[trigger] shots[i]).position.overlaps(target)
}

/// Whether every shot can be advanced by one frame.
pub open spec fn all_poised(shots: Seq<Shot>) -> bool {
    forall|i: int| 0 <= i < shots.len() ==> (#[trigger] shots[i]).poised()
}

/// Culling a sequence that ends in `s` culls what came before and then
/// keeps `s` exactly when it is within the play area.
pub proof fn lemma_culled_push(shots: Seq<Shot>, s: Shot, bounds: Bounds)
    ensures
        culled(shots.push(s), bounds) == if bounds.contains(s.position) {
            culled(shots, bounds).push(s)
        } else {
            culled(shots, bounds)
        },
{
    reveal(Seq::filter);
    assert(shots.push(s).drop_last() =~= shots);
}

/// Of paced shots, those that culling to a play area keeps can all be
/// advanced by one frame.
pub proof fn lemma_culled_poised(shots: Seq<Shot>, bounds: Bounds)
    requires
        forall|i: int| 0 <= i < shots.len() ==> (#[trigger] shots[i]).paced(),
    ensures
        all_poised(culled(shots, bounds)),
    decreases shots.len(),
{
    if shots.len() == 0 {
        reveal(Seq::filter);
    } else {
        let front = shots.drop_last();
        let s = shots.last();
        assert(shots =~= front.push(s));
        lemma_culled_poised(front, bounds);
        lemma_culled_push(front, s, bounds);
    }
}

/// The live projectiles, in the order in which they were fired.
#[derive(Debug)]
pub struct ProjectileSubsystem {
    projectiles: Vec<Projectile>,
}

impl View for ProjectileSubsystem {
    type V = Seq<Shot>;

    closed spec fn view(&self) -> Seq<Shot> {
        shots_of(self.projectiles@)
    }
}

impl ProjectileSubsystem {
    /// A subsystem without projectiles.
    pub fn new() -> (subsystem: ProjectileSubsystem)
        ensures
            subsystem@ == Seq::<Shot>::empty(),
    {
        ProjectileSubsystem { projectiles: Vec::new() }
    }

    /// Number of live projectiles.
    pub fn len(&self) -> (n: usize)
        ensures
            n == self@.len(),
    {
        self.projectiles.len()
    }

    /// The live projectiles, in the order in which they were fired.
    pub fn projectiles(&self) -> (r: &Vec<Projectile>)
        ensures
            shots_of(r@) == self@,
    {
        &self.projectiles
    }

    /// Creates a projectile one cell beyond `origin` along `facing`.
    pub fn fire(&mut self, origin: Position, facing: Direction)
        requires
            launched(origin@, facing).position.representable(),
        ensures
            final(self)@ == old(self)@.push(launched(origin@, facing)),
    {
        self.projectiles.push(Projectile::launch(origin, facing));
    }

    /// Moves every projectile by its velocity.
    pub fn advance(&mut self)
        requires
            forall|i: int|
                0 <= i < old(self)@.len() ==> (#[trigger] old(self)@[i]).advanced().position.representable(),
        ensures
            final(self)@ == flown(old(self)@),
    {
        let mut i: usize = 0;
        while i < self.projectiles.len()
            invariant
                i <= self.projectiles.len(),
                self.projectiles.len() == old(self).projectiles.len(),
                forall|k: int|
                    0 <= k < i ==> (#[trigger] self.projectiles[k])@
                        == old(self).projectiles[k]@.advanced(),
                forall|k: int|
                    i <= k < self.projectiles.len() ==> (#[trigger] self.projectiles[k])
                        == old(self).projectiles[k],
                forall|k: int|
                    0 <= k < old(self)@.len() ==> (#[trigger] old(self)@[k]).advanced().position.representable(),
            decreases self.projectiles.len() - i,
        {
            let mut p: Projectile = self.projectiles[i];
            assert(old(self)@[i as int] == p@);
            p.advance();
            self.projectiles.set(i, p);
            i += 1;
        }
    }

    /// Drops every projectile that has left the play area.
    pub fn cull(&mut self, bounds: &Bounds)
        ensures
            final(self)@ == culled(old(self)@, *bounds),
    {
        let mut kept: Vec<Projectile> = Vec::new();
        let mut i: usize = 0;
        proof {
            reveal(Seq::filter);
        }
        while i < self.projectiles.len()
            invariant
                i <= self.projectiles.len(),
                self.projectiles == old(self).projectiles,
                shots_of(kept@) == culled(shots_of(self.projectiles@.take(i as int)), *bounds),
            decreases self.projectiles.len() - i,
        {
            let p: Projectile = self.projectiles[i];
            proof {
                let before = self.projectiles@.take(i as int);
                assert(self.projectiles@.take(i + 1) =~= before.push(p));
                assert(shots_of(before.push(p)) =~= shots_of(before).push(p@));
                lemma_culled_push(shots_of(before), p@, *bounds);
            }
            if bounds.holds(p.position) {
                kept.push(p);
            }
            i += 1;
        }
        assert(self.projectiles@.take(i as int) =~= self.projectiles@);
        self.projectiles = kept;
    }

    /// Tells whether some projectile overlaps the cell at `target`.
    pub fn strikes(&self, target: Position) -> (b: bool)
        ensures
            b == strikes(self@, target@),
    {
        let mut i: usize = 0;
        while i < self.projectiles.len()
            invariant
                i <= self.projectiles.len(),
                forall|k: int| 0 <= k < i ==> !(#[trigger] self@[k]).position.overlaps(target@),
            decreases self.projectiles.len() - i,
        {
            if self.projectiles[i].position.overlaps(target) {
                assert(self@[i as int].position.overlaps(target@));
                return true;
            }
            i += 1;
        }
        false
    }
}

} // verus!
