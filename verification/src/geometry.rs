//! Directions, grid positions, the overlap test and the play area.

use vstd::prelude::*;

verus! {

/// Side length of one grid cell, in world units.
pub const CELL_SIZE: i64 = 25;

/// One of the four axis-aligned headings.  `Up` points towards larger `y`,
/// `Right` towards larger `x`.
#[derive(Clone, Copy, Debug, PartialEq, Eq, Structural)]
pub enum Direction {
    Up,
    Down,
    Left,
    Right,
}

impl Direction {
    /// The heading that points the other way.
    pub open spec fn reversed(self) -> Direction {
        match self {
            Direction::Up => Direction::Down,
            Direction::Down => Direction::Up,
            Direction::Left => Direction::Right,
            Direction::Right => Direction::Left,
        }
    }

    /// Horizontal component of the unit vector of this heading.
    pub open spec fn dx(self) -> int {
        match self {
            Direction::Left => -1,
            Direction::Right => 1,
            _ => 0,
        }
    }

    /// Vertical component of the unit vector of this heading.
    pub open spec fn dy(self) -> int {
        match self {
            Direction::Up => 1,
            Direction::Down => -1,
            _ => 0,
        }
    }

    /// Returns the heading that points the other way.
    pub fn opposite(self) -> (r: Direction)
        ensures
            r == self.reversed(),
    {
        match self {
            Direction::Up => Direction::Down,
            Direction::Down => Direction::Up,
            Direction::Left => Direction::Right,
            Direction::Right => Direction::Left,
        }
    }

    /// Tells whether `self` is the exact reverse of `other`.
    pub fn is_opposite_of(self, other: Direction) -> (b: bool)
        ensures
            b == (self == other.reversed()),
    {
        self == other.opposite()
    }
}

/// A point of the unbounded mathematical plane: the model of a [`Position`]
/// and, read as a displacement, of a [`crate::projectile::Velocity`].
pub struct Point {
    pub x: int,
    pub y: int,
}

impl Point {
    /// The point `dist` world units away along `heading`.
    pub open spec fn shifted(self, heading: Direction, dist: int) -> Point {
        Point { x: self.x + heading.dx() * dist, y: self.y + heading.dy() * dist }
    }

    /// The point displaced by the vector `by`.
    pub open spec fn plus(self, by: Point) -> Point {
        Point { x: self.x + by.x, y: self.y + by.y }
    }

    /// Whether the cell-sized squares centred on the two points share an
    /// area of positive size.  Squares that only touch along an edge or at a
    /// corner do not overlap.
    pub open spec fn overlaps(self, other: Point) -> bool {
        &&& self.x - other.x < CELL_SIZE
        &&& other.x - self.x < CELL_SIZE
        &&& self.y - other.y < CELL_SIZE
        &&& other.y - self.y < CELL_SIZE
    }

    /// Whether both coordinates fit the machine type of a [`Position`].
    pub open spec fn representable(self) -> bool {
        &&& i64::MIN <= self.x <= i64::MAX
        &&& i64::MIN <= self.y <= i64::MAX
    }

    /// Whether both coordinates are whole multiples of the cell size.
    pub open spec fn aligned(self) -> bool {
        self.x % (CELL_SIZE as int) == 0 && self.y % (CELL_SIZE as int) == 0
    }

    /// The grid point at or below this point on each axis: every coordinate
    /// is rounded down to a multiple of the cell size.
    pub open spec fn snapped(self) -> Point {
        Point { x: snap(self.x), y: snap(self.y) }
    }
}

/// The largest multiple of the cell size that is not above `v`.
pub open spec fn snap(v: int) -> int {
    v - v % (CELL_SIZE as int)
}

/// Snapping rounds down to the grid: the result is a multiple of the cell
/// size, is not above `v`, and is less than one cell below it.
pub proof fn lemma_snap_floor(v: int)
    ensures
        snap(v) % (CELL_SIZE as int) == 0,
        snap(v) <= v < snap(v) + CELL_SIZE,
{
}

/// A position in world units.
#[derive(Clone, Copy, Debug, PartialEq, Eq, Structural)]
pub struct Position {
    pub x: i64,
    pub y: i64,
}

impl View for Position {
    type V = Point;

    open spec fn view(&self) -> Point {
        Point { x: self.x as int, y: self.y as int }
    }
}

impl Position {
    /// The position with the given coordinates.
    pub fn new(x: i64, y: i64) -> (p: Position)
        ensures
            p@ == (Point { x: x as int, y: y as int }),
    {
        Position { x, y }
    }

    /// The position `dist` world units away along `heading`.
    pub fn shifted(self, heading: Direction, dist: i64) -> (p: Position)
        requires
            self@.shifted(heading, dist as int).representable(),
        ensures
            p@ == self@.shifted(heading, dist as int),
    {
        match heading {
            Direction::Up => Position { x: self.x, y: self.y + dist },
            Direction::Down => Position { x: self.x, y: self.y - dist },
            Direction::Left => Position { x: self.x - dist, y: self.y },
            Direction::Right => Position { x: self.x + dist, y: self.y },
        }
    }

    /// Tells whether the move that [`Position::shifted`] would make stays
    /// within the machine range of the coordinates.
    pub fn can_shift(self, heading: Direction, dist: i64) -> (b: bool)
        ensures
            b == self@.shifted(heading, dist as int).representable(),
    {
        let moved: Option<i64> = match heading {
            Direction::Up => self.y.checked_add(dist),
            Direction::Down => self.y.checked_sub(dist),
            Direction::Left => self.x.checked_sub(dist),
            Direction::Right => self.x.checked_add(dist),
        };
        moved.is_some()
    }

    /// Axis-aligned overlap test between the cell-sized squares centred on
    /// the two positions.
    pub fn overlaps(self, other: Position) -> (b: bool)
        ensures
            b == self@.overlaps(other@),
    {
        let dx: i128 = self.x as i128 - other.x as i128;
        let dy: i128 = self.y as i128 - other.y as i128;
        let cell: i128 = CELL_SIZE as i128;
        -cell < dx && dx < cell && -cell < dy && dy < cell
    }

    /// Rounds each coordinate down to a multiple of the cell size.
    pub fn snapped(self) -> (p: Position)
        requires
            self@.snapped().representable(),
        ensures
            p@ == self@.snapped(),
    {
        Position { x: snap_coordinate(self.x), y: snap_coordinate(self.y) }
    }
}

/// Rounds one coordinate down to a multiple of the cell size.
pub fn snap_coordinate(v: i64) -> (r: i64)
    requires
        i64::MIN <= snap(v as int),
    ensures
        r == snap(v as int),
{
    let below: i64 = v % CELL_SIZE;
    if below < 0 {
        v - (below + CELL_SIZE)
    } else {
        v - below
    }
}

/// Why a play area was refused.
#[derive(Clone, Copy, Debug, PartialEq, Eq, Structural)]
pub enum BoundsError {
    /// The width is too small to hold a whole world unit on either side of
    /// the centre.
    Width,
    /// The same, of the height.
    Height,
}

/// The play area: a rectangle centred on the origin, `width` world units
/// wide and `height` high.
#[derive(Clone, Copy, Debug, PartialEq, Eq, Structural)]
pub struct Bounds {
    pub width: u32,
    pub height: u32,
}

impl Bounds {
    /// Distance from the centre to the left and right edges, in whole world
    /// units.
    pub open spec fn half_width(self) -> int {
        self.width as int / 2
    }

    /// Distance from the centre to the top and bottom edges, in whole world
    /// units.
    pub open spec fn half_height(self) -> int {
        self.height as int / 2
    }

    /// The area has room on both axes: neither half extent is zero.
    pub open spec fn wf(self) -> bool {
        self.half_width() >= 1 && self.half_height() >= 1
    }

    /// Whether `p` lies within the area, edges included.
    pub open spec fn contains(self, p: Point) -> bool {
        &&& -self.half_width() <= p.x <= self.half_width()
        &&& -self.half_height() <= p.y <= self.half_height()
    }

    /// Whether `p` is a point that a random placement may draw: within the
    /// area, the right and top edges excluded.
    pub open spec fn draws(self, p: Point) -> bool {
        &&& -self.half_width() <= p.x < self.half_width()
        &&& -self.half_height() <= p.y < self.half_height()
    }

    /// Checks the size of a play area.  An area with a half extent of zero
    /// is refused, the width being looked at first.
    pub fn new(width: u32, height: u32) -> (r: Result<Bounds, BoundsError>)
        ensures
            match r {
                Ok(b) => b.width == width && b.height == height && b.wf(),
                Err(BoundsError::Width) => width < 2,
                Err(BoundsError::Height) => width >= 2 && height < 2,
            },
    {
        if width < 2 {
            Err(BoundsError::Width)
        } else if height < 2 {
            Err(BoundsError::Height)
        } else {
            Ok(Bounds { width, height })
        }
    }

    /// Half of the width, rounded down.
    pub fn half_width_units(&self) -> (r: i64)
        ensures
            r == self.half_width(),
    {
        (self.width / 2) as i64
    }

    /// Half of the height, rounded down.
    pub fn half_height_units(&self) -> (r: i64)
        ensures
            r == self.half_height(),
    {
        (self.height / 2) as i64
    }

    /// Tells whether the area is well formed.
    pub fn is_wf(&self) -> (b: bool)
        ensures
            b == self.wf(),
    {
        self.width >= 2 && self.height >= 2
    }

    /// Tells whether `p` lies within the area, edges included.
    pub fn holds(&self, p: Position) -> (b: bool)
        ensures
            b == self.contains(p@),
    {
        let half_w: i64 = self.half_width_units();
        let half_h: i64 = self.half_height_units();
        -half_w <= p.x && p.x <= half_w && -half_h <= p.y && p.y <= half_h
    }
}

} // verus!
