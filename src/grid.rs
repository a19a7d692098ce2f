//! Grid cells, directions and toroidal wrap-around.

use vstd::prelude::*;

verus! {

/// Largest width or height a grid may have; keeps every wrap computation in `i32`.
pub const MAX_SIDE: i32 = 1_000_000;

/// Width, in cells, of the standard board.
pub const GRID_WIDTH: i32 = 14;

/// Height, in cells, of the standard board.
pub const GRID_HEIGHT: i32 = 10;

/// A grid cell identified by its column `x` and row `y`.
#[derive(Clone, Copy, Debug, PartialEq, Eq, Structural)]
pub struct Coordinate {
    pub x: i32,
    pub y: i32,
}

impl Coordinate {
    pub fn new(x: i32, y: i32) -> (r: Coordinate)
        ensures
            r.x == x,
            r.y == y,
    {
        Coordinate { x, y }
    }

    /// Component-wise sum of two coordinates.
    pub fn add(self, other: Coordinate) -> (r: Coordinate)
        requires
            i32::MIN <= self.x + other.x <= i32::MAX,
            i32::MIN <= self.y + other.y <= i32::MAX,
        ensures
            r.x == self.x + other.x,
            r.y == self.y + other.y,
    {
        Coordinate { x: self.x + other.x, y: self.y + other.y }
    }
}

/// One of the four directions the snake can travel in.
#[derive(Clone, Copy, Debug, PartialEq, Eq, Structural)]
pub enum Direction {
    Left,
    Right,
    Up,
    Down,
}

impl Direction {
    pub open spec fn opposite_spec(self) -> Direction {
        match self {
            Direction::Left => Direction::Right,
            Direction::Right => Direction::Left,
            Direction::Up => Direction::Down,
            Direction::Down => Direction::Up,
        }
    }

    pub open spec fn dx(self) -> int {
        match self {
            Direction::Left => -1,
            Direction::Right => 1,
            _ => 0,
        }
    }

    pub open spec fn dy(self) -> int {
        match self {
            Direction::Up => 1,
            Direction::Down => -1,
            _ => 0,
        }
    }

    /// The direction that points the other way.
    pub fn opposite(self) -> (r: Direction)
        ensures
            r == self.opposite_spec(),
    {
        match self {
            Direction::Left => Direction::Right,
            Direction::Right => Direction::Left,
            Direction::Up => Direction::Down,
            Direction::Down => Direction::Up,
        }
    }

    /// The unit step of this direction: Up is `(0, 1)`, Down `(0, -1)`,
    /// Left `(-1, 0)` and Right `(1, 0)`.
    pub fn vector(self) -> (r: Coordinate)
        ensures
            r.x == self.dx(),
            r.y == self.dy(),
    {
        match self {
            Direction::Up => Coordinate::new(0, 1),
            Direction::Down => Coordinate::new(0, -1),
            Direction::Left => Coordinate::new(-1, 0),
            Direction::Right => Coordinate::new(1, 0),
        }
    }
}

/// Size of a toroidal board in cells.
#[derive(Clone, Copy, Debug, PartialEq, Eq, Structural)]
pub struct Grid {
    pub width: i32,
    pub height: i32,
}

/// `(v + m) mod m`, taken as a non-negative remainder.
pub open spec fn wrap_axis(v: int, m: int) -> int {
    (v + m) % m
}

impl Grid {
    pub open spec fn wf(self) -> bool {
        0 < self.width <= MAX_SIDE && 0 < self.height <= MAX_SIDE
    }

    pub open spec fn contains_spec(self, c: Coordinate) -> bool {
        0 <= c.x < self.width && 0 <= c.y < self.height
    }

    /// The cell that `(x, y)` lands on once wrapped around the board.
    pub open spec fn wrap_spec(self, x: int, y: int) -> Coordinate {
        Coordinate {
            x: wrap_axis(x, self.width as int) as i32,
            y: wrap_axis(y, self.height as int) as i32,
        }
    }

    /// A board of `width` by `height` cells; `None` when a side is not in `1..=MAX_SIDE`.
    pub fn new(width: i32, height: i32) -> (r: Option<Grid>)
        ensures
            r matches Some(g) ==> g.wf() && g.width == width && g.height == height,
            r is None <==> !(0 < width <= MAX_SIDE && 0 < height <= MAX_SIDE),
    {
        if 0 < width && width <= MAX_SIDE && 0 < height && height <= MAX_SIDE {
            Some(Grid { width, height })
        } else {
            None
        }
    }

    /// The standard board of `GRID_WIDTH` by `GRID_HEIGHT` cells.
    pub fn standard() -> (r: Grid)
        ensures
            r.wf(),
            r.width == GRID_WIDTH,
            r.height == GRID_HEIGHT,
    {
        Grid { width: GRID_WIDTH, height: GRID_HEIGHT }
    }

    /// Whether `c` is a cell of this board.
    pub fn contains(&self, c: Coordinate) -> (r: bool)
        ensures
            r == self.contains_spec(c),
    {
        0 <= c.x && c.x < self.width && 0 <= c.y && c.y < self.height
    }

    /// The cell `((c.x + W) mod W, (c.y + H) mod H)`, for a point at most one board
    /// width (height) left of (below) the board.
    pub fn wrap(&self, c: Coordinate) -> (r: Coordinate)
        requires
            self.wf(),
            -self.width <= c.x <= 2 * MAX_SIDE,
            -self.height <= c.y <= 2 * MAX_SIDE,
        ensures
            r == self.wrap_spec(c.x as int, c.y as int),
            self.contains_spec(r),
    {
        let x = (c.x + self.width) % self.width;
        let y = (c.y + self.height) % self.height;
        Coordinate { x, y }
    }

    /// The neighbour of `c` one step in direction `d`, wrapped around the board.
    pub fn neighbour(&self, c: Coordinate, d: Direction) -> (r: Coordinate)
        requires
            self.wf(),
            self.contains_spec(c),
        ensures
            r == self.wrap_spec(c.x + d.dx(), c.y + d.dy()),
            self.contains_spec(r),
    {
        self.wrap(c.add(d.vector()))
    }
}

/// Wrapping any point, in particular a cell moved one step in any direction, gives a
/// cell of the board.
pub proof fn lemma_wrap_in_grid(g: Grid, c: Coordinate, d: Direction)
    requires
        g.wf(),
    ensures
        g.contains_spec(g.wrap_spec(c.x + d.dx(), c.y + d.dy())),
{
}

} // verus!
