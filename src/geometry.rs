use vstd::prelude::*;

verus! {

/// A two-dimensional extent: a canvas in pixels, or one cell of the grid.
#[derive(Clone, Copy, Debug, PartialEq, Eq, Structural)]
pub struct Size {
    pub w: i32,
    pub h: i32,
}

/// A cell of the grid (or, once scaled, a pixel offset on the canvas).
#[derive(Clone, Copy, Debug, PartialEq, Eq, Structural)]
pub struct Position {
    pub x: i32,
    pub y: i32,
}

/// True when the component-wise sum of `a` and `b` fits in `i32`.
pub open spec fn sum_fits(a: Position, b: Position) -> bool {
    i32::MIN <= a.x + b.x <= i32::MAX && i32::MIN <= a.y + b.y <= i32::MAX
}

impl std::ops::Add for Position {
    type Output = Position;

    fn add(self, rhs: Position) -> (r: Position) {
        Position { x: self.x + rhs.x, y: self.y + rhs.y }
    }
}

impl vstd::std_specs::ops::AddSpecImpl for Position {
    open spec fn obeys_add_spec() -> bool {
        true
    }

    open spec fn add_req(self, rhs: Position) -> bool {
        sum_fits(self, rhs)
    }

    open spec fn add_spec(self, rhs: Position) -> Position {
        Position { x: (self.x + rhs.x) as i32, y: (self.y + rhs.y) as i32 }
    }
}

/// One of the four directions in which the snake can head.
#[derive(Clone, Copy, Debug, PartialEq, Eq, Structural)]
pub enum Direction {
    Up,
    Down,
    Left,
    Right,
}

/// The unit step of a direction, as `(dx, dy)`; `y` grows downwards.
pub open spec fn unit_shift(d: Direction) -> (int, int) {
    match d {
        Direction::Up => (0, -1),
        Direction::Down => (0, 1),
        Direction::Left => (-1, 0),
        Direction::Right => (1, 0),
    }
}

/// The direction that points the other way.
pub open spec fn opposite(d: Direction) -> Direction {
    match d {
        Direction::Up => Direction::Down,
        Direction::Down => Direction::Up,
        Direction::Left => Direction::Right,
        Direction::Right => Direction::Left,
    }
}

impl Direction {
    /// The unit step of this direction as a grid offset.
    pub fn shift(self) -> (r: Position)
        ensures
            (r.x as int, r.y as int) == unit_shift(self),
    {
        match self {
            Direction::Up => Position { x: 0, y: -1 },
            Direction::Down => Position { x: 0, y: 1 },
            Direction::Left => Position { x: -1, y: 0 },
            Direction::Right => Position { x: 1, y: 0 },
        }
    }

    /// Whether `self` points exactly against `other`.
    pub fn is_reverse_of(self, other: Direction) -> (r: bool)
        ensures
            r == (self == opposite(other)),
    {
        match (self, other) {
            (Direction::Up, Direction::Down) => true,
            (Direction::Down, Direction::Up) => true,
            (Direction::Left, Direction::Right) => true,
            (Direction::Right, Direction::Left) => true,
            _ => false,
        }
    }
}

/// Reversal is symmetric, and a reversal is exactly a step that cancels the
/// previous one: two directions are opposite if and only if their unit
/// steps sum to zero.
pub proof fn lemma_opposite_cancels(a: Direction, b: Direction)
    ensures
        (a == opposite(b)) <==> (b == opposite(a)),
        (a == opposite(b)) <==> (unit_shift(a).0 == -unit_shift(b).0 && unit_shift(a).1
            == -unit_shift(b).1),
{
}

} // verus!
