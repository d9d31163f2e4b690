//! Positions on the grid and the four directions between neighbours.

use vstd::prelude::*;

verus! {

/// A point of the square grid on which the core is laid out.
#[derive(Clone, Copy, Debug, PartialEq, Eq, Structural, Hash)]
pub struct Position {
    pub x: i32,
    pub y: i32,
}

/// One of the four axis-aligned directions in which a cell can have a neighbour.
#[derive(Clone, Copy, Debug, PartialEq, Eq, Structural)]
pub enum Direction {
    Up,
    Down,
    Left,
    Right,
}

impl Direction {
    /// Change of the `x` coordinate on one step in this direction.
    pub open spec fn dx(self) -> int {
        match self {
            Direction::Left => -1,
            Direction::Right => 1,
            _ => 0,
        }
    }

    /// Change of the `y` coordinate on one step in this direction.
    pub open spec fn dy(self) -> int {
        match self {
            Direction::Up => 1,
            Direction::Down => -1,
            _ => 0,
        }
    }

    /// The direction that undoes a step in this one.
    pub open spec fn spec_opposite(self) -> Direction {
        match self {
            Direction::Up => Direction::Down,
            Direction::Down => Direction::Up,
            Direction::Left => Direction::Right,
            Direction::Right => Direction::Left,
        }
    }

    /// The direction that undoes a step in this one.
    #[verifier::when_used_as_spec(spec_opposite)]
    pub fn opposite(self) -> (r: Direction)
        ensures
            r == self.spec_opposite(),
    {
        match self {
            Direction::Up => Direction::Down,
            Direction::Down => Direction::Up,
            Direction::Left => Direction::Right,
            Direction::Right => Direction::Left,
        }
    }
}

impl Position {
    /// The point with the given coordinates.
    pub fn new(x: i32, y: i32) -> (p: Position)
        ensures
            p.x == x,
            p.y == y,
    {
        Position { x, y }
    }

    /// Whether the point one step away in direction `d` still has
    /// representable coordinates.
    pub open spec fn has_neighbour(self, d: Direction) -> bool {
        &&& i32::MIN <= self.x + d.dx() <= i32::MAX
        &&& i32::MIN <= self.y + d.dy() <= i32::MAX
    }

    /// The point one step away in direction `d`.
    pub open spec fn step(self, d: Direction) -> Position
        recommends
            self.has_neighbour(d),
    {
        Position { x: (self.x + d.dx()) as i32, y: (self.y + d.dy()) as i32 }
    }

    /// Whether all four neighbours have representable coordinates.
    pub open spec fn is_interior(self) -> bool {
        &&& i32::MIN < self.x < i32::MAX
        &&& i32::MIN < self.y < i32::MAX
    }

    /// Whether `other` lies exactly one step from `self` along one axis.
    pub open spec fn spec_is_adjacent(self, other: Position) -> bool {
        ||| (self.y == other.y && (self.x - other.x == 1 || other.x - self.x == 1))
        ||| (self.x == other.x && (self.y - other.y == 1 || other.y - self.y == 1))
    }

    /// The neighbour in direction `d`, or `None` at the edge of the
    /// coordinate range.
    pub fn neighbour(&self, d: Direction) -> (r: Option<Position>)
        ensures
            r == (if self.has_neighbour(d) {
                Some(self.step(d))
            } else {
                None::<Position>
            }),
    {
        match d {
            Direction::Up => if self.y < i32::MAX {
                Some(Position { x: self.x, y: self.y + 1 })
            } else {
                None
            },
            Direction::Down => if self.y > i32::MIN {
                Some(Position { x: self.x, y: self.y - 1 })
            } else {
                None
            },
            Direction::Left => if self.x > i32::MIN {
                Some(Position { x: self.x - 1, y: self.y })
            } else {
                None
            },
            Direction::Right => if self.x < i32::MAX {
                Some(Position { x: self.x + 1, y: self.y })
            } else {
                None
            },
        }
    }

    /// The four neighbours, in the order up, down, left, right.
    pub fn neighbours(&self) -> (r: [Position; 4])
        requires
            self.is_interior(),
        ensures
            r[0] == self.step(Direction::Up),
            r[1] == self.step(Direction::Down),
            r[2] == self.step(Direction::Left),
            r[3] == self.step(Direction::Right),
    {
        [
            Position { x: self.x, y: self.y + 1 },
            Position { x: self.x, y: self.y - 1 },
            Position { x: self.x - 1, y: self.y },
            Position { x: self.x + 1, y: self.y },
        ]
    }

    /// Whether `other` lies exactly one step from `self` along one axis.
    #[verifier::when_used_as_spec(spec_is_adjacent)]
    pub fn is_adjacent(self, other: Position) -> (r: bool)
        ensures
            r == self.spec_is_adjacent(other),
    {
        let dx: i64 = self.x as i64 - other.x as i64;
        let dy: i64 = self.y as i64 - other.y as i64;
        (dy == 0 && (dx == 1 || dx == -1)) || (dx == 0 && (dy == 1 || dy == -1))
    }
}

/// A step and the step back lead to the starting point.
pub proof fn step_there_and_back(p: Position, d: Direction)
    requires
        p.has_neighbour(d),
    ensures
        p.step(d).has_neighbour(d.opposite()),
        p.step(d).step(d.opposite()) == p,
{
}

/// Two points are adjacent exactly when one step in some direction leads
/// from the first to the second.
pub proof fn adjacent_iff_one_step(a: Position, b: Position)
    ensures
        a.is_adjacent(b) <==> exists|d: Direction| a.has_neighbour(d) && a.step(d) == b,
{
    if a.is_adjacent(b) {
        let d = if b.x - a.x == 1 {
            Direction::Right
        } else if a.x - b.x == 1 {
            Direction::Left
        } else if b.y - a.y == 1 {
            Direction::Up
        } else {
            Direction::Down
        };
        assert(a.has_neighbour(d) && a.step(d) == b);
    }
}

/// Adjacency does not depend on the order of the two points.
pub proof fn adjacency_is_symmetric(a: Position, b: Position)
    ensures
        a.is_adjacent(b) == b.is_adjacent(a),
{
}

} // verus!
