//! Grid geometry: compass directions and integer grid positions.

use vstd::prelude::*;

verus! {

/// A compass direction of travel. Vehicles keep one direction for life.
#[derive(Debug, Clone, Copy, PartialEq, Eq, Hash, Structural)]
pub enum Direction {
    North,
    South,
    East,
    West,
}

impl Direction {
    /// The direction pointing the opposite way.
    pub open spec fn spec_opposite(self) -> Direction {
        match self {
            Direction::North => Direction::South,
            Direction::South => Direction::North,
            Direction::East => Direction::West,
            Direction::West => Direction::East,
        }
    }

    /// Get the opposite direction.
    pub fn opposite(&self) -> (r: Direction)
        ensures
            r == self.spec_opposite(),
    {
        match self {
            Direction::North => Direction::South,
            Direction::South => Direction::North,
            Direction::East => Direction::West,
            Direction::West => Direction::East,
        }
    }

    /// The two directions orthogonal to this one.
    pub open spec fn spec_perpendicular(self) -> (Direction, Direction) {
        match self {
            Direction::North | Direction::South => (Direction::East, Direction::West),
            Direction::East | Direction::West => (Direction::North, Direction::South),
        }
    }

    /// Get perpendicular directions.
    pub fn perpendicular(&self) -> (r: (Direction, Direction))
        ensures
            r == self.spec_perpendicular(),
    {
        match self {
            Direction::North | Direction::South => (Direction::East, Direction::West),
            Direction::East | Direction::West => (Direction::North, Direction::South),
        }
    }

    /// The unit movement for this direction as `(dx, dy)`.
    /// North decreases `y`, South increases it; East increases `x`.
    pub open spec fn spec_to_delta(self) -> (int, int) {
        match self {
            Direction::North => (0int, -1int),
            Direction::South => (0int, 1int),
            Direction::East => (1int, 0int),
            Direction::West => (-1int, 0int),
        }
    }

    /// Convert to movement deltas `(dx, dy)`.
    pub fn to_delta(&self) -> (r: (i32, i32))
        ensures
            r.0 as int == self.spec_to_delta().0,
            r.1 as int == self.spec_to_delta().1,
    {
        match self {
            Direction::North => (0, -1),
            Direction::South => (0, 1),
            Direction::East => (1, 0),
            Direction::West => (-1, 0),
        }
    }
}

/// Applying `opposite` twice gives the direction back.
pub proof fn lemma_opposite_involution(d: Direction)
    ensures
        d.spec_opposite().spec_opposite() == d,
{
}

/// `perpendicular` returns two distinct directions, neither equal to the
/// direction itself nor to its opposite.
pub proof fn lemma_perpendicular_orthogonal(d: Direction)
    ensures
        d.spec_perpendicular().0 != d,
        d.spec_perpendicular().1 != d,
        d.spec_perpendicular().0 != d.spec_opposite(),
        d.spec_perpendicular().1 != d.spec_opposite(),
        d.spec_perpendicular().0 != d.spec_perpendicular().1,
{
}

/// A position on the integer grid. Copied freely; never mutated in place.
///
/// Coordinates clamp at the representable extremes when stepped, so that a
/// step can never wrap around.
#[derive(Debug, Clone, Copy, PartialEq, Eq, Structural)]
pub struct Position {
    pub x: i32,
    pub y: i32,
}

impl Position {
    pub fn new(x: i32, y: i32) -> (r: Self)
        ensures
            r.x == x,
            r.y == y,
    {
        Self { x, y }
    }

    /// The position one cell away in direction `d`, clamping at the grid edge.
    pub open spec fn spec_step(self, d: Direction) -> Position {
        match d {
            Direction::North => Position {
                x: self.x,
                y: if self.y == i32::MIN { i32::MIN } else { (self.y - 1) as i32 },
            },
            Direction::South => Position {
                x: self.x,
                y: if self.y == i32::MAX { i32::MAX } else { (self.y + 1) as i32 },
            },
            Direction::East => Position {
                x: if self.x == i32::MAX { i32::MAX } else { (self.x + 1) as i32 },
                y: self.y,
            },
            Direction::West => Position {
                x: if self.x == i32::MIN { i32::MIN } else { (self.x - 1) as i32 },
                y: self.y,
            },
        }
    }

    /// Move one step in the given direction.
    pub fn step(&self, direction: Direction) -> (r: Position)
        ensures
            r == self.spec_step(direction),
    {
        match direction {
            Direction::North => Position::new(self.x, if self.y == i32::MIN { i32::MIN } else { self.y - 1 }),
            Direction::South => Position::new(self.x, if self.y == i32::MAX { i32::MAX } else { self.y + 1 }),
            Direction::East => Position::new(if self.x == i32::MAX { i32::MAX } else { self.x + 1 }, self.y),
            Direction::West => Position::new(if self.x == i32::MIN { i32::MIN } else { self.x - 1 }, self.y),
        }
    }

    /// The position after `n` single steps in direction `d`.
    pub open spec fn spec_step_many(self, d: Direction, n: nat) -> Position
        decreases n,
    {
        if n == 0 {
            self
        } else {
            self.spec_step(d).spec_step_many(d, (n - 1) as nat)
        }
    }

    /// The square of the Euclidean distance between two grid positions.
    pub open spec fn spec_distance_squared(self, other: Position) -> int {
        (self.x - other.x) * (self.x - other.x) + (self.y - other.y) * (self.y - other.y)
    }

    /// Squared Euclidean distance to another position. Distance thresholds of
    /// the simulation are compared against this exact integer rather than a
    /// rounded root.
    pub fn distance_squared_to(&self, other: &Position) -> (r: u128)
        ensures
            r as int == self.spec_distance_squared(*other),
    {
        let dx: i128 = self.x as i128 - other.x as i128;
        let dy: i128 = self.y as i128 - other.y as i128;
        proof {
            assert(dx * dx >= 0 && dx * dx <= 0x1_0000_0000_0000_0000i128 * 0x1_0000_0000i128)
                by (nonlinear_arith)
                requires -0x1_0000_0000i128 < dx < 0x1_0000_0000i128;
            assert(dy * dy >= 0 && dy * dy <= 0x1_0000_0000_0000_0000i128 * 0x1_0000_0000i128)
                by (nonlinear_arith)
                requires -0x1_0000_0000i128 < dy < 0x1_0000_0000i128;
        }
        (dx * dx + dy * dy) as u128
    }
}

} // verus!
