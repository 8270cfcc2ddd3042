//! The value types of the game: status, heading and grid coordinate.

use vstd::prelude::*;
use vstd::std_specs::cmp::PartialEqSpecImpl;
use vstd::std_specs::ops::AddSpecImpl;

verus! {

/// Tracks the game state.
#[derive(Clone, Copy, Debug, PartialEq, Eq, Structural)]
pub enum State {
    Playing,
    Paused,
    Over,
    Win,
}

/// Track player movement direction.
#[derive(Clone, Copy, Debug, PartialEq, Eq, Structural)]
pub enum Direction {
    Up,
    Down,
    Right,
    Left,
}

/// A coordinate on the game grid: `0` is the column, `1` the row, and rows
/// grow downward.
#[derive(Copy, Clone, Debug)]
pub struct Coordinate(pub i32, pub i32);

impl Direction {
    /// The heading that points the other way.
    pub open spec fn opposite(self) -> Direction {
        match self {
            Direction::Up => Direction::Down,
            Direction::Down => Direction::Up,
            Direction::Right => Direction::Left,
            Direction::Left => Direction::Right,
        }
    }

    /// The offset of one step in this heading. Rows grow downward, so a
    /// step up lowers the row.
    pub open spec fn step(self) -> Coordinate {
        match self {
            Direction::Up => Coordinate(0, -1i32),
            Direction::Down => Coordinate(0, 1),
            Direction::Right => Coordinate(1, 0),
            Direction::Left => Coordinate(-1i32, 0),
        }
    }

    /// The unit vector of one step in this heading.
    pub fn unit_vector(self) -> (v: Coordinate)
        ensures
            v == self.step(),
    {
        match self {
            Direction::Up => Coordinate(0, -1),
            Direction::Down => Coordinate(0, 1),
            Direction::Right => Coordinate(1, 0),
            Direction::Left => Coordinate(-1, 0),
        }
    }
}

impl Coordinate {
    /// Whether the component-wise sum of `self` and `rhs` fits the
    /// coordinate type.
    pub open spec fn can_add(self, rhs: Coordinate) -> bool {
        &&& i32::MIN <= self.0 + rhs.0 <= i32::MAX
        &&& i32::MIN <= self.1 + rhs.1 <= i32::MAX
    }

    /// The component-wise sum of `self` and `rhs`.
    pub open spec fn plus(self, rhs: Coordinate) -> Coordinate {
        Coordinate((self.0 + rhs.0) as i32, (self.1 + rhs.1) as i32)
    }
}

impl core::ops::Add<Coordinate> for Coordinate {
    type Output = Coordinate;

    /// Add two coordinates together.
    fn add(self, rhs: Coordinate) -> (sum: Coordinate) {
        Coordinate(self.0 + rhs.0, self.1 + rhs.1)
    }
}

impl AddSpecImpl<Coordinate> for Coordinate {
    open spec fn obeys_add_spec() -> bool {
        true
    }

    open spec fn add_req(self, rhs: Coordinate) -> bool {
        self.can_add(rhs)
    }

    open spec fn add_spec(self, rhs: Coordinate) -> Coordinate {
        self.plus(rhs)
    }
}

impl PartialEq for Coordinate {
    /// Compare two coordinates for equality.
    fn eq(&self, other: &Self) -> (equal: bool) {
        self.0 == other.0 && self.1 == other.1
    }
}

impl PartialEqSpecImpl for Coordinate {
    open spec fn obeys_eq_spec() -> bool {
        true
    }

    open spec fn eq_spec(&self, other: &Self) -> bool {
        self.0 == other.0 && self.1 == other.1
    }
}

} // verus!
