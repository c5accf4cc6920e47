//! Grid positions and the four directions of travel.

use vstd::prelude::*;

verus! {

/// A cell of the grid: column `x`, row `y`.
#[derive(Debug, Clone, Copy, PartialEq, Eq, Structural)]
pub struct Position {
    pub x: i32,
    pub y: i32,
}

/// A direction of travel. `Up` is towards row 0, `Left` towards column 0.
#[derive(Debug, Clone, Copy, PartialEq, Eq, Structural)]
pub enum Direction {
    Up,
    Down,
    Left,
    Right,
}

impl Direction {
    /// The geometric opposite of a direction.
    pub open spec fn reverse(self) -> Direction {
        match self {
            Direction::Up => Direction::Down,
            Direction::Down => Direction::Up,
            Direction::Left => Direction::Right,
            Direction::Right => Direction::Left,
        }
    }

    /// Returns the geometric opposite of this direction.
    pub fn opposite(self) -> (d: Direction)
        ensures
            d == self.reverse(),
    {
        match self {
            Direction::Up => Direction::Down,
            Direction::Down => Direction::Up,
            Direction::Left => Direction::Right,
            Direction::Right => Direction::Left,
        }
    }
}

impl Position {
    /// The neighbouring cell one step away in direction `d`.
    pub open spec fn moved(self, d: Direction) -> Position {
        match d {
            Direction::Up => Position { x: self.x, y: (self.y - 1) as i32 },
            Direction::Down => Position { x: self.x, y: (self.y + 1) as i32 },
            Direction::Left => Position { x: (self.x - 1) as i32, y: self.y },
            Direction::Right => Position { x: (self.x + 1) as i32, y: self.y },
        }
    }

    /// Whether `self` comes before `other` when the grid is read row by row,
    /// each row from column 0 upwards.
    pub open spec fn precedes(self, other: Position) -> bool {
        self.y < other.y || (self.y == other.y && self.x < other.x)
    }

    /// Returns the neighbouring cell one step away in direction `d`.
    pub fn step(self, d: Direction) -> (p: Position)
        requires
            d == Direction::Up ==> self.y > i32::MIN,
            d == Direction::Down ==> self.y < i32::MAX,
            d == Direction::Left ==> self.x > i32::MIN,
            d == Direction::Right ==> self.x < i32::MAX,
        ensures
            p == self.moved(d),
    {
        match d {
            Direction::Up => Position { x: self.x, y: self.y - 1 },
            Direction::Down => Position { x: self.x, y: self.y + 1 },
            Direction::Left => Position { x: self.x - 1, y: self.y },
            Direction::Right => Position { x: self.x + 1, y: self.y },
        }
    }
}

} // verus!
