use vstd::prelude::*;

verus! {

/// A compass direction. Directions are numbered clockwise from `Up`.
#[derive(Debug, Clone, Copy, PartialEq, Eq, Structural)]
pub enum Direction {
    Up,
    Right,
    Down,
    Left,
}

/// The number of a direction, counted clockwise from `Up`.
pub open spec fn direction_index(d: Direction) -> int {
    match d {
        Direction::Up => 0,
        Direction::Right => 1,
        Direction::Down => 2,
        Direction::Left => 3,
    }
}

/// The direction with the given number, taken modulo four.
pub open spec fn direction_of_index(i: int) -> Direction {
    let r = i % 4;
    if r == 0 {
        Direction::Up
    } else if r == 1 {
        Direction::Right
    } else if r == 2 {
        Direction::Down
    } else {
        Direction::Left
    }
}

pub open spec fn spec_increment(d: Direction) -> Direction {
    direction_of_index(direction_index(d) + 1)
}

pub open spec fn spec_decrement(d: Direction) -> Direction {
    direction_of_index(direction_index(d) + 3)
}

pub open spec fn spec_opposite(d: Direction) -> Direction {
    direction_of_index(direction_index(d) + 2)
}

impl Direction {
    pub const TOTAL_DIRECTIONS: u8 = 4;

    /// A quarter turn clockwise.
    pub fn increment(self) -> (r: Self)
        ensures
            r == spec_increment(self),
    {
        match self {
            Direction::Up => Direction::Right,
            Direction::Right => Direction::Down,
            Direction::Down => Direction::Left,
            Direction::Left => Direction::Up,
        }
    }

    /// A quarter turn anticlockwise.
    pub fn decrement(self) -> (r: Self)
        ensures
            r == spec_decrement(self),
    {
        match self {
            Direction::Up => Direction::Left,
            Direction::Right => Direction::Up,
            Direction::Down => Direction::Right,
            Direction::Left => Direction::Down,
        }
    }

    /// A half turn.
    pub fn opposite(self) -> (r: Self)
        ensures
            r == spec_opposite(self),
    {
        match self {
            Direction::Up => Direction::Down,
            Direction::Right => Direction::Left,
            Direction::Down => Direction::Up,
            Direction::Left => Direction::Right,
        }
    }

    /// The number of this direction, counted clockwise from `Up`.
    pub fn index(self) -> (r: u8)
        ensures
            r as int == direction_index(self),
    {
        match self {
            Direction::Up => 0,
            Direction::Right => 1,
            Direction::Down => 2,
            Direction::Left => 3,
        }
    }
}

impl Default for Direction {
    fn default() -> (r: Self)
        ensures
            r == Direction::Up,
    {
        Direction::Up
    }
}

} // verus!
