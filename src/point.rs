use vstd::prelude::*;

use crate::direction::Direction;

verus! {

/// A pair of coordinates: `x` grows to the right, `y` grows downwards.
#[derive(Debug, Clone, Copy, PartialEq, Eq, Hash, Structural)]
pub struct Point<T>(pub T, pub T);

/// One step along a coordinate, wrapping at the ends of the `i32` range so
/// that every cell of the unbounded grid has a neighbour on each side.
pub open spec fn coord_succ(v: i32) -> i32 {
    if v == i32::MAX {
        i32::MIN
    } else {
        (v + 1) as i32
    }
}

pub open spec fn coord_pred(v: i32) -> i32 {
    if v == i32::MIN {
        i32::MAX
    } else {
        (v - 1) as i32
    }
}

/// The neighbouring cell of `p` in direction `d`.
pub open spec fn neighbour(p: Point<i32>, d: Direction) -> Point<i32> {
    match d {
        Direction::Up => Point(p.0, coord_pred(p.1)),
        Direction::Right => Point(coord_succ(p.0), p.1),
        Direction::Down => Point(p.0, coord_succ(p.1)),
        Direction::Left => Point(coord_pred(p.0), p.1),
    }
}

/// The key under which a point is stored: rows first, so that ordered keys
/// come out in raster order.
pub open spec fn point_key(p: Point<i32>) -> (i32, i32) {
    (p.1, p.0)
}

pub open spec fn key_point(k: (i32, i32)) -> Point<i32> {
    Point(k.1, k.0)
}

/// Raster order on points: by row, then by column.
pub open spec fn point_lt(a: Point<i32>, b: Point<i32>) -> bool {
    a.1 < b.1 || (a.1 == b.1 && a.0 < b.0)
}

impl<T: Copy> Point<T> {
    pub fn x(&self) -> (r: T)
        ensures
            r == self.0,
    {
        self.0
    }

    pub fn y(&self) -> (r: T)
        ensures
            r == self.1,
    {
        self.1
    }
}

fn succ(v: i32) -> (r: i32)
    ensures
        r == coord_succ(v),
{
    if v == i32::MAX {
        i32::MIN
    } else {
        v + 1
    }
}

fn pred(v: i32) -> (r: i32)
    ensures
        r == coord_pred(v),
{
    if v == i32::MIN {
        i32::MAX
    } else {
        v - 1
    }
}

impl Point<i32> {
    /// Moves the point one cell in `direction`.
    pub fn increment_2d(&mut self, direction: Direction)
        ensures
            *final(self) == neighbour(*old(self), direction),
    {
        match direction {
            Direction::Up => self.1 = pred(self.1),
            Direction::Right => self.0 = succ(self.0),
            Direction::Down => self.1 = succ(self.1),
            Direction::Left => self.0 = pred(self.0),
        }
    }

    /// The neighbouring point in `direction`.
    pub fn step(self, direction: Direction) -> (r: Point<i32>)
        ensures
            r == neighbour(self, direction),
    {
        let mut p = self;
        p.increment_2d(direction);
        p
    }

    /// Whether the point lies in the rectangle from the origin spanning
    /// `dimensions`.
    pub fn is_inside(self, dimensions: Point<i32>) -> (r: bool)
        ensures
            r == (0 <= self.0 < dimensions.0 && 0 <= self.1 < dimensions.1),
    {
        self.x() >= 0 && self.x() < dimensions.x() && self.y() >= 0 && self.y() < dimensions.y()
    }

    /// The storage key of the point (row, column).
    pub fn key(self) -> (r: (i32, i32))
        ensures
            r == point_key(self),
    {
        (self.1, self.0)
    }
}

/// Stepping to a neighbour and back in the opposite direction returns to the
/// start, and a neighbour is never the cell itself.
pub proof fn lemma_neighbour_opposite(p: Point<i32>, d: Direction)
    ensures
        neighbour(neighbour(p, d), crate::direction::spec_opposite(d)) == p,
        neighbour(p, d) != p,
{
}

/// The four neighbours of a cell are pairwise distinct.
pub proof fn lemma_neighbours_distinct(p: Point<i32>, d: Direction, e: Direction)
    ensures
        d != e ==> neighbour(p, d) != neighbour(p, e),
{
}

} // verus!
