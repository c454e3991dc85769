use vstd::prelude::*;

use crate::point::Point;

verus! {

/// A grid of sprite offsets laid out row by row, two bytes per cell, that a
/// renderer draws in one call.
#[derive(Debug)]
pub struct Layer {
    top_left: Point<i32>,
    grid_dimensions: Point<i32>,
    cell_dimensions: Point<i32>,
    dest_cell_dimensions: Point<i32>,
    buffer: Vec<u8>,
}

/// The byte that marks a cell without a sprite.
pub const EMPTY_SPRITE: u8 = 255;

impl Layer {
    pub closed spec fn bytes(&self) -> Seq<u8> {
        self.buffer@
    }

    pub closed spec fn grid(&self) -> Point<i32> {
        self.grid_dimensions
    }

    /// Two bytes for every cell of the grid.
    pub open spec fn capacity(&self) -> int {
        self.grid().0 * self.grid().1 * 2
    }

    pub open spec fn wf(&self) -> bool {
        &&& self.grid().0 >= 0
        &&& self.grid().1 >= 0
        &&& self.capacity() <= i32::MAX
        &&& self.bytes().len() % 2 == 0
        &&& self.bytes().len() <= self.capacity()
    }

    /// An empty layer for a grid of `grid_dimensions` cells.
    pub fn new(
        top_left: Point<i32>,
        grid_dimensions: Point<i32>,
        cell_dimensions: Point<i32>,
        dest_cell_dimensions: Point<i32>,
    ) -> (r: Self)
        requires
            grid_dimensions.0 >= 0,
            grid_dimensions.1 >= 0,
            grid_dimensions.0 * grid_dimensions.1 * 2 <= i32::MAX,
        ensures
            r.wf(),
            r.grid() == grid_dimensions,
            r.bytes() == Seq::<u8>::empty(),
    {
        Layer { top_left, grid_dimensions, cell_dimensions, dest_cell_dimensions, buffer: Vec::new() }
    }

    /// Appends the next cell's sprite offset, or the empty mark.
    pub fn add_cell(&mut self, sprite_offset: Option<Point<u8>>)
        requires
            old(self).wf(),
            old(self).bytes().len() < old(self).capacity(),
        ensures
            final(self).wf(),
            final(self).grid() == old(self).grid(),
            final(self).bytes() == match sprite_offset {
                Some(p) => old(self).bytes().push(p.0).push(p.1),
                None => old(self).bytes().push(EMPTY_SPRITE).push(EMPTY_SPRITE),
            },
    {
        let Point(x, y) = match sprite_offset {
            Some(p) => p,
            None => Point(EMPTY_SPRITE, EMPTY_SPRITE),
        };
        self.buffer.push(x);
        self.buffer.push(y);
    }

    /// The grid cell that the next added sprite goes to.
    pub fn cursor(&self) -> (r: Point<i32>)
        requires
            self.wf(),
            self.grid().0 > 0,
        ensures
            r.0 as int == (self.bytes().len() as int / 2) % (self.grid().0 as int),
            r.1 as int == (self.bytes().len() as int / 2) / (self.grid().0 as int),
    {
        let length = (self.buffer.len() / 2) as i32;
        let x = length % self.grid_dimensions.0;
        let y = (length - x) / self.grid_dimensions.0;
        proof {
            let w = self.grid_dimensions.0 as int;
            let l = length as int;
            vstd::arithmetic::div_mod::lemma_fundamental_div_mod(l, w);
            vstd::arithmetic::div_mod::lemma_div_multiples_vanish(l / w, w);
            assert(l - l % w == w * (l / w));
        }
        Point(x, y)
    }

    /// Whether every cell has its sprite.
    pub fn is_full(&self) -> (r: bool)
        requires
            self.wf(),
        ensures
            r == (self.bytes().len() == self.capacity()),
    {
        let capacity = self.grid_dimensions.0 * self.grid_dimensions.1 * 2;
        self.buffer.len() == capacity as usize
    }

    /// The sprite offsets, two bytes per cell.
    pub fn buffer(&self) -> (r: &Vec<u8>)
        ensures
            r@ == self.bytes(),
    {
        &self.buffer
    }
}

} // verus!
