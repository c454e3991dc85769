use vstd::prelude::*;

use crate::direction::Direction;

verus! {

/// Which of the four neighbours of a cell are of the same kind, one bit per
/// direction. It only selects a connected graphic.
#[derive(Debug, Clone, Copy, PartialEq, Eq, Structural)]
pub struct Surroundings(u8);

pub open spec fn direction_bit(d: Direction) -> u8 {
    match d {
        Direction::Up => 1u8,
        Direction::Right => 2u8,
        Direction::Down => 4u8,
        Direction::Left => 8u8,
    }
}

impl Surroundings {
    /// The raw mask.
    pub closed spec fn mask(self) -> u8 {
        self.0
    }

    /// Whether the neighbour in direction `d` is marked as of the same kind.
    pub open spec fn has(self, d: Direction) -> bool {
        self.mask() & direction_bit(d) != 0
    }

    /// The mask fits in four bits.
    pub open spec fn wf(self) -> bool {
        self.mask() <= 15
    }

    /// The mask with the bit of direction `d` set to `value`.
    pub closed spec fn with(self, d: Direction, value: bool) -> Surroundings {
        if value {
            Surroundings(self.0 | direction_bit(d))
        } else {
            Surroundings(self.0 & !direction_bit(d))
        }
    }

    /// The empty mask.
    pub closed spec fn spec_empty() -> Surroundings {
        Surroundings(0)
    }

    /// An empty mask: no neighbour of the same kind.
    pub fn new() -> (r: Self)
        ensures
            r == Surroundings::spec_empty(),
            r.mask() == 0,
            forall|d: Direction| !r.has(d),
    {
        assert forall|d: Direction| !Surroundings(0).has(d) by {
            let b = direction_bit(d);
            assert(0u8 & b == 0) by (bit_vector);
        }
        Surroundings(0)
    }

    /// Sets the bit of `direction` to `value`.
    pub fn set_surround(&mut self, direction: Direction, value: bool)
        ensures
            *final(self) == old(self).with(direction, value),
    {
        let bit: u8 = match direction {
            Direction::Up => 1,
            Direction::Right => 2,
            Direction::Down => 4,
            Direction::Left => 8,
        };
        if value {
            self.0 = self.0 | bit;
        } else {
            self.0 = self.0 & !bit;
        }
    }

    /// Whether the neighbour in `direction` is marked as of the same kind.
    pub fn is_adjacent(&self, direction: Direction) -> (r: bool)
        ensures
            r == self.has(direction),
    {
        let bit: u8 = match direction {
            Direction::Up => 1,
            Direction::Right => 2,
            Direction::Down => 4,
            Direction::Left => 8,
        };
        self.0 & bit != 0
    }

    /// The mask as a number below sixteen, which picks the graphic.
    pub fn bits(self) -> (r: u8)
        ensures
            r == self.mask(),
    {
        self.0
    }

    /// Setting one bit sets that bit, keeps the others and keeps the mask in
    /// four bits.
    pub proof fn lemma_with(self, d: Direction, value: bool)
        ensures
            self.with(d, value).has(d) == value,
            forall|e: Direction| e != d ==> self.with(d, value).has(e) == self.has(e),
            self.wf() ==> self.with(d, value).wf(),
    {
        let m = self.0;
        let b = direction_bit(d);
        assert((m | b) & b != 0 && (m & !b) & b == 0) by (bit_vector)
            requires
                b == 1u8 || b == 2u8 || b == 4u8 || b == 8u8,
        ;
        assert(m <= 15 ==> (m | b) <= 15 && (m & !b) <= 15) by (bit_vector)
            requires
                b == 1u8 || b == 2u8 || b == 4u8 || b == 8u8,
        ;
        assert forall|e: Direction| e != d implies self.with(d, value).has(e) == self.has(e) by {
            let c = direction_bit(e);
            assert(c != b);
            assert((m | b) & c == m & c && (m & !b) & c == m & c) by (bit_vector)
                requires
                    b == 1u8 || b == 2u8 || b == 4u8 || b == 8u8,
                    c == 1u8 || c == 2u8 || c == 4u8 || c == 8u8,
                    b != c,
            ;
        }
    }
}

} // verus!
