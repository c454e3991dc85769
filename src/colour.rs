use vstd::prelude::*;

verus! {

/// The four block colours.
#[derive(Debug, Clone, Copy, PartialEq, Eq, Structural)]
pub enum Colour {
    Red,
    Blue,
    Green,
    Orange,
}

pub open spec fn colour_index(c: Colour) -> int {
    match c {
        Colour::Red => 0,
        Colour::Blue => 1,
        Colour::Green => 2,
        Colour::Orange => 3,
    }
}

impl Colour {
    pub const TOTAL_COLOURS: u8 = 4;

    /// The next colour in the cycle Red, Blue, Green, Orange.
    pub fn increment(self) -> (r: Self)
        ensures
            colour_index(r) == (colour_index(self) + 1) % 4,
    {
        match self {
            Colour::Red => Colour::Blue,
            Colour::Blue => Colour::Green,
            Colour::Green => Colour::Orange,
            Colour::Orange => Colour::Red,
        }
    }

    /// The number of this colour in the cycle.
    pub fn index(self) -> (r: u8)
        ensures
            r as int == colour_index(self),
    {
        match self {
            Colour::Red => 0,
            Colour::Blue => 1,
            Colour::Green => 2,
            Colour::Orange => 3,
        }
    }
}

impl Default for Colour {
    fn default() -> (r: Self)
        ensures
            r == Colour::Red,
    {
        Colour::Red
    }
}

} // verus!
