use vstd::prelude::*;

use crate::cell_type::{CellCursorEntry, PaletteResult};
use crate::colour::Colour;
use crate::point::Point;
use crate::surroundings::Surroundings;

verus! {

/// The kinds of cell on the map that links the levels.
#[derive(Debug, Clone, Copy, PartialEq, Eq, Structural)]
pub enum OverworldCellType {
    Empty,
    Fence,
    Wall,
    BlockedPath,
    ClearPath,
    Level0,
    Level1,
    Level2,
    Level3,
    Level4,
    Level5,
    Level6,
    Level7,
    Finish,
}

/// A cell of the map that links the levels.
#[derive(Debug, Clone, Copy, PartialEq, Eq, Structural)]
pub enum OverworldCell {
    Empty,
    Fence(Surroundings),
    Wall(Surroundings),
    BlockedPath(Surroundings),
    ClearPath(Surroundings),
    Level(u8, Colour),
    Finish,
}

/// The map's palette in display order.
pub open spec fn overworld_palette() -> Seq<OverworldCellType> {
    seq![
        OverworldCellType::Empty,
        OverworldCellType::Fence,
        OverworldCellType::Wall,
        OverworldCellType::BlockedPath,
        OverworldCellType::ClearPath,
        OverworldCellType::Finish,
        OverworldCellType::Level0,
        OverworldCellType::Level1,
        OverworldCellType::Level2,
        OverworldCellType::Level3,
        OverworldCellType::Level4,
        OverworldCellType::Level5,
        OverworldCellType::Level6,
        OverworldCellType::Level7,
    ]
}

impl OverworldCellType {
    /// The palette entry of a kind of map cell.
    pub fn entry(self) -> (r: CellCursorEntry<OverworldCellType>)
        ensures
            r.value == self,
    {
        match self {
            OverworldCellType::Empty => CellCursorEntry::new(self, Point(8, 0), false, false),
            OverworldCellType::Fence => CellCursorEntry::new(self, Point(0, 14), false, false),
            OverworldCellType::Wall => CellCursorEntry::new(self, Point(0, 15), false, false),
            OverworldCellType::BlockedPath => CellCursorEntry::new(self, Point(0, 8), false, false),
            OverworldCellType::ClearPath => CellCursorEntry::new(self, Point(0, 9), false, false),
            OverworldCellType::Level0 => CellCursorEntry::new(self, Point(0, 16), true, false),
            OverworldCellType::Level1 => CellCursorEntry::new(self, Point(0, 17), true, false),
            OverworldCellType::Level2 => CellCursorEntry::new(self, Point(0, 18), true, false),
            OverworldCellType::Level3 => CellCursorEntry::new(self, Point(0, 19), true, false),
            OverworldCellType::Level4 => CellCursorEntry::new(self, Point(4, 16), true, false),
            OverworldCellType::Level5 => CellCursorEntry::new(self, Point(4, 17), true, false),
            OverworldCellType::Level6 => CellCursorEntry::new(self, Point(4, 18), true, false),
            OverworldCellType::Level7 => CellCursorEntry::new(self, Point(4, 19), true, false),
            OverworldCellType::Finish => CellCursorEntry::new(self, Point(4, 1), false, false),
        }
    }

    /// The map editor's palette: every kind, in palette order.
    pub fn full_palette() -> (r: Vec<CellCursorEntry<Self>>)
        ensures
            r@.len() == overworld_palette().len(),
            forall|i: int| 0 <= i < r@.len() ==> #[trigger] r@[i].value == overworld_palette()[i],
    {
        let kinds = [
            OverworldCellType::Empty,
            OverworldCellType::Fence,
            OverworldCellType::Wall,
            OverworldCellType::BlockedPath,
            OverworldCellType::ClearPath,
            OverworldCellType::Finish,
            OverworldCellType::Level0,
            OverworldCellType::Level1,
            OverworldCellType::Level2,
            OverworldCellType::Level3,
            OverworldCellType::Level4,
            OverworldCellType::Level5,
            OverworldCellType::Level6,
            OverworldCellType::Level7,
        ];
        assert(kinds@ == overworld_palette());
        let mut r: Vec<CellCursorEntry<Self>> = Vec::new();
        let mut i: usize = 0;
        while i < 14
            invariant
                i <= 14,
                kinds@ == overworld_palette(),
                r@.len() == i,
                forall|j: int| 0 <= j < i ==> #[trigger] r@[j].value == overworld_palette()[j],
            decreases 14 - i,
        {
            r.push(kinds[i].entry());
            i = i + 1;
        }
        r
    }
}

/// The map cell that an editor choice stands for.
pub open spec fn spec_overworld_from_palette(p: PaletteResult<OverworldCellType>) -> OverworldCell {
    match p.0 {
        OverworldCellType::Empty => OverworldCell::Empty,
        OverworldCellType::Fence => OverworldCell::Fence(Surroundings::spec_empty()),
        OverworldCellType::Wall => OverworldCell::Wall(Surroundings::spec_empty()),
        OverworldCellType::BlockedPath => OverworldCell::BlockedPath(Surroundings::spec_empty()),
        OverworldCellType::ClearPath => OverworldCell::ClearPath(Surroundings::spec_empty()),
        OverworldCellType::Finish => OverworldCell::Finish,
        OverworldCellType::Level0 => OverworldCell::Level(0, p.1),
        OverworldCellType::Level1 => OverworldCell::Level(1, p.1),
        OverworldCellType::Level2 => OverworldCell::Level(2, p.1),
        OverworldCellType::Level3 => OverworldCell::Level(3, p.1),
        OverworldCellType::Level4 => OverworldCell::Level(4, p.1),
        OverworldCellType::Level5 => OverworldCell::Level(5, p.1),
        OverworldCellType::Level6 => OverworldCell::Level(6, p.1),
        OverworldCellType::Level7 => OverworldCell::Level(7, p.1),
    }
}

impl OverworldCell {
    /// Whether the player cannot walk onto the cell: only paths, level
    /// entrances and the finish are open.
    pub fn is_solid_to_cows(&self) -> (r: bool)
        ensures
            r == (*self is Empty || *self is Fence || *self is Wall || *self is BlockedPath),
    {
        match self {
            OverworldCell::Empty => true,
            OverworldCell::Fence(_) => true,
            OverworldCell::Wall(_) => true,
            OverworldCell::BlockedPath(_) => true,
            OverworldCell::ClearPath(_) => false,
            OverworldCell::Level(_, _) => false,
            OverworldCell::Finish => false,
        }
    }

    /// Whether finishing a level may open the cell.
    pub fn can_be_cleared(&self) -> (r: bool)
        ensures
            r == (*self is BlockedPath),
    {
        match self {
            OverworldCell::BlockedPath(_) => true,
            _ => false,
        }
    }

    pub fn from_palette(p: PaletteResult<OverworldCellType>) -> (r: Self)
        ensures
            r == spec_overworld_from_palette(p),
    {
        let PaletteResult(cell_type, colour, _) = p;
        match cell_type {
            OverworldCellType::Empty => OverworldCell::Empty,
            OverworldCellType::Fence => OverworldCell::Fence(Surroundings::new()),
            OverworldCellType::Wall => OverworldCell::Wall(Surroundings::new()),
            OverworldCellType::BlockedPath => OverworldCell::BlockedPath(Surroundings::new()),
            OverworldCellType::ClearPath => OverworldCell::ClearPath(Surroundings::new()),
            OverworldCellType::Finish => OverworldCell::Finish,
            OverworldCellType::Level0 => OverworldCell::Level(0, colour),
            OverworldCellType::Level1 => OverworldCell::Level(1, colour),
            OverworldCellType::Level2 => OverworldCell::Level(2, colour),
            OverworldCellType::Level3 => OverworldCell::Level(3, colour),
            OverworldCellType::Level4 => OverworldCell::Level(4, colour),
            OverworldCellType::Level5 => OverworldCell::Level(5, colour),
            OverworldCellType::Level6 => OverworldCell::Level(6, colour),
            OverworldCellType::Level7 => OverworldCell::Level(7, colour),
        }
    }
}

impl Default for OverworldCell {
    fn default() -> (r: Self)
        ensures
            r == OverworldCell::Empty,
    {
        OverworldCell::Empty
    }
}

} // verus!
