use vstd::prelude::*;

use crate::colour::Colour;
use crate::direction::Direction;
use crate::point::Point;

verus! {

/// The kinds of cell that an editor cursor can place.
#[derive(Debug, Clone, Copy, PartialEq, Eq, Structural)]
pub enum CellType {
    Empty,
    ColouredBlock,
    Arrow,
    ColouredArrow,
    ArrowBlock,
    RotateRight,
    RotateLeft,
    Fence,
    Wall,
    Overlay,
}

/// A choice of the editor: a kind of cell with a colour and a direction.
#[derive(Debug, Clone, Copy)]
pub struct PaletteResult<T>(pub T, pub Colour, pub Direction);

/// The editor's palette in display order.
pub open spec fn cell_type_palette() -> Seq<CellType> {
    seq![
        CellType::Empty,
        CellType::ColouredBlock,
        CellType::Arrow,
        CellType::ColouredArrow,
        CellType::ArrowBlock,
        CellType::RotateRight,
        CellType::RotateLeft,
        CellType::Fence,
        CellType::Wall,
        CellType::Overlay,
    ]
}

pub open spec fn cell_type_index(t: CellType) -> int {
    match t {
        CellType::Empty => 0,
        CellType::ColouredBlock => 1,
        CellType::Arrow => 2,
        CellType::ColouredArrow => 3,
        CellType::ArrowBlock => 4,
        CellType::RotateRight => 5,
        CellType::RotateLeft => 6,
        CellType::Fence => 7,
        CellType::Wall => 8,
        CellType::Overlay => 9,
    }
}

impl CellType {
    /// The next kind in palette order, wrapping round to `Empty`.
    pub fn increment(self) -> (r: Self)
        ensures
            cell_type_index(r) == (cell_type_index(self) + 1) % 10,
    {
        match self {
            CellType::Empty => CellType::ColouredBlock,
            CellType::ColouredBlock => CellType::Arrow,
            CellType::Arrow => CellType::ColouredArrow,
            CellType::ColouredArrow => CellType::ArrowBlock,
            CellType::ArrowBlock => CellType::RotateRight,
            CellType::RotateRight => CellType::RotateLeft,
            CellType::RotateLeft => CellType::Fence,
            CellType::Fence => CellType::Wall,
            CellType::Wall => CellType::Overlay,
            CellType::Overlay => CellType::Empty,
        }
    }
}

/// The editor cursor: a kind of cell with a colour and a direction, each
/// stepped through in turn.
#[derive(Debug, Clone, Copy, PartialEq, Eq, Structural)]
pub struct CellCursor(pub CellType, pub Colour, pub Direction);

impl CellCursor {
    pub fn new() -> (r: Self)
        ensures
            r == CellCursor(CellType::Empty, Colour::Red, Direction::Up),
    {
        CellCursor(CellType::Empty, Colour::Red, Direction::Up)
    }

    pub fn increment_type(&mut self)
        ensures
            cell_type_index(final(self).0) == (cell_type_index(old(self).0) + 1) % 10,
            final(self).1 == old(self).1,
            final(self).2 == old(self).2,
    {
        self.0 = self.0.increment();
    }

    pub fn increment_colour(&mut self)
        ensures
            crate::colour::colour_index(final(self).1) == (crate::colour::colour_index(old(self).1) + 1) % 4,
            final(self).0 == old(self).0,
            final(self).2 == old(self).2,
    {
        self.1 = self.1.increment();
    }

    pub fn increment_direction(&mut self)
        ensures
            final(self).2 == crate::direction::spec_increment(old(self).2),
            final(self).0 == old(self).0,
            final(self).1 == old(self).1,
    {
        self.2 = self.2.increment();
    }

    /// The editor choice the cursor stands for.
    pub fn value(&self) -> (r: PaletteResult<CellType>)
        ensures
            r.0 == self.0 && r.1 == self.1 && r.2 == self.2,
    {
        PaletteResult(self.0, self.1, self.2)
    }
}

/// An entry of the editor's palette: a kind, its base graphic, and whether
/// its graphic varies with the chosen colour and direction.
#[derive(Debug, Clone, Copy)]
pub struct CellCursorEntry<T> {
    pub value: T,
    pub graphic: Point<u8>,
    pub has_colour: bool,
    pub has_direction: bool,
}

/// The sprite offset of an entry's graphic for a colour and direction.
pub open spec fn graphic_offset(has_colour: bool, has_direction: bool, colour: Colour, direction: Direction) -> int {
    if has_direction {
        crate::direction::direction_index(direction) + if has_colour {
            crate::colour::colour_index(colour) * 4
        } else {
            0
        }
    } else if has_colour {
        crate::colour::colour_index(colour)
    } else {
        0
    }
}

impl<T> CellCursorEntry<T> {
    pub fn new(value: T, graphic: Point<u8>, has_colour: bool, has_direction: bool) -> (r: Self)
        ensures
            r.value == value,
            r.graphic == graphic,
            r.has_colour == has_colour,
            r.has_direction == has_direction,
    {
        CellCursorEntry { value, graphic, has_colour, has_direction }
    }

    /// The entry's graphic for the chosen colour and direction.
    pub fn graphic(&self, colour: Colour, direction: Direction) -> (r: Point<u8>)
        requires
            self.graphic.0 + 15 <= 255,
        ensures
            r.0 == self.graphic.0 + graphic_offset(self.has_colour, self.has_direction, colour, direction),
            r.1 == self.graphic.1,
    {
        let mut offset: u8 = 0;
        if self.has_direction {
            offset = offset + direction.index();
            if self.has_colour {
                offset = offset + colour.index() * Direction::TOTAL_DIRECTIONS;
            }
        } else if self.has_colour {
            offset = offset + colour.index();
        }
        Point(self.graphic.0 + offset, self.graphic.1)
    }
}

impl CellCursorEntry<CellType> {
    /// The palette entry of a kind of cell.
    pub fn from_cell_type(cell_type: CellType) -> (r: Self)
        ensures
            r.value == cell_type,
            r.graphic.0 + 15 <= 255,
    {
        match cell_type {
            CellType::Empty => Self::new(cell_type, Point(8, 0), false, false),
            CellType::ColouredBlock => Self::new(cell_type, Point(0, 0), true, false),
            CellType::Arrow => Self::new(cell_type, Point(0, 7), false, true),
            CellType::ColouredArrow => Self::new(cell_type, Point(0, 3), true, true),
            CellType::ArrowBlock => Self::new(cell_type, Point(0, 1), false, true),
            CellType::RotateRight => Self::new(cell_type, Point(0, 2), false, false),
            CellType::RotateLeft => Self::new(cell_type, Point(1, 2), false, false),
            CellType::Fence => Self::new(cell_type, Point(0, 14), false, false),
            CellType::Wall => Self::new(cell_type, Point(0, 15), false, false),
            CellType::Overlay => Self::new(cell_type, Point(9, 0), true, false),
        }
    }
}

impl CellType {
    /// The editor's palette: every kind, in palette order.
    pub fn full_palette() -> (r: Vec<CellCursorEntry<CellType>>)
        ensures
            r@.len() == cell_type_palette().len(),
            forall|i: int| 0 <= i < r@.len() ==> #[trigger] r@[i].value == cell_type_palette()[i],
    {
        let kinds = [
            CellType::Empty,
            CellType::ColouredBlock,
            CellType::Arrow,
            CellType::ColouredArrow,
            CellType::ArrowBlock,
            CellType::RotateRight,
            CellType::RotateLeft,
            CellType::Fence,
            CellType::Wall,
            CellType::Overlay,
        ];
        assert(kinds@ == cell_type_palette());
        let mut r: Vec<CellCursorEntry<CellType>> = Vec::new();
        let mut i: usize = 0;
        while i < 10
            invariant
                i <= 10,
                kinds@ == cell_type_palette(),
                r@.len() == i,
                forall|j: int| 0 <= j < i ==> #[trigger] r@[j].value == cell_type_palette()[j],
            decreases 10 - i,
        {
            r.push(CellCursorEntry::from_cell_type(kinds[i]));
            i = i + 1;
        }
        r
    }
}

/// The editor's palette: entries to pick from, the picked one, and the
/// colour and direction applied to it.
#[derive(Debug, Clone)]
pub struct CellPalette<T> {
    entries: Vec<CellCursorEntry<T>>,
    current: usize,
    colour: Colour,
    direction: Direction,
}

impl<T: Copy> CellPalette<T> {
    pub closed spec fn entry_values(&self) -> Seq<T> {
        self.entries@.map_values(|e: CellCursorEntry<T>| e.value)
    }

    pub closed spec fn picked(&self) -> int {
        self.current as int
    }

    pub closed spec fn chosen(&self) -> (Colour, Direction) {
        (self.colour, self.direction)
    }

    pub open spec fn wf(&self) -> bool {
        0 <= self.picked() < self.entry_values().len()
    }

    /// A palette over `palette`, with its first entry picked, red and facing
    /// up.
    pub fn new(palette: Vec<CellCursorEntry<T>>) -> (r: Self)
        requires
            palette@.len() > 0,
        ensures
            r.wf(),
            r.entry_values() == palette@.map_values(|e: CellCursorEntry<T>| e.value),
            r.picked() == 0,
            r.chosen() == (Colour::Red, Direction::Up),
    {
        CellPalette { entries: palette, current: 0, colour: Colour::Red, direction: Direction::Up }
    }

    /// The current choice: the picked entry with the chosen colour and
    /// direction.
    pub open spec fn choice(&self) -> PaletteResult<T> {
        PaletteResult(self.entry_values()[self.picked()], self.chosen().0, self.chosen().1)
    }

    /// The current choice.
    pub fn value(&self) -> (r: PaletteResult<T>)
        requires
            self.wf(),
        ensures
            r == self.choice(),
            r.0 == self.entry_values()[self.picked()],
            (r.1, r.2) == self.chosen(),
    {
        PaletteResult(self.entries[self.current].value, self.colour, self.direction)
    }

    /// The (column, row) of entry `index` in the palette's four-column grid.
    pub fn get_point_from_index(index: usize) -> (r: Point<i32>)
        requires
            index <= i32::MAX,
        ensures
            r.0 == index as int % 4,
            r.1 == index as int / 4,
    {
        let index_i32 = index as i32;
        let column = index_i32 % 4;
        let row = (index_i32 - column) / 4;
        Point(column, row)
    }

    /// The entry under the pixel `point` of the palette grid, if any.
    pub fn get_index_from_point(&self, point: Point<i32>) -> (r: Option<usize>)
        requires
            0 <= point.0,
            0 <= point.1 <= 4096,
        ensures
            ({
                let i = point.0 as int / 16 + (point.1 as int / 16) * 4;
                r == if i < self.entry_values().len() {
                    Some(i as usize)
                } else {
                    None::<usize>
                }
            }),
    {
        let x_index = point.0 / 16;
        let y_index = point.1 / 16;
        let absolute = x_index as usize + y_index as usize * 4;
        if absolute >= self.entries.len() {
            None
        } else {
            Some(absolute)
        }
    }

    /// Picks entry `index`, if there is one.
    pub fn select(&mut self, index: usize) -> (r: bool)
        requires
            old(self).wf(),
        ensures
            final(self).wf(),
            r == (index < old(self).entry_values().len()),
            final(self).picked() == if r { index as int } else { old(self).picked() },
            final(self).entry_values() == old(self).entry_values(),
            final(self).chosen() == old(self).chosen(),
    {
        if index < self.entries.len() {
            self.current = index;
            true
        } else {
            false
        }
    }

    /// Turns the chosen direction anticlockwise.
    pub fn rotate_left(&mut self)
        requires
            old(self).wf(),
        ensures
            final(self).wf(),
            final(self).chosen() == (old(self).chosen().0, crate::direction::spec_decrement(old(self).chosen().1)),
            final(self).picked() == old(self).picked(),
            final(self).entry_values() == old(self).entry_values(),
    {
        self.direction = self.direction.decrement();
    }

    /// Turns the chosen direction clockwise.
    pub fn rotate_right(&mut self)
        requires
            old(self).wf(),
        ensures
            final(self).wf(),
            final(self).chosen() == (old(self).chosen().0, crate::direction::spec_increment(old(self).chosen().1)),
            final(self).picked() == old(self).picked(),
            final(self).entry_values() == old(self).entry_values(),
    {
        self.direction = self.direction.increment();
    }

    /// Steps the chosen colour.
    pub fn next_colour(&mut self)
        requires
            old(self).wf(),
        ensures
            final(self).wf(),
            crate::colour::colour_index(final(self).chosen().0) == (crate::colour::colour_index(old(self).chosen().0) + 1) % 4,
            final(self).chosen().1 == old(self).chosen().1,
            final(self).picked() == old(self).picked(),
            final(self).entry_values() == old(self).entry_values(),
    {
        self.colour = self.colour.increment();
    }
}

/// A graphic at a pixel offset.
#[derive(Debug, Clone, Copy)]
pub struct CellGraphic {
    pub offset: Point<i32>,
    pub graphic: Point<u8>,
}

impl CellGraphic {
    pub fn new(offset: Point<i32>, graphic: Point<u8>) -> (r: Self)
        ensures
            r.offset == offset,
            r.graphic == graphic,
    {
        CellGraphic { offset, graphic }
    }
}

} // verus!
