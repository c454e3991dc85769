use vstd::prelude::*;

use crate::cell_type::{CellType, PaletteResult};
use crate::colour::Colour;
use crate::direction::{spec_decrement, spec_increment, spec_opposite, Direction};
use crate::store::{
    Key,
    ground_clone, ground_entries, ground_get, ground_insert, ground_iter, ground_new, ground_remove,
    lists_in_order, overlay_clone, overlay_entries, overlay_get, overlay_insert, overlay_iter, overlay_new,
    overlay_remove,
};
use crate::success::SuccessState;
use crate::surroundings::Surroundings;

verus! {

/// A value of one cell layer. Kinds that draw as connected shapes carry a
/// mask of the neighbours of the same kind.
pub trait Cell: Sized + Copy {
    /// The kind of the cell, ignoring its fields.
    spec fn tag(&self) -> int;

    /// The neighbour mask, for kinds that carry one.
    spec fn surround(&self) -> Option<Surroundings>;

    /// The cell with the mask bit of `direction` set to `adjacent`; cells
    /// without a mask are unchanged.
    spec fn with_surround(&self, direction: Direction, adjacent: bool) -> Self;

    /// What a map of cells of this kind holds.
    spec fn stored(m: im_rc::OrdMap<(i32, i32), Self>) -> Map<(i32, i32), Self>;

    proof fn lemma_with_surround(&self, direction: Direction, adjacent: bool)
        ensures
            self.with_surround(direction, adjacent).tag() == self.tag(),
            self.surround() is None ==> self.with_surround(direction, adjacent) == *self,
            self.surround() is Some ==> self.with_surround(direction, adjacent).surround()
                == Some(self.surround().unwrap().with(direction, adjacent)),
    ;

    proof fn lemma_tag_surround(&self, other: &Self)
        ensures
            self.tag() == other.tag() ==> (self.surround() is Some <==> other.surround() is Some),
    ;

    /// Whether both cells are of the same kind.
    fn same_kind(&self, other: &Self) -> (r: bool)
        ensures
            r == (self.tag() == other.tag()),
    ;

    /// Tells the cell whether its neighbour in `direction` is of its kind.
    fn set_surround(&mut self, direction: Direction, is_adjacent: bool)
        ensures
            *final(self) == old(self).with_surround(direction, is_adjacent),
    ;

    fn equals(&self, other: &Self) -> (r: bool)
        ensures
            r == (*self == *other),
    ;

    fn store_new() -> (m: im_rc::OrdMap<(i32, i32), Self>)
        ensures
            Self::stored(m).dom() == Set::<Key>::empty(),
    ;

    fn store_clone(m: &im_rc::OrdMap<(i32, i32), Self>) -> (r: im_rc::OrdMap<(i32, i32), Self>)
        ensures
            Self::stored(r) == Self::stored(*m),
    ;

    fn store_get(m: &im_rc::OrdMap<(i32, i32), Self>, k: (i32, i32)) -> (r: Option<Self>)
        ensures
            r == (if Self::stored(*m).contains_key(k) {
                Some(Self::stored(*m)[k])
            } else {
                None
            }),
    ;

    fn store_insert(m: &mut im_rc::OrdMap<(i32, i32), Self>, k: (i32, i32), v: Self)
        ensures
            Self::stored(*final(m)) == Self::stored(*old(m)).insert(k, v),
    ;

    fn store_remove(m: &mut im_rc::OrdMap<(i32, i32), Self>, k: (i32, i32))
        ensures
            Self::stored(*final(m)) == Self::stored(*old(m)).remove(k),
    ;

    fn store_iter(m: &im_rc::OrdMap<(i32, i32), Self>) -> (r: Vec<((i32, i32), Self)>)
        ensures
            lists_in_order(r@, Self::stored(*m)),
    ;

    /// If both cells are of the same kind, each marks the other as a
    /// neighbour of its kind; otherwise each clears that mark.
    fn calculate_surround(&mut self, other: &mut Self, direction: Direction)
        ensures
            *final(self) == old(self).with_surround(direction, old(self).tag() == old(other).tag()),
            *final(other) == old(other).with_surround(
                spec_opposite(direction),
                old(self).tag() == old(other).tag(),
            ),
    {
        let is_adjacent = self.same_kind(other);
        self.set_surround(direction, is_adjacent);
        other.set_surround(direction.opposite(), is_adjacent);
    }
}

/// A cell on which actors stand.
pub trait PastureCell: Cell {
    spec fn solid(&self) -> bool;

    /// Whether actors cannot enter the cell.
    fn is_solid_to_cows(&self) -> (r: bool)
        ensures
            r == self.solid(),
    ;
}


/// A cell of the ground layer.
#[derive(Debug, Clone, Copy, PartialEq, Eq, Structural)]
pub enum GroundCell {
    Empty,
    ColouredBlock(Colour),
    Arrow(Direction),
    ColouredArrow(Colour, Direction),
    ArrowBlock(Direction),
    RotateRight,
    RotateLeft,
    Fence(Surroundings),
    Wall(Surroundings),
}

pub open spec fn ground_tag(c: GroundCell) -> int {
    match c {
        GroundCell::Empty => 0,
        GroundCell::ColouredBlock(_) => 1,
        GroundCell::Arrow(_) => 2,
        GroundCell::ColouredArrow(_, _) => 3,
        GroundCell::ArrowBlock(_) => 4,
        GroundCell::RotateRight => 5,
        GroundCell::RotateLeft => 6,
        GroundCell::Fence(_) => 7,
        GroundCell::Wall(_) => 8,
    }
}

/// A quarter turn clockwise: arrows turn, the two rotation markers swap,
/// every other cell stays as it is.
pub open spec fn spec_rotate_right(c: GroundCell) -> GroundCell {
    match c {
        GroundCell::Arrow(d) => GroundCell::Arrow(spec_increment(d)),
        GroundCell::ColouredArrow(colour, d) => GroundCell::ColouredArrow(colour, spec_increment(d)),
        GroundCell::ArrowBlock(d) => GroundCell::ArrowBlock(spec_increment(d)),
        GroundCell::RotateLeft => GroundCell::RotateRight,
        GroundCell::RotateRight => GroundCell::RotateLeft,
        _ => c,
    }
}

/// A quarter turn anticlockwise: arrows turn, the two rotation markers swap,
/// every other cell stays as it is.
pub open spec fn spec_rotate_left(c: GroundCell) -> GroundCell {
    match c {
        GroundCell::Arrow(d) => GroundCell::Arrow(spec_decrement(d)),
        GroundCell::ColouredArrow(colour, d) => GroundCell::ColouredArrow(colour, spec_decrement(d)),
        GroundCell::ArrowBlock(d) => GroundCell::ArrowBlock(spec_decrement(d)),
        GroundCell::RotateLeft => GroundCell::RotateRight,
        GroundCell::RotateRight => GroundCell::RotateLeft,
        _ => c,
    }
}

/// The ground cell that an editor choice stands for, if it is one.
pub open spec fn spec_ground_from_palette(p: PaletteResult<CellType>) -> Option<GroundCell> {
    match p.0 {
        CellType::Empty => Some(GroundCell::Empty),
        CellType::ColouredBlock => Some(GroundCell::ColouredBlock(p.1)),
        CellType::Arrow => Some(GroundCell::Arrow(p.2)),
        CellType::ColouredArrow => Some(GroundCell::ColouredArrow(p.1, p.2)),
        CellType::ArrowBlock => Some(GroundCell::ArrowBlock(p.2)),
        CellType::RotateLeft => Some(GroundCell::RotateLeft),
        CellType::RotateRight => Some(GroundCell::RotateRight),
        CellType::Fence => Some(GroundCell::Fence(Surroundings::spec_empty())),
        CellType::Wall => Some(GroundCell::Wall(Surroundings::spec_empty())),
        CellType::Overlay => None,
    }
}

impl GroundCell {
    fn kind(&self) -> (r: u8)
        ensures
            r as int == ground_tag(*self),
    {
        match self {
            GroundCell::Empty => 0,
            GroundCell::ColouredBlock(_) => 1,
            GroundCell::Arrow(_) => 2,
            GroundCell::ColouredArrow(_, _) => 3,
            GroundCell::ArrowBlock(_) => 4,
            GroundCell::RotateRight => 5,
            GroundCell::RotateLeft => 6,
            GroundCell::Fence(_) => 7,
            GroundCell::Wall(_) => 8,
        }
    }

    pub fn rotate_right(self) -> (r: Self)
        ensures
            r == spec_rotate_right(self),
    {
        match self {
            GroundCell::Arrow(direction) => GroundCell::Arrow(direction.increment()),
            GroundCell::ColouredArrow(colour, direction) => {
                GroundCell::ColouredArrow(colour, direction.increment())
            },
            GroundCell::ArrowBlock(direction) => GroundCell::ArrowBlock(direction.increment()),
            GroundCell::RotateLeft => GroundCell::RotateRight,
            GroundCell::RotateRight => GroundCell::RotateLeft,
            cell => cell,
        }
    }

    pub fn rotate_left(self) -> (r: Self)
        ensures
            r == spec_rotate_left(self),
    {
        match self {
            GroundCell::Arrow(direction) => GroundCell::Arrow(direction.decrement()),
            GroundCell::ColouredArrow(colour, direction) => {
                GroundCell::ColouredArrow(colour, direction.decrement())
            },
            GroundCell::ArrowBlock(direction) => GroundCell::ArrowBlock(direction.decrement()),
            GroundCell::RotateLeft => GroundCell::RotateRight,
            GroundCell::RotateRight => GroundCell::RotateLeft,
            cell => cell,
        }
    }

    /// The ground cell that an editor choice stands for; `None` for an
    /// overlay choice.
    pub fn try_from_palette(p: PaletteResult<CellType>) -> (r: Option<Self>)
        ensures
            r == spec_ground_from_palette(p),
    {
        let PaletteResult(cell_type, colour, direction) = p;
        match cell_type {
            CellType::Empty => Some(GroundCell::Empty),
            CellType::ColouredBlock => Some(GroundCell::ColouredBlock(colour)),
            CellType::Arrow => Some(GroundCell::Arrow(direction)),
            CellType::ColouredArrow => Some(GroundCell::ColouredArrow(colour, direction)),
            CellType::ArrowBlock => Some(GroundCell::ArrowBlock(direction)),
            CellType::RotateLeft => Some(GroundCell::RotateLeft),
            CellType::RotateRight => Some(GroundCell::RotateRight),
            CellType::Fence => Some(GroundCell::Fence(Surroundings::new())),
            CellType::Wall => Some(GroundCell::Wall(Surroundings::new())),
            CellType::Overlay => None,
        }
    }
}

impl Default for GroundCell {
    fn default() -> (r: Self)
        ensures
            r == GroundCell::Empty,
    {
        GroundCell::Empty
    }
}

impl Cell for GroundCell {
    open spec fn tag(&self) -> int {
        ground_tag(*self)
    }

    open spec fn surround(&self) -> Option<Surroundings> {
        match *self {
            GroundCell::Fence(s) => Some(s),
            GroundCell::Wall(s) => Some(s),
            _ => None,
        }
    }

    open spec fn with_surround(&self, direction: Direction, adjacent: bool) -> Self {
        match *self {
            GroundCell::Fence(s) => GroundCell::Fence(s.with(direction, adjacent)),
            GroundCell::Wall(s) => GroundCell::Wall(s.with(direction, adjacent)),
            _ => *self,
        }
    }

    open spec fn stored(m: im_rc::OrdMap<(i32, i32), Self>) -> Map<(i32, i32), Self> {
        ground_entries(m)
    }

    proof fn lemma_with_surround(&self, direction: Direction, adjacent: bool) {
    }

    proof fn lemma_tag_surround(&self, other: &Self) {
    }

    fn same_kind(&self, other: &Self) -> (r: bool) {
        self.kind() == other.kind()
    }

    fn set_surround(&mut self, direction: Direction, is_adjacent: bool) {
        match self {
            GroundCell::Fence(surrounds) => surrounds.set_surround(direction, is_adjacent),
            GroundCell::Wall(surrounds) => surrounds.set_surround(direction, is_adjacent),
            _ => {},
        }
    }

    fn equals(&self, other: &Self) -> (r: bool) {
        *self == *other
    }

    fn store_new() -> (m: im_rc::OrdMap<(i32, i32), Self>) {
        ground_new()
    }

    fn store_clone(m: &im_rc::OrdMap<(i32, i32), Self>) -> (r: im_rc::OrdMap<(i32, i32), Self>) {
        ground_clone(m)
    }

    fn store_get(m: &im_rc::OrdMap<(i32, i32), Self>, k: (i32, i32)) -> (r: Option<Self>) {
        ground_get(m, k)
    }

    fn store_insert(m: &mut im_rc::OrdMap<(i32, i32), Self>, k: (i32, i32), v: Self) {
        ground_insert(m, k, v)
    }

    fn store_remove(m: &mut im_rc::OrdMap<(i32, i32), Self>, k: (i32, i32)) {
        ground_remove(m, k)
    }

    fn store_iter(m: &im_rc::OrdMap<(i32, i32), Self>) -> (r: Vec<((i32, i32), Self)>) {
        ground_iter(m)
    }
}

impl PastureCell for GroundCell {
    open spec fn solid(&self) -> bool {
        match *self {
            GroundCell::Fence(_) | GroundCell::Wall(_) => true,
            _ => false,
        }
    }

    fn is_solid_to_cows(&self) -> (r: bool) {
        match self {
            GroundCell::Fence(_) | GroundCell::Wall(_) => true,
            _ => false,
        }
    }
}


/// A cell of the overlay layer: the zones that judge a run.
#[derive(Debug, Clone, Copy, PartialEq, Eq, Structural)]
pub enum OverlayCell {
    Empty,
    Success(Surroundings),
    Failure(Surroundings),
    Input(Surroundings),
    Output(Surroundings),
}

pub open spec fn overlay_tag(c: OverlayCell) -> int {
    match c {
        OverlayCell::Empty => 0,
        OverlayCell::Success(_) => 1,
        OverlayCell::Failure(_) => 2,
        OverlayCell::Input(_) => 3,
        OverlayCell::Output(_) => 4,
    }
}

/// How an actor standing on the cell counts towards the verdict.
pub open spec fn spec_success_state(c: OverlayCell) -> SuccessState {
    match c {
        OverlayCell::Success(_) => SuccessState::Succeeded,
        OverlayCell::Failure(_) => SuccessState::Failed,
        _ => SuccessState::Running,
    }
}

/// The overlay cell that an editor choice stands for, if it is one.
pub open spec fn spec_overlay_from_palette(p: PaletteResult<CellType>) -> Option<OverlayCell> {
    match (p.0, p.1) {
        (CellType::Overlay, Colour::Green) => Some(OverlayCell::Success(Surroundings::spec_empty())),
        (CellType::Overlay, Colour::Red) => Some(OverlayCell::Failure(Surroundings::spec_empty())),
        (CellType::Overlay, Colour::Orange) => Some(OverlayCell::Input(Surroundings::spec_empty())),
        (CellType::Overlay, Colour::Blue) => Some(OverlayCell::Output(Surroundings::spec_empty())),
        (CellType::Empty, _) => Some(OverlayCell::Empty),
        _ => None,
    }
}

impl OverlayCell {
    pub(crate) fn kind(&self) -> (r: u8)
        ensures
            r as int == overlay_tag(*self),
    {
        match self {
            OverlayCell::Empty => 0,
            OverlayCell::Success(_) => 1,
            OverlayCell::Failure(_) => 2,
            OverlayCell::Input(_) => 3,
            OverlayCell::Output(_) => 4,
        }
    }

    pub fn success_state(self) -> (r: SuccessState)
        ensures
            r == spec_success_state(self),
    {
        match self {
            OverlayCell::Success(_) => SuccessState::Succeeded,
            OverlayCell::Failure(_) => SuccessState::Failed,
            OverlayCell::Empty | OverlayCell::Input(_) | OverlayCell::Output(_) => {
                SuccessState::Running
            },
        }
    }

    pub fn is_input(&self) -> (r: bool)
        ensures
            r == (*self is Input),
    {
        match self {
            OverlayCell::Input(_) => true,
            _ => false,
        }
    }

    pub fn is_output(&self) -> (r: bool)
        ensures
            r == (*self is Output),
    {
        match self {
            OverlayCell::Output(_) => true,
            _ => false,
        }
    }

    /// The overlay cell that an editor choice stands for; `None` for a choice
    /// that only the ground layer takes.
    pub fn try_from_palette(p: PaletteResult<CellType>) -> (r: Option<Self>)
        ensures
            r == spec_overlay_from_palette(p),
    {
        let PaletteResult(cell_type, colour, _) = p;
        match (cell_type, colour) {
            (CellType::Overlay, Colour::Green) => Some(OverlayCell::Success(Surroundings::new())),
            (CellType::Overlay, Colour::Red) => Some(OverlayCell::Failure(Surroundings::new())),
            (CellType::Overlay, Colour::Orange) => Some(OverlayCell::Input(Surroundings::new())),
            (CellType::Overlay, Colour::Blue) => Some(OverlayCell::Output(Surroundings::new())),
            (CellType::Empty, _) => Some(OverlayCell::Empty),
            _ => None,
        }
    }
}

impl Default for OverlayCell {
    fn default() -> (r: Self)
        ensures
            r == OverlayCell::Empty,
    {
        OverlayCell::Empty
    }
}

impl Cell for OverlayCell {
    open spec fn tag(&self) -> int {
        overlay_tag(*self)
    }

    open spec fn surround(&self) -> Option<Surroundings> {
        match *self {
            OverlayCell::Success(s) => Some(s),
            OverlayCell::Failure(s) => Some(s),
            OverlayCell::Input(s) => Some(s),
            OverlayCell::Output(s) => Some(s),
            OverlayCell::Empty => None,
        }
    }

    open spec fn with_surround(&self, direction: Direction, adjacent: bool) -> Self {
        match *self {
            OverlayCell::Success(s) => OverlayCell::Success(s.with(direction, adjacent)),
            OverlayCell::Failure(s) => OverlayCell::Failure(s.with(direction, adjacent)),
            OverlayCell::Input(s) => OverlayCell::Input(s.with(direction, adjacent)),
            OverlayCell::Output(s) => OverlayCell::Output(s.with(direction, adjacent)),
            OverlayCell::Empty => *self,
        }
    }

    open spec fn stored(m: im_rc::OrdMap<(i32, i32), Self>) -> Map<(i32, i32), Self> {
        overlay_entries(m)
    }

    proof fn lemma_with_surround(&self, direction: Direction, adjacent: bool) {
    }

    proof fn lemma_tag_surround(&self, other: &Self) {
    }

    fn same_kind(&self, other: &Self) -> (r: bool) {
        self.kind() == other.kind()
    }

    fn set_surround(&mut self, direction: Direction, is_adjacent: bool) {
        match self {
            OverlayCell::Success(surrounds) => surrounds.set_surround(direction, is_adjacent),
            OverlayCell::Failure(surrounds) => surrounds.set_surround(direction, is_adjacent),
            OverlayCell::Input(surrounds) => surrounds.set_surround(direction, is_adjacent),
            OverlayCell::Output(surrounds) => surrounds.set_surround(direction, is_adjacent),
            OverlayCell::Empty => {},
        }
    }

    fn equals(&self, other: &Self) -> (r: bool) {
        *self == *other
    }

    fn store_new() -> (m: im_rc::OrdMap<(i32, i32), Self>) {
        overlay_new()
    }

    fn store_clone(m: &im_rc::OrdMap<(i32, i32), Self>) -> (r: im_rc::OrdMap<(i32, i32), Self>) {
        overlay_clone(m)
    }

    fn store_get(m: &im_rc::OrdMap<(i32, i32), Self>, k: (i32, i32)) -> (r: Option<Self>) {
        overlay_get(m, k)
    }

    fn store_insert(m: &mut im_rc::OrdMap<(i32, i32), Self>, k: (i32, i32), v: Self) {
        overlay_insert(m, k, v)
    }

    fn store_remove(m: &mut im_rc::OrdMap<(i32, i32), Self>, k: (i32, i32)) {
        overlay_remove(m, k)
    }

    fn store_iter(m: &im_rc::OrdMap<(i32, i32), Self>) -> (r: Vec<((i32, i32), Self)>) {
        overlay_iter(m)
    }
}

} // verus!
