use vstd::prelude::*;

use crate::cell::{Cell, GroundCell, OverlayCell};
use crate::cell_type::{CellType, PaletteResult};
use crate::cell::{spec_ground_from_palette, spec_overlay_from_palette};
use crate::colour::Colour;
use crate::layer::{
    lemma_raster_sorted_unique, lemma_set_keeps_adjacency, lemma_set_plain, lemma_set_result_view,
    lists_zone, view_after_set,
    raster_sorted, LevelLayer,
};
use crate::point::{point_lt, Point};
use crate::store::Key;

verus! {

/// The side of a cell in pixels.
pub const CELL_PIXELS: i32 = 16;

/// Integer division rounding towards zero, as `/` does on `i32`.
pub open spec fn div_toward_zero(a: int, b: int) -> int {
    if a >= 0 {
        a / b
    } else {
        -((-a) / b)
    }
}

/// The grid cell that holds the pixel `point`.
pub fn get_grid_index(point: Point<i32>) -> (r: Point<i32>)
    ensures
        r.0 == div_toward_zero(point.0 as int, CELL_PIXELS as int),
        r.1 == div_toward_zero(point.1 as int, CELL_PIXELS as int),
{
    let x_index = point.x() / CELL_PIXELS;
    let y_index = point.y() / CELL_PIXELS;
    Point(x_index, y_index)
}

/// The input zone has fewer cells than the input to place.
#[derive(Debug, Clone, Copy, PartialEq, Eq)]
pub struct NotEnoughInputSpace;

/// The colours of the coloured blocks on the ground at `coords`, in order;
/// other cells are skipped.
pub open spec fn blocks_at(layer: LevelLayer<GroundCell>, coords: Seq<Point<i32>>) -> Seq<Colour>
    decreases coords.len(),
{
    if coords.len() == 0 {
        seq![]
    } else {
        let rest = blocks_at(layer, coords.drop_last());
        match layer.cell_at(coords.last()) {
            GroundCell::ColouredBlock(c) => rest.push(c),
            _ => rest,
        }
    }
}

/// The ground cell that input placement writes at the `i`-th input cell.
pub open spec fn input_cell(input: Seq<Colour>, i: int) -> GroundCell {
    if i < input.len() {
        GroundCell::ColouredBlock(input[i])
    } else {
        GroundCell::Empty
    }
}

/// The colours of the coloured blocks at `coordinates`, in order.
pub fn get_coloured_blocks(layer: &LevelLayer<GroundCell>, coordinates: &Vec<Point<i32>>) -> (r: Vec<Colour>)
    ensures
        r@ == blocks_at(*layer, coordinates@),
{
    let mut r: Vec<Colour> = Vec::new();
    let mut i: usize = 0;
    while i < coordinates.len()
        invariant
            i <= coordinates.len(),
            r@ == blocks_at(*layer, coordinates@.take(i as int)),
        decreases coordinates.len() - i,
    {
        assert(coordinates@.take(i + 1).drop_last() == coordinates@.take(i as int));
        if let GroundCell::ColouredBlock(colour) = layer.get_cell(&coordinates[i]) {
            r.push(colour);
        }
        i = i + 1;
    }
    assert(coordinates@.take(i as int) == coordinates@);
    r
}

/// `after` is `before` with `input` placed on the input cells, or, when
/// `failed`, `before` unchanged because the input does not fit.
pub open spec fn inputs_placed(before: Board, after: Board, input: Seq<Colour>, failed: bool) -> bool {
    forall|coords: Seq<Point<i32>>| #[trigger]
        lists_zone(coords, before.overlay_layer(), 3) ==> {
            &&& (failed <==> coords.len() < input.len())
            &&& (failed ==> after@ == before@)
            &&& (!failed ==> {
                &&& after.overlay_layer()@ == before.overlay_layer()@
                &&& forall|i: int|
                    0 <= i < coords.len() ==> after.ground_at(#[trigger] coords[i])
                        == input_cell(input, i)
                &&& forall|q: Point<i32>|
                    !coords.contains(q) ==> (#[trigger] after.ground_at(q)).tag()
                        == before.ground_at(q).tag() && (before.ground_at(q).surround() is None
                        ==> after.ground_at(q) == before.ground_at(q))
                &&& before.ground_layer().adjacency_consistent()
                    ==> after.ground_layer().adjacency_consistent()
            })
        }
}

/// Placing inputs is judged on the board's model alone.
pub proof fn lemma_inputs_placed_view(before: Board, a1: Board, a2: Board, input: Seq<Colour>, failed: bool)
    requires
        inputs_placed(before, a1, input, failed),
        a1@ == a2@,
    ensures
        inputs_placed(before, a2, input, failed),
{
    a1.lemma_view_eq(&a2);
    assert forall|q: Point<i32>| #[trigger] a2.ground_at(q) == a1.ground_at(q) by {}
    assert(a1.ground_layer().adjacency_consistent() ==> a2.ground_layer().adjacency_consistent()) by {
        if a1.ground_layer().adjacency_consistent() {
            assert forall|a: Point<i32>, d: crate::direction::Direction| #[trigger] a2.ground_layer().marks_neighbour(a, d) by {
                assert(a1.ground_layer().marks_neighbour(a, d));
            }
        }
    }
}

/// The grid cell under the pixel `point`.
pub open spec fn grid_index_of(point: Point<i32>) -> Point<i32> {
    Point(
        div_toward_zero(point.0 as int, CELL_PIXELS as int) as i32,
        div_toward_zero(point.1 as int, CELL_PIXELS as int) as i32,
    )
}

/// `after` is `before` with the editor choice `cell_type` written at the
/// grid cell under the pixel `point`, in each layer that takes it; a layer
/// that does not take it is unchanged.
pub open spec fn placed_at_point(before: Board, after: Board, point: Point<i32>, cell_type: PaletteResult<CellType>) -> bool {
    let index = grid_index_of(point);
    &&& match spec_ground_from_palette(cell_type) {
        Some(c) => before.ground_layer().set_result(&after.ground_layer(), index, c),
        None => after.ground_layer() == before.ground_layer(),
    }
    &&& match spec_overlay_from_palette(cell_type) {
        Some(c) => before.overlay_layer().set_result(&after.overlay_layer(), index, c),
        None => after.overlay_layer() == before.overlay_layer(),
    }
}

/// Placing inputs is judged on the model of the board before alone.
pub proof fn lemma_inputs_placed_before_view(b1: Board, b2: Board, after: Board, input: Seq<Colour>, failed: bool)
    requires
        inputs_placed(b1, after, input, failed),
        b1@ == b2@,
    ensures
        inputs_placed(b2, after, input, failed),
{
    b1.lemma_view_eq(&b2);
    assert forall|q: Point<i32>| #[trigger] b2.ground_at(q) == b1.ground_at(q) by {}
    assert forall|coords: Seq<Point<i32>>| #[trigger]
        lists_zone(coords, b2.overlay_layer(), 3) implies lists_zone(coords, b1.overlay_layer(), 3) by {}
    assert(b2.ground_layer().adjacency_consistent() ==> b1.ground_layer().adjacency_consistent()) by {
        if b2.ground_layer().adjacency_consistent() {
            assert forall|a: Point<i32>, d: crate::direction::Direction| #[trigger] b1.ground_layer().marks_neighbour(a, d) by {
                assert(b2.ground_layer().marks_neighbour(a, d));
            }
        }
    }
}

/// `r` lists the colours of the blocks on the output cells, in raster
/// order.
pub open spec fn outputs_of(board: Board, r: Seq<Colour>) -> bool {
    forall|coords: Seq<Point<i32>>| #[trigger]
        lists_zone(coords, board.overlay_layer(), 4) ==> r == blocks_at(board.ground_layer(), coords)
}

/// A board: the ground layer that actors walk on and the overlay of zones.
#[derive(Debug)]
pub struct Board {
    ground: LevelLayer<GroundCell>,
    overlay: LevelLayer<OverlayCell>,
}

impl View for Board {
    type V = ((Map<Key, GroundCell>, GroundCell), (Map<Key, OverlayCell>, OverlayCell));

    open spec fn view(&self) -> Self::V {
        (self.ground_layer()@, self.overlay_layer()@)
    }
}

impl Clone for Board {
    fn clone(&self) -> (r: Self)
        ensures
            r@ == self@,
    {
        Board { ground: self.ground.clone(), overlay: self.overlay.clone() }
    }
}

impl Board {
    pub closed spec fn ground_layer(&self) -> LevelLayer<GroundCell> {
        self.ground
    }

    /// The board holds the ground and overlay of the simulation model `m`.
    pub open spec fn model_eq(&self, m: crate::level::LevelModel) -> bool {
        self@.0 == m.herd.ground && self@.1 == m.overlay
    }

    /// Boards with equal views have equal layers, cell for cell.
    pub proof fn lemma_view_eq(&self, other: &Board)
        requires
            self@ == other@,
        ensures
            self.ground_layer()@ == other.ground_layer()@,
            self.overlay_layer()@ == other.overlay_layer()@,
    {
    }

    pub closed spec fn overlay_layer(&self) -> LevelLayer<OverlayCell> {
        self.overlay
    }

    pub open spec fn wf(&self) -> bool {
        self.ground_layer().wf() && self.overlay_layer().wf()
    }

    pub open spec fn ground_at(&self, p: Point<i32>) -> GroundCell {
        self.ground_layer().cell_at(p)
    }

    pub open spec fn overlay_at(&self, p: Point<i32>) -> OverlayCell {
        self.overlay_layer().cell_at(p)
    }

    /// An empty board whose layers hold the given defaults everywhere.
    pub fn new(default_cell: GroundCell, default_overlay: OverlayCell) -> (r: Self)
        ensures
            r.wf(),
            r.ground_layer().default_cell() == default_cell,
            r.overlay_layer().default_cell() == default_overlay,
            forall|q: Point<i32>| #[trigger] r.ground_at(q) == default_cell,
            forall|q: Point<i32>| #[trigger] r.overlay_at(q) == default_overlay,
    {
        Board { ground: LevelLayer::new(default_cell), overlay: LevelLayer::new(default_overlay) }
    }

    pub fn ground(&self) -> (r: &LevelLayer<GroundCell>)
        ensures
            *r == self.ground_layer(),
    {
        &self.ground
    }

    pub fn overlay(&self) -> (r: &LevelLayer<OverlayCell>)
        ensures
            *r == self.overlay_layer(),
    {
        &self.overlay
    }

    pub fn get_ground_cell(&self, point: &Point<i32>) -> (r: GroundCell)
        ensures
            r == self.ground_at(*point),
    {
        self.ground.get_cell(point)
    }

    pub fn get_overlay_cell(&self, point: &Point<i32>) -> (r: OverlayCell)
        ensures
            r == self.overlay_at(*point),
    {
        self.overlay.get_cell(point)
    }

    pub fn set_ground_cell(&mut self, point: Point<i32>, cell: GroundCell)
        requires
            old(self).wf(),
        ensures
            final(self).wf(),
            old(self).ground_layer().set_result(&final(self).ground_layer(), point, cell),
            final(self).overlay_layer() == old(self).overlay_layer(),
            final(self)@ == (view_after_set(old(self)@.0, point, cell), old(self)@.1),
    {
        self.ground.set_cell(point, cell);
        proof {
            lemma_set_result_view(old(self).ground_layer(), self.ground_layer(), point, cell);
        }
    }

    pub fn set_overlay_cell(&mut self, point: Point<i32>, cell: OverlayCell)
        requires
            old(self).wf(),
        ensures
            final(self).wf(),
            old(self).overlay_layer().set_result(&final(self).overlay_layer(), point, cell),
            final(self).ground_layer() == old(self).ground_layer(),
    {
        self.overlay.set_cell(point, cell);
    }

    pub fn map_ground_cell<F>(&mut self, point: Point<i32>, func: F) where
        F: FnOnce(GroundCell) -> GroundCell,

        requires
            old(self).wf(),
            func.requires((old(self).ground_at(point),)),
        ensures
            final(self).wf(),
            exists|v: GroundCell|
                func.ensures((old(self).ground_at(point),), v) && old(self).ground_layer().set_result(
                    &final(self).ground_layer(),
                    point,
                    v,
                ),
            final(self).overlay_layer() == old(self).overlay_layer(),
            exists|v: GroundCell|
                func.ensures((old(self).ground_at(point),), v) && final(self)@ == (
                view_after_set(old(self)@.0, point, v), old(self)@.1),
    {
        let value = func(self.ground.get_cell(&point));
        self.ground.set_cell(point, value);
        proof {
            lemma_set_result_view(old(self).ground_layer(), self.ground_layer(), point, value);
            assert(func.ensures((old(self).ground_at(point),), value) && self@ == (
                view_after_set(old(self)@.0, point, value), old(self)@.1));
        }
        assert(func.ensures((old(self).ground_at(point),), value) && old(self).ground_layer().set_result(
            &self.ground_layer(),
            point,
            value,
        ));
    }

    /// Places an editor choice at the grid cell under the pixel `point`, in
    /// each layer that takes it; a layer that does not take it is left
    /// alone.
    pub fn set_cell_at_point(&mut self, point: Point<i32>, cell_type: PaletteResult<CellType>)
        requires
            old(self).wf(),
        ensures
            final(self).wf(),
            placed_at_point(*old(self), *final(self), point, cell_type),
    {
        let index = get_grid_index(point);
        if let Some(cell) = GroundCell::try_from_palette(cell_type) {
            self.ground.set_cell(index, cell);
        }
        if let Some(cell) = OverlayCell::try_from_palette(cell_type) {
            self.overlay.set_cell(index, cell);
        }
    }

    /// The overlay cell at the grid cell under the pixel `point`.
    pub fn get_overlay_cell_at_point(&self, point: Point<i32>) -> (r: OverlayCell)
        ensures
            r == self.overlay_at(
                Point(
                    div_toward_zero(point.0 as int, CELL_PIXELS as int) as i32,
                    div_toward_zero(point.1 as int, CELL_PIXELS as int) as i32,
                ),
            ),
    {
        let index = get_grid_index(point);
        self.get_overlay_cell(&index)
    }

    /// The colours of the blocks standing on output cells, in raster order.
    pub fn get_outputs(&self) -> (r: Vec<Colour>)
        ensures
            outputs_of(*self, r@),
    {
        let output_coordinates = self.overlay.get_output_coordinates();
        let r = get_coloured_blocks(&self.ground, &output_coordinates);
        proof {
            assert forall|coords: Seq<Point<i32>>| #[trigger]
                lists_zone(coords, self.overlay_layer(), 4) implies r@ == blocks_at(self.ground_layer(), coords) by {
                lemma_raster_sorted_unique(coords, output_coordinates@);
            }
        }
        r
    }

    /// The colours of the blocks standing on input cells, in raster order.
    pub fn get_inputs(&self) -> (r: Vec<Colour>)
        ensures
            forall|coords: Seq<Point<i32>>| #[trigger]
                lists_zone(coords, self.overlay_layer(), 3) ==> r@ == blocks_at(self.ground_layer(), coords),
    {
        let input_coordinates = self.overlay.get_input_coordinates();
        let r = get_coloured_blocks(&self.ground, &input_coordinates);
        proof {
            assert forall|coords: Seq<Point<i32>>| #[trigger]
                lists_zone(coords, self.overlay_layer(), 3) implies r@ == blocks_at(self.ground_layer(), coords) by {
                lemma_raster_sorted_unique(coords, input_coordinates@);
            }
        }
        r
    }

    /// Fills the input cells, in raster order, with blocks of the input's
    /// colours and empties the input cells left over. Fails, leaving the
    /// board unchanged, when there are fewer input cells than colours.
    pub fn set_inputs(&mut self, input: &[Colour]) -> (r: Result<(), NotEnoughInputSpace>)
        requires
            old(self).wf(),
        ensures
            final(self).wf(),
            inputs_placed(*old(self), *final(self), input@, r is Err),
    {
        let input_coordinates = self.overlay.get_input_coordinates();
        proof {
            assert forall|coords: Seq<Point<i32>>| #[trigger]
                lists_zone(coords, old(self).overlay_layer(), 3) implies coords == input_coordinates@ by {
                lemma_raster_sorted_unique(coords, input_coordinates@);
            }
        }
        if input_coordinates.len() < input.len() {
            return Err(NotEnoughInputSpace);
        }
        let ghost coords = input_coordinates@;
        let mut i: usize = 0;
        while i < input_coordinates.len()
            invariant
                i <= input_coordinates.len(),
                coords == input_coordinates@,
                raster_sorted(coords),
                self.wf(),
                self.overlay_layer()@ == old(self).overlay_layer()@,
                forall|j: int| 0 <= j < i ==> self.ground_at(#[trigger] coords[j]) == input_cell(input@, j),
                forall|q: Point<i32>|
                    (forall|j: int| 0 <= j < i ==> coords[j] != q) ==> (#[trigger] self.ground_at(q)).tag()
                        == old(self).ground_at(q).tag() && (old(self).ground_at(q).surround() is None
                        ==> self.ground_at(q) == old(self).ground_at(q)),
                old(self).ground_layer().adjacency_consistent() ==> self.ground_layer().adjacency_consistent(),
            decreases input_coordinates.len() - i,
        {
            let coordinate = input_coordinates[i];
            let cell = if i < input.len() {
                GroundCell::ColouredBlock(input[i])
            } else {
                GroundCell::Empty
            };
            let ghost before = self.ground_layer();
            let ghost before_board = *self;
            self.ground.set_cell(coordinate, cell);
            proof {
                lemma_set_plain(before, self.ground_layer(), coordinate, cell);
                if old(self).ground_layer().adjacency_consistent() {
                    lemma_set_keeps_adjacency(before, self.ground_layer(), coordinate, cell);
                }
                assert forall|j: int| 0 <= j < i + 1 implies self.ground_at(#[trigger] coords[j]) == input_cell(input@, j) by {
                    if j < i {
                        assert(point_lt(coords[j], coords[i as int]));
                        assert(before.cell_at(coords[j]) == input_cell(input@, j));
                    }
                }
                assert forall|q: Point<i32>|
                    (forall|j: int| 0 <= j < i + 1 ==> coords[j] != q) implies (#[trigger] self.ground_at(q)).tag()
                        == old(self).ground_at(q).tag() && (old(self).ground_at(q).surround() is None
                        ==> self.ground_at(q) == old(self).ground_at(q)) by {
                    assert(coords[i as int] != q);
                    assert(forall|j: int| 0 <= j < i ==> coords[j] != q);
                    assert(before_board.ground_at(q) == before.cell_at(q));
                }
            }
            i = i + 1;
        }
        proof {
            assert forall|q: Point<i32>| !coords.contains(q) implies (forall|j: int| 0 <= j < i ==> coords[j] != q) by {
                if exists|j: int| 0 <= j < i && coords[j] == q {
                    let j = choose|j: int| 0 <= j < i && coords[j] == q;
                    assert(coords.contains(q));
                }
            }
        }
        Ok(())
    }
}

} // verus!
