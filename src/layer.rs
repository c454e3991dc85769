use vstd::prelude::*;

use crate::cell::{overlay_tag, Cell, OverlayCell};
use crate::direction::{spec_opposite, Direction};
use crate::point::{key_point, neighbour, point_key, point_lt, Point};
use crate::store::{key_lt, lists_in_order, Key};

verus! {

/// A sparse layer of cells over the unbounded grid: a cell that is not
/// stored holds the layer's default value.
#[derive(Debug)]
#[verifier::reject_recursive_types(T)]
pub struct LevelLayer<T: Cell> {
    layer: im_rc::OrdMap<(i32, i32), T>,
    default: T,
}

/// The cell at `p` after `cell` was written next to it in direction `d`
/// (seen from `p`, the writer sits opposite): only its mask bit towards the
/// writer changes, set when both are of the same kind.
pub open spec fn touched<T: Cell>(neighbour_cell: T, cell: T, d: Direction) -> T {
    neighbour_cell.with_surround(spec_opposite(d), cell.tag() == neighbour_cell.tag())
}

/// The model of a layer: its stored cells and its default.
pub type LayerView<T> = (Map<Key, T>, T);

/// The cell at `p` of a layer model.
pub open spec fn view_cell<T>(v: LayerView<T>, p: Point<i32>) -> T {
    if v.0.contains_key(point_key(p)) {
        v.0[point_key(p)]
    } else {
        v.1
    }
}

/// The value written at `p` when `cell` is set there: its mask records
/// which of the four neighbours are of its kind.
pub open spec fn view_placed<T: Cell>(v: LayerView<T>, p: Point<i32>, cell: T) -> T {
    let a = |d: Direction| cell.tag() == view_cell(v, neighbour(p, d)).tag();
    cell.with_surround(Direction::Up, a(Direction::Up)).with_surround(
        Direction::Right,
        a(Direction::Right),
    ).with_surround(Direction::Down, a(Direction::Down)).with_surround(
        Direction::Left,
        a(Direction::Left),
    )
}

/// The cell at `q` after `cell` is set at `p`.
pub open spec fn view_cell_after_set<T: Cell>(v: LayerView<T>, p: Point<i32>, cell: T, q: Point<i32>) -> T {
    if q == p {
        view_placed(v, p, cell)
    } else if q == neighbour(p, Direction::Up) {
        touched(view_cell(v, q), cell, Direction::Up)
    } else if q == neighbour(p, Direction::Right) {
        touched(view_cell(v, q), cell, Direction::Right)
    } else if q == neighbour(p, Direction::Down) {
        touched(view_cell(v, q), cell, Direction::Down)
    } else if q == neighbour(p, Direction::Left) {
        touched(view_cell(v, q), cell, Direction::Left)
    } else {
        view_cell(v, q)
    }
}

/// The model of a layer after `cell` is set at `p`: the changed cells are
/// stored unless they equal the default.
pub open spec fn view_after_set<T: Cell>(v: LayerView<T>, p: Point<i32>, cell: T) -> LayerView<T> {
    (
        Map::new(
            |k: Key| view_cell_after_set(v, p, cell, key_point(k)) != v.1,
            |k: Key| view_cell_after_set(v, p, cell, key_point(k)),
        ),
        v.1,
    )
}

impl<T: Cell> View for LevelLayer<T> {
    type V = (Map<Key, T>, T);

    closed spec fn view(&self) -> Self::V {
        (T::stored(self.layer), self.default)
    }
}

impl<T: Cell> Clone for LevelLayer<T> {
    fn clone(&self) -> (r: Self)
        ensures
            r@ == self@,
    {
        LevelLayer { layer: T::store_clone(&self.layer), default: self.default }
    }
}

impl<T: Cell> LevelLayer<T> {
    /// The stored cells, by (row, column) key.
    pub open spec fn cells(&self) -> Map<Key, T> {
        self@.0
    }

    /// The value of every cell that is not stored.
    pub open spec fn default_cell(&self) -> T {
        self@.1
    }

    /// No stored cell equals the default: the store is minimal.
    pub open spec fn wf(&self) -> bool {
        forall|k: Key| #[trigger] self.cells().contains_key(k) ==> self.cells()[k] != self.default_cell()
    }

    /// The cell at `p`.
    pub open spec fn cell_at(&self, p: Point<i32>) -> T {
        view_cell(self@, p)
    }

    /// The value written at `p` when `cell` is set there: its mask records
    /// which of the four neighbours are of its kind.
    pub open spec fn placed(&self, p: Point<i32>, cell: T) -> T {
        view_placed(self@, p, cell)
    }

    /// The cell at `q` after `cell` is set at `p`.
    pub open spec fn cell_after_set(&self, p: Point<i32>, cell: T, q: Point<i32>) -> T {
        view_cell_after_set(self@, p, cell, q)
    }

    /// `after` is this layer with `cell` set at `p`.
    pub open spec fn set_result(&self, after: &Self, p: Point<i32>, cell: T) -> bool {
        &&& after.wf()
        &&& after.default_cell() == self.default_cell()
        &&& forall|q: Point<i32>| #[trigger] after.cell_at(q) == self.cell_after_set(p, cell, q)
    }

    /// An empty layer whose every cell is `default`.
    pub fn new(default: T) -> (r: Self)
        ensures
            r.wf(),
            r.default_cell() == default,
            r.cells().dom() == Set::<Key>::empty(),
            forall|q: Point<i32>| #[trigger] r.cell_at(q) == default,
    {
        LevelLayer { layer: T::store_new(), default }
    }

    /// The cell at `point`: the stored value, or the default.
    pub fn get_cell(&self, point: &Point<i32>) -> (r: T)
        ensures
            r == self.cell_at(*point),
    {
        match T::store_get(&self.layer, point.key()) {
            Some(cell) => cell,
            None => self.default,
        }
    }

    /// Whether the layer stores an entry for `point`.
    pub fn is_stored(&self, point: &Point<i32>) -> (r: bool)
        ensures
            r == self.cells().contains_key(point_key(*point)),
    {
        T::store_get(&self.layer, point.key()).is_some()
    }

    /// The stored cells in raster order.
    pub fn entries(&self) -> (r: Vec<(Point<i32>, T)>)
        ensures
            forall|i: int| 0 <= i < r@.len() ==> #[trigger] self.cells().contains_key(point_key(r@[i].0))
                && self.cells()[point_key(r@[i].0)] == r@[i].1,
            forall|i: int, j: int| 0 <= i < j < r@.len() ==> point_lt(r@[i].0, r@[j].0),
            forall|p: Point<i32>| #[trigger] self.cells().contains_key(point_key(p)) ==> exists|i: int| 0 <= i < r@.len() && r@[i].0 == p,
    {
        let stored = T::store_iter(&self.layer);
        let mut r: Vec<(Point<i32>, T)> = Vec::new();
        let mut i: usize = 0;
        while i < stored.len()
            invariant
                i <= stored@.len(),
                lists_in_order(stored@, self.cells()),
                r@.len() == i,
                forall|j: int| 0 <= j < i ==> #[trigger] r@[j].0 == key_point(stored@[j].0) && r@[j].1 == stored@[j].1,
            decreases stored@.len() - i,
        {
            let (k, cell) = stored[i];
            r.push((Point(k.1, k.0), cell));
            i = i + 1;
        }
        proof {
            assert forall|j: int| 0 <= j < r@.len() implies #[trigger] self.cells().contains_key(point_key(r@[j].0))
                && self.cells()[point_key(r@[j].0)] == r@[j].1 by {
                assert(point_key(key_point(stored@[j].0)) == stored@[j].0);
            }
            assert forall|a: int, b: int| 0 <= a < b < r@.len() implies point_lt(r@[a].0, r@[b].0) by {
                assert(key_lt(stored@[a].0, stored@[b].0));
            }
            assert forall|p: Point<i32>| #[trigger] self.cells().contains_key(point_key(p)) implies exists|j: int| 0 <= j < r@.len() && r@[j].0 == p by {
                let j = choose|j: int| 0 <= j < stored@.len() && stored@[j].0 == point_key(p);
                assert(r@[j].0 == p);
            }
        }
        r
    }

    /// The default value.
    pub fn default_value(&self) -> (r: T)
        ensures
            r == self.default_cell(),
    {
        self.default
    }

    /// Stores `cell` at `point`, or removes the entry when it is the default.
    fn set_cell_unchecked(&mut self, point: Point<i32>, cell: T)
        requires
            old(self).wf(),
        ensures
            final(self).wf(),
            final(self).default_cell() == old(self).default_cell(),
            forall|q: Point<i32>| #[trigger]
                final(self).cell_at(q) == if q == point {
                    cell
                } else {
                    old(self).cell_at(q)
                },
    {
        if cell.equals(&self.default) {
            T::store_remove(&mut self.layer, point.key());
        } else {
            T::store_insert(&mut self.layer, point.key(), cell);
        }
        proof {
            assert forall|k: Key| #[trigger] self.cells().contains_key(k) implies self.cells()[k]
                != self.default_cell() by {
                if k != point_key(point) {
                    assert(old(self).cells().contains_key(k));
                }
            }
            assert forall|q: Point<i32>| #[trigger]
                self.cell_at(q) == if q == point {
                    cell
                } else {
                    old(self).cell_at(q)
                } by {
                if q != point {
                    assert(point_key(q) != point_key(point));
                }
            }
        }
    }

    /// Marks the neighbour of `point` in `direction` and `cell` as adjacent
    /// to each other when they are of the same kind.
    fn surround_neighbour(&mut self, point: Point<i32>, cell: &mut T, direction: Direction)
        requires
            old(self).wf(),
        ensures
            final(self).wf(),
            final(self).default_cell() == old(self).default_cell(),
            *final(cell) == old(cell).with_surround(
                direction,
                old(cell).tag() == old(self).cell_at(neighbour(point, direction)).tag(),
            ),
            final(cell).tag() == old(cell).tag(),
            forall|q: Point<i32>| #[trigger]
                final(self).cell_at(q) == if q == neighbour(point, direction) {
                    touched(old(self).cell_at(q), *old(cell), direction)
                } else {
                    old(self).cell_at(q)
                },
    {
        proof {
            let c = *cell;
            c.lemma_with_surround(direction, c.tag() == self.cell_at(neighbour(point, direction)).tag());
        }
        let adjacent = point.step(direction);
        let mut other = self.get_cell(&adjacent);
        cell.calculate_surround(&mut other, direction);
        self.set_cell_unchecked(adjacent, other);
    }

    /// Writes `cell` at `point` and brings the neighbour masks of `point` and
    /// of its four neighbours up to date.
    pub fn set_cell(&mut self, point: Point<i32>, cell: T)
        requires
            old(self).wf(),
        ensures
            old(self).set_result(final(self), point, cell),
    {
        let ghost before = *self;
        let ghost written = cell;
        let mut cell = cell;
        proof {
            crate::point::lemma_neighbours_distinct(point, Direction::Up, Direction::Right);
            crate::point::lemma_neighbours_distinct(point, Direction::Up, Direction::Down);
            crate::point::lemma_neighbours_distinct(point, Direction::Up, Direction::Left);
            crate::point::lemma_neighbours_distinct(point, Direction::Right, Direction::Down);
            crate::point::lemma_neighbours_distinct(point, Direction::Right, Direction::Left);
            crate::point::lemma_neighbours_distinct(point, Direction::Down, Direction::Left);
            crate::point::lemma_neighbour_opposite(point, Direction::Up);
            crate::point::lemma_neighbour_opposite(point, Direction::Right);
            crate::point::lemma_neighbour_opposite(point, Direction::Down);
            crate::point::lemma_neighbour_opposite(point, Direction::Left);
        }
        self.surround_neighbour(point, &mut cell, Direction::Up);
        self.surround_neighbour(point, &mut cell, Direction::Right);
        self.surround_neighbour(point, &mut cell, Direction::Down);
        self.surround_neighbour(point, &mut cell, Direction::Left);
        assert(cell == before.placed(point, written));
        self.set_cell_unchecked(point, cell);
    }

    /// Sets the cell at `point` to `func` applied to its current value.
    pub fn map_cell<F>(&mut self, point: Point<i32>, func: F) where F: FnOnce(T) -> T
        requires
            old(self).wf(),
            func.requires((old(self).cell_at(point),)),
        ensures
            exists|v: T|
                func.ensures((old(self).cell_at(point),), v) && old(self).set_result(
                    final(self),
                    point,
                    v,
                ),
    {
        let value = func(self.get_cell(&point));
        self.set_cell(point, value);
    }

    /// Whether the mask of the cell at `a`, if it has one, marks its
    /// neighbour in direction `d` exactly when that neighbour is of its kind.
    pub open spec fn marks_neighbour(&self, a: Point<i32>, d: Direction) -> bool {
        self.cell_at(a).surround() is Some ==> self.cell_at(a).surround().unwrap().has(d) == (
        self.cell_at(a).tag() == self.cell_at(neighbour(a, d)).tag())
    }

    /// Every mask of the layer is up to date.
    pub open spec fn adjacency_consistent(&self) -> bool {
        forall|a: Point<i32>, d: Direction| #[trigger] self.marks_neighbour(a, d)
    }
}


/// The result of a write is determined by the layer before it: it is
/// `view_after_set` of its model.
pub proof fn lemma_set_result_view<T: Cell>(before: LevelLayer<T>, after: LevelLayer<T>, p: Point<i32>, cell: T)
    requires
        before.set_result(&after, p, cell),
    ensures
        after@ == view_after_set(before@, p, cell),
{
    let w = view_after_set(before@, p, cell);
    assert forall|k: Key| #[trigger] after@.0.contains_key(k) == w.0.contains_key(k) && (after@.0.contains_key(k) ==> after@.0[k] == w.0[k]) by {
        assert(point_key(key_point(k)) == k);
        assert(after.cell_at(key_point(k)) == before.cell_after_set(p, cell, key_point(k)));
        assert(after.default_cell() == before.default_cell());
        if after.cells().contains_key(k) {
            assert(after.cells()[k] != after.default_cell());
        }
    }
    assert(after@.0 =~= w.0);
}

/// Reading a cell of `view_after_set` gives the written layer's cell; a
/// cell without a mask is written as it is.
pub proof fn lemma_view_after_set_cell<T: Cell>(v: LayerView<T>, p: Point<i32>, cell: T, q: Point<i32>)
    ensures
        view_cell(view_after_set(v, p, cell), q) == view_cell_after_set(v, p, cell, q),
        cell.surround() is None ==> view_cell(view_after_set(v, p, cell), p) == cell,
{
    assert(key_point(point_key(q)) == q);
    let a_of = |d: Direction| cell.tag() == view_cell(v, neighbour(p, d)).tag();
    cell.lemma_with_surround(Direction::Up, a_of(Direction::Up));
    cell.lemma_with_surround(Direction::Right, a_of(Direction::Right));
    cell.lemma_with_surround(Direction::Down, a_of(Direction::Down));
    cell.lemma_with_surround(Direction::Left, a_of(Direction::Left));
    assert(key_point(point_key(p)) == p);
}

/// A layer whose default carries no mask starts with every mask up to date.
pub proof fn lemma_new_layer_consistent<T: Cell>(layer: LevelLayer<T>)
    requires
        forall|q: Point<i32>| #[trigger] layer.cell_at(q) == layer.default_cell(),
        layer.default_cell().surround() is None,
    ensures
        layer.adjacency_consistent(),
{
    assert forall|a: Point<i32>, d: Direction| #[trigger] layer.marks_neighbour(a, d) by {
        assert(layer.cell_at(a) == layer.default_cell());
    }
}

/// Writing a cell keeps every mask of the layer up to date: after any
/// sequence of writes to a layer that started consistent, the mask bit of
/// each cell towards a neighbour is set exactly when the neighbour is of the
/// same kind.
pub proof fn lemma_set_keeps_adjacency<T: Cell>(
    before: LevelLayer<T>,
    after: LevelLayer<T>,
    p: Point<i32>,
    cell: T,
)
    requires
        before.adjacency_consistent(),
        before.set_result(&after, p, cell),
    ensures
        after.adjacency_consistent(),
{
    let a_of = |d: Direction| cell.tag() == before.cell_at(neighbour(p, d)).tag();
    let c1 = cell.with_surround(Direction::Up, a_of(Direction::Up));
    let c2 = c1.with_surround(Direction::Right, a_of(Direction::Right));
    let c3 = c2.with_surround(Direction::Down, a_of(Direction::Down));
    cell.lemma_with_surround(Direction::Up, a_of(Direction::Up));
    c1.lemma_with_surround(Direction::Right, a_of(Direction::Right));
    c2.lemma_with_surround(Direction::Down, a_of(Direction::Down));
    c3.lemma_with_surround(Direction::Left, a_of(Direction::Left));
    assert(after.cell_at(p) == before.placed(p, cell));
    if cell.surround() is Some {
        let s0 = cell.surround().unwrap();
        let s1 = s0.with(Direction::Up, a_of(Direction::Up));
        let s2 = s1.with(Direction::Right, a_of(Direction::Right));
        let s3 = s2.with(Direction::Down, a_of(Direction::Down));
        s0.lemma_with(Direction::Up, a_of(Direction::Up));
        s1.lemma_with(Direction::Right, a_of(Direction::Right));
        s2.lemma_with(Direction::Down, a_of(Direction::Down));
        s3.lemma_with(Direction::Left, a_of(Direction::Left));
    }
    // Cells other than `p` keep their kind.
    assert forall|q: Point<i32>| q != p implies #[trigger] after.cell_at(q).tag() == before.cell_at(
        q,
    ).tag() by {
        assert(after.cell_at(q) == before.cell_after_set(p, cell, q));
        if q == neighbour(p, Direction::Up) {
            before.cell_at(q).lemma_with_surround(spec_opposite(Direction::Up), cell.tag() == before.cell_at(q).tag());
        } else if q == neighbour(p, Direction::Right) {
            before.cell_at(q).lemma_with_surround(spec_opposite(Direction::Right), cell.tag() == before.cell_at(q).tag());
        } else if q == neighbour(p, Direction::Down) {
            before.cell_at(q).lemma_with_surround(spec_opposite(Direction::Down), cell.tag() == before.cell_at(q).tag());
        } else if q == neighbour(p, Direction::Left) {
            before.cell_at(q).lemma_with_surround(spec_opposite(Direction::Left), cell.tag() == before.cell_at(q).tag());
        }
    }
    assert forall|a: Point<i32>, d: Direction| #[trigger] after.marks_neighbour(a, d) by {
        let n = neighbour(a, d);
        crate::point::lemma_neighbour_opposite(a, d);
        crate::point::lemma_neighbour_opposite(p, d);
        crate::point::lemma_neighbour_opposite(p, spec_opposite(d));
        assert(before.marks_neighbour(a, d));
        assert(after.cell_at(a) == before.cell_after_set(p, cell, a));
        if a == p {
            assert(n != p);
        } else if n == p {
            // `a` is the neighbour of `p` in the opposite direction.
            let e = spec_opposite(d);
            assert(a == neighbour(p, e));
            crate::point::lemma_neighbours_distinct(p, e, Direction::Up);
            crate::point::lemma_neighbours_distinct(p, e, Direction::Right);
            crate::point::lemma_neighbours_distinct(p, e, Direction::Down);
            crate::point::lemma_neighbours_distinct(p, e, Direction::Left);
            let old_a = before.cell_at(a);
            old_a.lemma_with_surround(d, cell.tag() == old_a.tag());
            if old_a.surround() is Some {
                old_a.surround().unwrap().lemma_with(d, cell.tag() == old_a.tag());
            }
        } else {
            let old_a = before.cell_at(a);
            if a == neighbour(p, Direction::Up) || a == neighbour(p, Direction::Right) || a
                == neighbour(p, Direction::Down) || a == neighbour(p, Direction::Left) {
                let e = if a == neighbour(p, Direction::Up) {
                    Direction::Up
                } else if a == neighbour(p, Direction::Right) {
                    Direction::Right
                } else if a == neighbour(p, Direction::Down) {
                    Direction::Down
                } else {
                    Direction::Left
                };
                crate::point::lemma_neighbours_distinct(p, e, Direction::Up);
                crate::point::lemma_neighbours_distinct(p, e, Direction::Right);
                crate::point::lemma_neighbours_distinct(p, e, Direction::Down);
                crate::point::lemma_neighbours_distinct(p, e, Direction::Left);
                assert(after.cell_at(a) == touched(old_a, cell, e));
                crate::point::lemma_neighbour_opposite(p, e);
                assert(spec_opposite(e) != d);
                old_a.lemma_with_surround(spec_opposite(e), cell.tag() == old_a.tag());
                if old_a.surround() is Some {
                    old_a.surround().unwrap().lemma_with(spec_opposite(e), cell.tag() == old_a.tag());
                }
            }
        }
    }
}

/// Writing a cell without a mask stores it as it is; every other cell keeps
/// its kind, and a cell without a mask stays as it was.
pub proof fn lemma_set_plain<T: Cell>(before: LevelLayer<T>, after: LevelLayer<T>, p: Point<i32>, cell: T)
    requires
        before.set_result(&after, p, cell),
        cell.surround() is None,
    ensures
        after.cell_at(p) == cell,
        forall|q: Point<i32>|
            q != p ==> (#[trigger] after.cell_at(q)).tag() == before.cell_at(q).tag() && (
            before.cell_at(q).surround() is None ==> after.cell_at(q) == before.cell_at(q)),
{
    let a_of = |d: Direction| cell.tag() == before.cell_at(neighbour(p, d)).tag();
    cell.lemma_with_surround(Direction::Up, a_of(Direction::Up));
    cell.lemma_with_surround(Direction::Right, a_of(Direction::Right));
    cell.lemma_with_surround(Direction::Down, a_of(Direction::Down));
    cell.lemma_with_surround(Direction::Left, a_of(Direction::Left));
    assert(after.cell_at(p) == before.cell_after_set(p, cell, p));
    assert forall|q: Point<i32>| q != p implies (#[trigger] after.cell_at(q)).tag() == before.cell_at(
        q,
    ).tag() && (before.cell_at(q).surround() is None ==> after.cell_at(q) == before.cell_at(q)) by {
        assert(after.cell_at(q) == before.cell_after_set(p, cell, q));
        let c = before.cell_at(q);
        c.lemma_with_surround(spec_opposite(Direction::Up), cell.tag() == c.tag());
        c.lemma_with_surround(spec_opposite(Direction::Right), cell.tag() == c.tag());
        c.lemma_with_surround(spec_opposite(Direction::Down), cell.tag() == c.tag());
        c.lemma_with_surround(spec_opposite(Direction::Left), cell.tag() == c.tag());
    }
}

/// Where two neighbouring cells both carry a mask, each marks the other or
/// neither does.
pub proof fn lemma_adjacency_symmetric<T: Cell>(layer: LevelLayer<T>, a: Point<i32>, d: Direction)
    requires
        layer.adjacency_consistent(),
        layer.cell_at(a).surround() is Some,
        layer.cell_at(neighbour(a, d)).surround() is Some,
    ensures
        layer.cell_at(a).surround().unwrap().has(d) == layer.cell_at(neighbour(a, d)).surround().unwrap().has(
            spec_opposite(d),
        ),
{
    crate::point::lemma_neighbour_opposite(a, d);
    assert(layer.marks_neighbour(a, d));
    assert(layer.marks_neighbour(neighbour(a, d), spec_opposite(d)));
}

/// Setting a cell to the layer's default, where the default carries no mask,
/// leaves no entry for it in the store; unset cells read as the default.
pub proof fn lemma_set_default_compacts<T: Cell>(
    before: LevelLayer<T>,
    after: LevelLayer<T>,
    p: Point<i32>,
    q: Point<i32>,
)
    requires
        before.set_result(&after, p, before.default_cell()),
        before.default_cell().surround() is None,
    ensures
        !after.cells().contains_key(point_key(p)),
        after.cell_at(p) == before.default_cell(),
        !after.cells().contains_key(point_key(q)) ==> after.cell_at(q) == after.default_cell(),
{
    let c = before.default_cell();
    let a_of = |d: Direction| c.tag() == before.cell_at(neighbour(p, d)).tag();
    c.lemma_with_surround(Direction::Up, a_of(Direction::Up));
    c.lemma_with_surround(Direction::Right, a_of(Direction::Right));
    c.lemma_with_surround(Direction::Down, a_of(Direction::Down));
    c.lemma_with_surround(Direction::Left, a_of(Direction::Left));
    assert(after.cell_at(p) == before.cell_after_set(p, c, p));
}

/// The points are in strictly increasing raster order.
pub open spec fn raster_sorted(s: Seq<Point<i32>>) -> bool {
    forall|i: int, j: int| 0 <= i < j < s.len() ==> point_lt(s[i], s[j])
}

/// `s` lists, in raster order, exactly the stored overlay cells of the kind
/// with tag `tag`.
pub open spec fn lists_zone(s: Seq<Point<i32>>, layer: LevelLayer<OverlayCell>, tag: int) -> bool {
    &&& raster_sorted(s)
    &&& forall|p: Point<i32>| #[trigger]
        s.contains(p) <==> (layer.cells().contains_key(point_key(p)) && overlay_tag(
            layer.cells()[point_key(p)],
        ) == tag)
}

/// Two raster-sorted sequences with the same points are equal.
pub proof fn lemma_raster_sorted_unique(s: Seq<Point<i32>>, t: Seq<Point<i32>>)
    requires
        raster_sorted(s),
        raster_sorted(t),
        forall|p: Point<i32>| #[trigger] s.contains(p) <==> t.contains(p),
    ensures
        s == t,
    decreases s.len(),
{
    if s.len() == 0 {
        if t.len() > 0 {
            assert(t.contains(t[0]));
            assert(s.contains(t[0]));
        }
        assert(s =~= t);
    } else {
        assert(s.contains(s[0]));
        assert(t.contains(s[0]));
        assert(t.len() > 0);
        assert(t.contains(t[0]));
        assert(s.contains(t[0]));
        let i = choose|i: int| 0 <= i < t.len() && t[i] == s[0];
        let j = choose|j: int| 0 <= j < s.len() && s[j] == t[0];
        assert(s[0] == t[0]) by {
            if i > 0 {
                assert(point_lt(t[0], t[i]));
            }
            if j > 0 {
                assert(point_lt(s[0], s[j]));
            }
        }
        let s1 = s.drop_first();
        let t1 = t.drop_first();
        assert forall|p: Point<i32>| #[trigger] s1.contains(p) <==> t1.contains(p) by {
            if s1.contains(p) {
                let k = choose|k: int| 0 <= k < s1.len() && s1[k] == p;
                assert(s[k + 1] == p);
                assert(s.contains(p));
                assert(point_lt(s[0], p));
                let m = choose|m: int| 0 <= m < t.len() && t[m] == p;
                assert(m != 0);
                assert(t1[m - 1] == p);
            }
            if t1.contains(p) {
                let k = choose|k: int| 0 <= k < t1.len() && t1[k] == p;
                assert(t[k + 1] == p);
                assert(t.contains(p));
                assert(s.contains(p));
                assert(point_lt(t[0], p));
                let m = choose|m: int| 0 <= m < s.len() && s[m] == p;
                assert(m != 0);
                assert(s1[m - 1] == p);
            }
        }
        lemma_raster_sorted_unique(s1, t1);
        assert(s =~= seq![s[0]] + s1);
        assert(t =~= seq![t[0]] + t1);
    }
}

impl LevelLayer<OverlayCell> {
    /// The stored cells of the kind with tag `tag`, in raster order.
    fn zone_coordinates(&self, tag: u8) -> (r: Vec<Point<i32>>)
        ensures
            lists_zone(r@, *self, tag as int),
    {
        let entries = OverlayCell::store_iter(&self.layer);
        let mut r: Vec<Point<i32>> = Vec::new();
        let mut i: usize = 0;
        while i < entries.len()
            invariant
                i <= entries.len(),
                lists_in_order(entries@, self.cells()),
                raster_sorted(r@),
                forall|m: int| #![trigger r@[m]] 0 <= m < r@.len() ==> exists|j: int| 0 <= j < i && #[trigger] entries@[j].0 == point_key(r@[m]),
                forall|p: Point<i32>| #[trigger]
                    r@.contains(p) <==> exists|j: int| 0 <= j < i && entries@[j].0 == point_key(p) && overlay_tag(entries@[j].1) == tag,
            decreases entries.len() - i,
        {
            let (k, cell) = entries[i];
            if cell.kind() == tag {
                let p = Point(k.1, k.0);
                proof {
                    assert forall|m: int| 0 <= m < r@.len() implies point_lt(r@[m], p) by {
                        let j = choose|j: int| 0 <= j < i && #[trigger] entries@[j].0 == point_key(r@[m]);
                        assert(key_lt(entries@[j].0, entries@[i as int].0));
                    }
                }
                let ghost r0 = r@;
                r.push(p);
                proof {
                    assert forall|q: Point<i32>| #[trigger] r@.contains(q) <==> (r0.contains(q) || q == p) by {
                        if r@.contains(q) {
                            let m = choose|m: int| 0 <= m < r@.len() && r@[m] == q;
                            if m < r0.len() {
                                assert(r0[m] == q);
                            }
                        }
                        if r0.contains(q) {
                            let m = choose|m: int| 0 <= m < r0.len() && r0[m] == q;
                            assert(r@[m] == q);
                        }
                        if q == p {
                            assert(r@[r0.len() as int] == q);
                        }
                    }
                    assert forall|m: int| #![trigger r@[m]] 0 <= m < r@.len() implies exists|j: int| 0 <= j < i + 1 && #[trigger] entries@[j].0 == point_key(r@[m]) by {
                        if m < r0.len() {
                            assert(r@[m] == r0[m]);
                        } else {
                            assert(entries@[i as int].0 == point_key(r@[m]));
                        }
                    }
                }
            }
            i = i + 1;
        }
        proof {
            assert forall|p: Point<i32>| #[trigger]
                r@.contains(p) <==> (self.cells().contains_key(point_key(p)) && overlay_tag(
                    self.cells()[point_key(p)],
                ) == tag as int) by {
                if self.cells().contains_key(point_key(p)) {
                    let j = choose|j: int| 0 <= j < entries@.len() && entries@[j].0 == point_key(p);
                    assert(self.cells()[entries@[j].0] == entries@[j].1);
                }
                if r@.contains(p) {
                    let j = choose|j: int| 0 <= j < i && entries@[j].0 == point_key(p) && overlay_tag(entries@[j].1) == tag;
                    assert(self.cells().contains_key(entries@[j].0));
                }
            }
        }
        r
    }

    /// The input zone cells in raster order.
    pub fn get_input_coordinates(&self) -> (r: Vec<Point<i32>>)
        ensures
            lists_zone(r@, *self, 3),
    {
        self.zone_coordinates(3)
    }

    /// The output zone cells in raster order.
    pub fn get_output_coordinates(&self) -> (r: Vec<Point<i32>>)
        ensures
            lists_zone(r@, *self, 4),
    {
        self.zone_coordinates(4)
    }
}

} // verus!
