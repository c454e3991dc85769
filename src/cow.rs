use vstd::prelude::*;

use crate::board::Board;
use crate::cell::{
    spec_rotate_left, spec_rotate_right, spec_success_state, GroundCell, OverlayCell,
    PastureCell,
};
use crate::colour::Colour;
use crate::direction::{spec_opposite, Direction};
use crate::layer::{view_after_set, view_cell, LayerView};
use crate::point::{neighbour, Point};

verus! {

/// The look of an actor.
#[derive(Debug, Clone, Copy, PartialEq, Eq, Structural)]
pub enum CowSprite {
    White,
    Grey,
}

/// What an actor is told to do in one tick.
#[derive(Debug, Clone, Copy, PartialEq, Eq, Structural)]
pub enum Command {
    Auto,
    Halt,
    Walk(Direction),
    PlaceBlock(Colour),
    RotateRight,
    RotateLeft,
}

/// The place of an actor in its collection.
#[derive(Debug, Clone, Copy, PartialEq, Eq, Structural)]
pub struct CowIndex(pub usize);

/// An actor: where it stands, where it faces, and the actors it leads.
#[derive(Debug)]
pub struct Cow {
    position: Point<i32>,
    direction: Direction,
    children: Vec<CowIndex>,
    sprite: CowSprite,
}

/// The model of an actor.
pub struct CowModel {
    pub position: Point<i32>,
    pub direction: Direction,
    pub children: Seq<usize>,
    pub sprite: CowSprite,
}

pub open spec fn child_indices(children: Seq<CowIndex>) -> Seq<usize> {
    children.map_values(|c: CowIndex| c.0)
}

/// A copy of a list of indices.
fn copy_indices(v: &Vec<CowIndex>) -> (r: Vec<CowIndex>)
    ensures
        r@ == v@,
{
    let mut r: Vec<CowIndex> = Vec::new();
    let mut i: usize = 0;
    while i < v.len()
        invariant
            i <= v@.len(),
            r@ == v@.take(i as int),
        decreases v@.len() - i,
    {
        r.push(v[i]);
        assert(v@.take(i + 1) =~= v@.take(i as int).push(v@[i as int]));
        i = i + 1;
    }
    assert(v@.take(i as int) =~= v@);
    r
}

impl Clone for Cow {
    fn clone(&self) -> (r: Self)
        ensures
            r@ == self@,
    {
        Cow {
            position: self.position,
            direction: self.direction,
            children: copy_indices(&self.children),
            sprite: self.sprite,
        }
    }
}

impl View for Cow {
    type V = CowModel;

    closed spec fn view(&self) -> CowModel {
        CowModel {
            position: self.position,
            direction: self.direction,
            children: child_indices(self.children@),
            sprite: self.sprite,
        }
    }
}

/// Whether actors cannot enter the ground cell at `p`.
pub open spec fn solid_at(g: LayerView<GroundCell>, p: Point<i32>) -> bool {
    view_cell(g, p).solid()
}

/// Turn to `d` and take one step that way unless the cell there is solid.
pub open spec fn spec_walk_stop(c: CowModel, g: LayerView<GroundCell>, d: Direction) -> CowModel {
    let f = neighbour(c.position, d);
    CowModel { direction: d, position: if !solid_at(g, f) { f } else { c.position }, ..c }
}

/// Take one step ahead; if that cell is solid, turn round and take one step
/// back unless that cell is solid too. At most one turn.
pub open spec fn spec_walk_bounce(c: CowModel, g: LayerView<GroundCell>) -> CowModel {
    let f = neighbour(c.position, c.direction);
    if !solid_at(g, f) {
        CowModel { position: f, ..c }
    } else {
        let o = spec_opposite(c.direction);
        let b = neighbour(c.position, o);
        CowModel { direction: o, position: if !solid_at(g, b) { b } else { c.position }, ..c }
    }
}

/// The command that a cell hands down to the children of the actor on it.
pub open spec fn spec_child_command(cell: GroundCell) -> Command {
    match cell {
        GroundCell::ColouredBlock(colour) => Command::PlaceBlock(colour),
        GroundCell::ArrowBlock(direction) => Command::Walk(direction),
        GroundCell::RotateRight => Command::RotateRight,
        GroundCell::RotateLeft => Command::RotateLeft,
        _ => Command::Halt,
    }
}

impl Cow {
    pub fn new(position: Point<i32>, direction: Direction, children: Vec<CowIndex>, sprite: CowSprite) -> (r: Self)
        ensures
            r@ == (CowModel { position, direction, children: child_indices(children@), sprite }),
    {
        Cow { position, direction, children, sprite }
    }

    /// The ground cell under the actor.
    fn get_cell(&self, board: &Board) -> (r: GroundCell)
        ensures
            r == view_cell(board@.0, self@.position),
    {
        board.get_ground_cell(&self.position)
    }

    /// Turns to `direction` and steps that way unless the cell there is
    /// solid.
    pub fn walk_stop(&mut self, board: &Board, direction: Direction)
        ensures
            final(self)@ == spec_walk_stop(old(self)@, board@.0, direction),
    {
        self.direction = direction;
        let forwards = self.position.step(direction);
        if !board.get_ground_cell(&forwards).is_solid_to_cows() {
            self.position = forwards;
        }
    }

    /// Steps ahead, or, facing a solid cell, turns round once and steps back
    /// unless that cell is solid too.
    pub fn walk_bounce(&mut self, board: &Board)
        ensures
            final(self)@ == spec_walk_bounce(old(self)@, board@.0),
    {
        let forwards = self.position.step(self.direction);
        if !board.get_ground_cell(&forwards).is_solid_to_cows() {
            self.position = forwards;
            return;
        }
        let opposite_dir = self.direction.opposite();
        self.direction = opposite_dir;
        let backwards = self.position.step(opposite_dir);
        if !board.get_ground_cell(&backwards).is_solid_to_cows() {
            self.position = backwards;
        }
    }

    fn place_block(&self, board: &mut Board, colour: Colour)
        requires
            old(board).wf(),
        ensures
            final(board).wf(),
            final(board)@ == (
                view_after_set(old(board)@.0, self@.position, GroundCell::ColouredBlock(colour)),
                old(board)@.1,
            ),
    {
        board.set_ground_cell(self.position, GroundCell::ColouredBlock(colour));
    }

    fn rotate_block_right(&self, board: &mut Board)
        requires
            old(board).wf(),
        ensures
            final(board).wf(),
            final(board)@ == (
                view_after_set(
                    old(board)@.0,
                    self@.position,
                    spec_rotate_right(view_cell(old(board)@.0, self@.position)),
                ),
                old(board)@.1,
            ),
    {
        let cell = board.get_ground_cell(&self.position);
        board.set_ground_cell(self.position, cell.rotate_right());
    }

    fn rotate_block_left(&self, board: &mut Board)
        requires
            old(board).wf(),
        ensures
            final(board).wf(),
            final(board)@ == (
                view_after_set(
                    old(board)@.0,
                    self@.position,
                    spec_rotate_left(view_cell(old(board)@.0, self@.position)),
                ),
                old(board)@.1,
            ),
    {
        let cell = board.get_ground_cell(&self.position);
        board.set_ground_cell(self.position, cell.rotate_left());
    }
}

/// The actors' models and the ground they change, as one tick sees them.
pub struct Herd {
    pub cows: Seq<CowModel>,
    pub ground: LayerView<GroundCell>,
}

/// The children lists of the actors.
pub open spec fn topology(cows: Seq<CowModel>) -> Seq<Seq<usize>> {
    cows.map_values(|c: CowModel| c.children)
}

/// `rank` decreases from every actor to each of its children, and every
/// child index names an actor: the hierarchy is a forest (no actor is its
/// own ancestor).
pub open spec fn ranked(topo: Seq<Seq<usize>>, rank: Seq<nat>) -> bool {
    &&& rank.len() == topo.len()
    &&& forall|i: int, j: int|
        0 <= i < topo.len() && 0 <= j < topo[i].len() ==> (#[trigger] topo[i][j]) < topo.len()
            && rank[topo[i][j] as int] < rank[i]
}

/// Replaces the model of actor `i`.
pub open spec fn with_cow(h: Herd, i: int, c: CowModel) -> Herd {
    Herd { cows: h.cows.update(i, c), ..h }
}

/// Whether some child of actor `i` stands on a block of `colour`.
pub open spec fn child_on_colour(h: Herd, i: int, colour: Colour) -> bool {
    exists|j: int|
        0 <= j < h.cows[i].children.len() && view_cell(
            h.ground,
            h.cows[#[trigger] h.cows[i].children[j] as int].position,
        ) == GroundCell::ColouredBlock(colour)
}

/// Actor `i` carries out `cmd` itself, once its children have moved.
pub open spec fn spec_apply_self(h: Herd, i: int, cmd: Command) -> Herd {
    let c = h.cows[i];
    let cell = view_cell(h.ground, c.position);
    match cmd {
        Command::Auto => match cell {
            GroundCell::Arrow(d) => with_cow(h, i, spec_walk_stop(c, h.ground, d)),
            GroundCell::ColouredArrow(colour, d) => if child_on_colour(h, i, colour) {
                with_cow(h, i, spec_walk_stop(c, h.ground, d))
            } else {
                with_cow(h, i, spec_walk_bounce(c, h.ground))
            },
            _ => with_cow(h, i, spec_walk_bounce(c, h.ground)),
        },
        Command::Halt => h,
        Command::Walk(d) => with_cow(h, i, spec_walk_stop(c, h.ground, d)),
        Command::PlaceBlock(colour) => Herd {
            ground: view_after_set(h.ground, c.position, GroundCell::ColouredBlock(colour)),
            ..h
        },
        Command::RotateRight => Herd {
            ground: view_after_set(h.ground, c.position, spec_rotate_right(cell)),
            ..h
        },
        Command::RotateLeft => Herd {
            ground: view_after_set(h.ground, c.position, spec_rotate_left(cell)),
            ..h
        },
    }
}

/// One tick of actor `i` under `cmd`: first the command derived from the
/// cell under it goes down to each of its children in turn, each child
/// finishing its own subtree, then the actor carries out `cmd`.
pub open spec fn spec_command(topo: Seq<Seq<usize>>, rank: Seq<nat>, i: int, cmd: Command, h: Herd) -> Herd
    decreases rank[i] as int, 1int, 0int,
    when ranked(topo, rank) && 0 <= i < topo.len()
{
    let child_cmd = spec_child_command(view_cell(h.ground, h.cows[i].position));
    let h1 = spec_children(topo, rank, i, child_cmd, topo[i].len() as int, h);
    spec_apply_self(h1, i, cmd)
}

/// The first `n` children of actor `i` carry out `cmd` in order.
pub open spec fn spec_children(
    topo: Seq<Seq<usize>>,
    rank: Seq<nat>,
    i: int,
    cmd: Command,
    n: int,
    h: Herd,
) -> Herd
    decreases rank[i] as int, 0int, n,
    when ranked(topo, rank) && 0 <= i < topo.len() && n <= topo[i].len()
{
    if n <= 0 {
        h
    } else {
        let h1 = spec_children(topo, rank, i, cmd, n - 1, h);
        spec_command(topo, rank, topo[i][n - 1] as int, cmd, h1)
    }
}

/// The roots of the forest run `Auto`, in the order listed.
pub open spec fn spec_roots(topo: Seq<Seq<usize>>, rank: Seq<nat>, roots: Seq<usize>, n: int, h: Herd) -> Herd
    decreases n,
{
    if n <= 0 {
        h
    } else {
        let h1 = spec_roots(topo, rank, roots, n - 1, h);
        spec_command(topo, rank, roots[n - 1] as int, Command::Auto, h1)
    }
}

/// The data an actor is built from: position, facing, look, and the
/// indices of its children.
pub type CowData = (Point<i32>, Direction, CowSprite, Vec<usize>);

/// The children lists of the actors described by `data`.
pub open spec fn data_topology(data: Seq<CowData>) -> Seq<Seq<usize>> {
    data.map_values(|d: CowData| d.3@)
}

/// Whether actor `k` runs on its own each tick: it is not the player and
/// no actor lists it as a child.
pub open spec fn is_root(topo: Seq<Seq<usize>>, player: int, k: int) -> bool {
    &&& k != player
    &&& !exists|a: int, b: int| 0 <= a < topo.len() && 0 <= b < topo[a].len() && topo[a][b] == k
}

/// `data` describes a forest of actors with a player among them.
pub open spec fn valid_cow_data(player: int, data: Seq<CowData>) -> bool {
    &&& 0 <= player < data.len()
    &&& exists|rank: Seq<nat>| ranked(data_topology(data), rank)
}

/// How each actor stands, from the overlay cell under it.
pub open spec fn cow_states(cows: Seq<CowModel>, overlay: LayerView<OverlayCell>) -> Seq<
    crate::success::SuccessState,
> {
    cows.map_values(|c: CowModel| spec_success_state(view_cell(overlay, c.position)))
}

/// The actor collection: the actors, the player, and the actors without a
/// parent, which move on their own every tick.
pub struct Cows {
    player: CowIndex,
    parents: Vec<CowIndex>,
    cows: Vec<Cow>,
    rank: Ghost<Seq<nat>>,
}

impl Clone for Cows {
    fn clone(&self) -> (r: Self)
        ensures
            r.models() == self.models(),
            r.player_index() == self.player_index(),
            r.roots() == self.roots(),
            r.ranks() == self.ranks(),
    {
        let mut cows: Vec<Cow> = Vec::new();
        let mut i: usize = 0;
        while i < self.cows.len()
            invariant
                i <= self.cows@.len(),
                cows@.len() == i,
                forall|j: int| 0 <= j < i ==> #[trigger] cows@[j]@ == self.cows@[j]@,
            decreases self.cows@.len() - i,
        {
            cows.push(self.cows[i].clone());
            i = i + 1;
        }
        let r = Cows { player: self.player, parents: copy_indices(&self.parents), cows, rank: Ghost(self.rank@) };
        assert(r.models() =~= self.models());
        r
    }
}

impl Cows {
    pub closed spec fn models(&self) -> Seq<CowModel> {
        self.cows@.map_values(|c: Cow| c@)
    }

    pub closed spec fn player_index(&self) -> int {
        self.player.0 as int
    }

    pub closed spec fn roots(&self) -> Seq<usize> {
        child_indices(self.parents@)
    }

    pub closed spec fn ranks(&self) -> Seq<nat> {
        self.rank@
    }

    pub open spec fn wf(&self) -> bool {
        &&& ranked(topology(self.models()), self.ranks())
        &&& 0 <= self.player_index() < self.models().len()
        &&& forall|j: int| 0 <= j < self.roots().len() ==> #[trigger] self.roots()[j] < self.models().len()
    }

    /// The herd that a tick of these actors on `board` starts from.
    pub open spec fn herd(&self, board: &Board) -> Herd {
        Herd { cows: self.models(), ground: board@.0 }
    }

    /// Builds the collection from each actor's data. The roots are the actors
    /// other than the player that no actor lists as a child, in index order.
    pub fn new(player: usize, cow_data: Vec<CowData>) -> (r: Self)
        requires
            valid_cow_data(player as int, cow_data@),
        ensures
            r.wf(),
            r.player_index() == player,
            r.models().len() == cow_data@.len(),
            forall|i: int|
                0 <= i < cow_data@.len() ==> #[trigger] r.models()[i] == (CowModel {
                    position: cow_data@[i].0,
                    direction: cow_data@[i].1,
                    children: cow_data@[i].3@,
                    sprite: cow_data@[i].2,
                }),
            forall|i: int, j: int| 0 <= i < j < r.roots().len() ==> r.roots()[i] < r.roots()[j],
            forall|k: int|
                0 <= k < cow_data@.len() ==> (r.roots().contains(k as usize) <==> is_root(
                    data_topology(cow_data@),
                    player as int,
                    k,
                )),
            forall|j: int| 0 <= j < r.roots().len() ==> #[trigger] r.roots()[j] < cow_data@.len(),
    {
        let ghost topo = data_topology(cow_data@);
        let ghost rank = choose|rank: Seq<nat>| ranked(topo, rank);
        let n = cow_data.len();
        // Which actors are roots.
        let mut is_parent: Vec<bool> = Vec::new();
        let mut k: usize = 0;
        while k < n
            invariant
                k <= n,
                is_parent@.len() == k,
                forall|m: int| 0 <= m < k ==> #[trigger] is_parent@[m] == (m != player),
            decreases n - k,
        {
            is_parent.push(k != player);
            k = k + 1;
        }
        let mut i: usize = 0;
        while i < n
            invariant
                n == cow_data@.len(),
                topo == data_topology(cow_data@),
                ranked(topo, rank),
                i <= n,
                is_parent@.len() == n,
                forall|m: int|
                    0 <= m < n ==> #[trigger] is_parent@[m] == (m != player && !exists|a: int, b: int|
                        0 <= a < i && 0 <= b < topo[a].len() && topo[a][b] == m),
            decreases n - i,
        {
            let children = &cow_data[i].3;
            assert(topo[i as int] == children@);
            let mut j: usize = 0;
            while j < children.len()
                invariant
                    n == cow_data@.len(),
                    topo == data_topology(cow_data@),
                    ranked(topo, rank),
                    i < n,
                    topo[i as int] == children@,
                    j <= children@.len(),
                    is_parent@.len() == n,
                    forall|m: int|
                        0 <= m < n ==> #[trigger] is_parent@[m] == (m != player && !exists|a: int, b: int|
                            ((0 <= a < i && 0 <= b < topo[a].len()) || (a == i && 0 <= b < j)) && topo[a][b] == m),
                decreases children@.len() - j,
            {
                let c = children[j];
                assert(topo[i as int][j as int] == c);
                is_parent.set(c, false);
                j = j + 1;
            }
            i = i + 1;
        }
        let mut parents: Vec<CowIndex> = Vec::new();
        let mut k: usize = 0;
        while k < n
            invariant
                k <= n,
                is_parent@.len() == n,
                forall|i: int, j: int| 0 <= i < j < child_indices(parents@).len() ==> child_indices(parents@)[i] < child_indices(parents@)[j],
                forall|j: int| 0 <= j < child_indices(parents@).len() ==> #[trigger] child_indices(parents@)[j] < k,
                forall|m: int| 0 <= m < n ==> (child_indices(parents@).contains(m as usize) <==> (m < k && #[trigger] is_parent@[m])),
            decreases n - k,
        {
            let ghost before = child_indices(parents@);
            if is_parent[k] {
                parents.push(CowIndex(k));
                assert(child_indices(parents@) =~= before.push(k));
                assert forall|x: usize| #[trigger] child_indices(parents@).contains(x) <==> (before.contains(x) || x == k) by {
                    if child_indices(parents@).contains(x) {
                        let t = choose|t: int| 0 <= t < child_indices(parents@).len() && child_indices(parents@)[t] == x;
                        if t < before.len() {
                            assert(before[t] == x);
                        }
                    }
                    if before.contains(x) {
                        let t = choose|t: int| 0 <= t < before.len() && before[t] == x;
                        assert(child_indices(parents@)[t] == x);
                    }
                    if x == k {
                        assert(child_indices(parents@)[before.len() as int] == x);
                    }
                }
            }
            assert forall|m: int| 0 <= m < n implies (child_indices(parents@).contains(m as usize) <==> (m < k + 1 && #[trigger] is_parent@[m])) by {
                if m == k && !is_parent@[m] {
                    if child_indices(parents@).contains(m as usize) {
                        let t = choose|t: int| 0 <= t < before.len() && before[t] == m as usize;
                        assert(before[t] < k);
                    }
                }
            }
            k = k + 1;
        }
        // The actors themselves.
        let mut cows: Vec<Cow> = Vec::new();
        let mut i: usize = 0;
        while i < n
            invariant
                n == cow_data@.len(),
                i <= n,
                cows@.len() == i,
                forall|m: int| 0 <= m < i ==> #[trigger] cows@[m]@ == (CowModel {
                    position: cow_data@[m].0,
                    direction: cow_data@[m].1,
                    children: cow_data@[m].3@,
                    sprite: cow_data@[m].2,
                }),
            decreases n - i,
        {
            let data = &cow_data[i];
            let mut children: Vec<CowIndex> = Vec::new();
            let mut j: usize = 0;
            while j < data.3.len()
                invariant
                    j <= data.3@.len(),
                    child_indices(children@) == data.3@.take(j as int),
                decreases data.3@.len() - j,
            {
                let ghost before = children@;
                children.push(CowIndex(data.3[j]));
                assert(children@ =~= before.push(CowIndex(data.3@[j as int])));
                assert(child_indices(children@) =~= child_indices(before).push(data.3@[j as int]));
                assert(data.3@.take(j + 1) =~= data.3@.take(j as int).push(data.3@[j as int]));
                j = j + 1;
            }
            assert(data.3@.take(j as int) =~= data.3@);
            cows.push(Cow::new(data.0, data.1, children, data.2));
            i = i + 1;
        }
        let r = Cows { player: CowIndex(player), parents, cows, rank: Ghost(rank) };
        proof {
            assert(r.models().len() == n);
            assert forall|m: int| 0 <= m < n implies #[trigger] r.models()[m] == cows@[m]@ by {}
            assert(topology(r.models()) =~= topo);
            assert forall|m: int| 0 <= m < n implies (r.roots().contains(m as usize) <==> is_root(topo, player as int, m)) by {
                assert(is_parent@[m] == (m != player && !exists|a: int, b: int|
                        0 <= a < n && 0 <= b < topo[a].len() && topo[a][b] == m));
            }
        }
        r
    }

    /// Builds the collection when `cow_data` describes a forest with the
    /// player among its actors; `None` for a child index out of range, an
    /// actor that is its own ancestor, or a player index out of range.
    pub fn try_new(player: usize, cow_data: Vec<CowData>) -> (r: Option<Self>)
        ensures
            r is Some <==> valid_cow_data(player as int, cow_data@),
            match r {
                Some(c) => {
                    &&& c.wf()
                    &&& c.player_index() == player
                    &&& c.models().len() == cow_data@.len()
                    &&& topology(c.models()) == data_topology(cow_data@)
                    &&& forall|i: int|
                        0 <= i < cow_data@.len() ==> #[trigger] c.models()[i] == (CowModel {
                            position: cow_data@[i].0,
                            direction: cow_data@[i].1,
                            children: cow_data@[i].3@,
                            sprite: cow_data@[i].2,
                        })
                    &&& forall|i: int, j: int| 0 <= i < j < c.roots().len() ==> c.roots()[i] < c.roots()[j]
                    &&& forall|k: int|
                        0 <= k < cow_data@.len() ==> (c.roots().contains(k as usize) <==> is_root(
                            data_topology(cow_data@),
                            player as int,
                            k,
                        ))
                },
                None => true,
            },
    {
        if player >= cow_data.len() {
            return None;
        }
        match crate::forest::forest_ranks(&cow_data) {
            Some(ranks) => {
                let ghost topo = data_topology(cow_data@);
                let ghost data = cow_data@;
                let cows = Cows::new(player, cow_data);
                proof {
                    assert(ranked(topo, ranks@.map_values(|x: usize| x as nat)));
                    assert(topology(cows.models()) =~= topo) by {
                        assert forall|i: int| 0 <= i < topo.len() implies #[trigger] topology(cows.models())[i] == topo[i] by {
                            assert(cows.models()[i] == cows.models()[i]);
                        }
                    }
                }
                Some(cows)
            },
            None => None,
        }
    }

    /// The actors registered on a fence or wall, in index order. A tick hands
    /// such an actor's children `Halt`; this is how the fault in the level
    /// data is reported.
    pub fn cows_in_solid(&self, board: &Board) -> (r: Vec<usize>)
        ensures
            forall|t: int, u: int| 0 <= t < u < r@.len() ==> r@[t] < r@[u],
            forall|k: usize|
                r@.contains(k) <==> (k < self.models().len() && solid_at(
                    board@.0,
                    self.models()[k as int].position,
                )),
    {
        let mut r: Vec<usize> = Vec::new();
        let mut i: usize = 0;
        while i < self.cows.len()
            invariant
                i <= self.cows@.len(),
                self.models().len() == self.cows@.len(),
                forall|t: int| 0 <= t < r@.len() ==> #[trigger] r@[t] < i,
                forall|t: int, u: int| 0 <= t < u < r@.len() ==> r@[t] < r@[u],
                forall|k: usize|
                    r@.contains(k) <==> (k < i && solid_at(board@.0, self.models()[k as int].position)),
            decreases self.cows@.len() - i,
        {
            assert(self.models()[i as int] == self.cows@[i as int]@);
            let ghost before = r@;
            if self.cows[i].get_cell(board).is_solid_to_cows() {
                r.push(i);
            }
            proof {
                assert forall|k: usize|
                    r@.contains(k) <==> (k < i + 1 && solid_at(board@.0, self.models()[k as int].position)) by {
                    if r@.contains(k) {
                        let t = choose|t: int| 0 <= t < r@.len() && r@[t] == k;
                        if t < before.len() {
                            assert(before[t] == k);
                            assert(before.contains(k));
                        }
                    }
                    if k < i && before.contains(k) {
                        let t = choose|t: int| 0 <= t < before.len() && before[t] == k;
                        assert(r@[t] == k);
                    }
                    if k == i && solid_at(board@.0, self.models()[k as int].position) {
                        assert(r@[before.len() as int] == k);
                    }
                    if k == i && before.contains(k) {
                        let t = choose|t: int| 0 <= t < before.len() && before[t] == k;
                        assert(before[t] < i);
                    }
                }
            }
            i = i + 1;
        }
        r
    }

    /// The number of actors.
    pub fn len(&self) -> (r: usize)
        ensures
            r == self.models().len(),
    {
        self.cows.len()
    }

    /// Where actor `i` stands.
    pub fn position_of(&self, i: usize) -> (r: Point<i32>)
        requires
            i < self.models().len(),
        ensures
            r == self.models()[i as int].position,
    {
        self.cows[i].position
    }

    /// The look of actor `i`.
    pub fn sprite_of(&self, i: usize) -> (r: CowSprite)
        requires
            i < self.models().len(),
        ensures
            r == self.models()[i as int].sprite,
    {
        self.cows[i].sprite
    }

    /// The children of actor `i`.
    pub fn children_of(&self, i: usize) -> (r: Vec<usize>)
        requires
            i < self.models().len(),
        ensures
            r@ == self.models()[i as int].children,
    {
        let children = &self.cows[i].children;
        let mut r: Vec<usize> = Vec::new();
        let mut k: usize = 0;
        while k < children.len()
            invariant
                k <= children@.len(),
                r@ == child_indices(children@).take(k as int),
            decreases children@.len() - k,
        {
            r.push(children[k].0);
            assert(child_indices(children@).take(k + 1) =~= child_indices(children@).take(k as int).push(children@[k as int].0));
            k = k + 1;
        }
        assert(child_indices(children@).take(k as int) =~= child_indices(children@));
        r
    }

    /// The player actor.
    pub fn player(&self) -> (r: usize)
        ensures
            r == self.player_index(),
    {
        self.player.0
    }

    /// Where actor `i` faces.
    pub fn direction_of(&self, i: usize) -> (r: Direction)
        requires
            i < self.models().len(),
        ensures
            r == self.models()[i as int].direction,
    {
        self.cows[i].direction
    }

    /// The actors that move on their own every tick.
    pub fn root_indices(&self) -> (r: Vec<usize>)
        ensures
            r@ == self.roots(),
    {
        let mut r: Vec<usize> = Vec::new();
        let mut k: usize = 0;
        while k < self.parents.len()
            invariant
                k <= self.parents@.len(),
                r@ == self.roots().take(k as int),
            decreases self.parents@.len() - k,
        {
            r.push(self.parents[k].0);
            assert(self.roots().take(k + 1) =~= self.roots().take(k as int).push(self.roots()[k as int]));
            k = k + 1;
        }
        assert(self.roots().take(k as int) =~= self.roots());
        r
    }

    /// Whether some child of actor `i` stands on a block of `colour`.
    fn any_child_on_colour(&self, cow_index: CowIndex, board: &Board, colour: Colour) -> (r: bool)
        requires
            self.wf(),
            cow_index.0 < self.models().len(),
        ensures
            r == child_on_colour(self.herd(board), cow_index.0 as int, colour),
    {
        let ghost h = self.herd(board);
        let ghost i = cow_index.0 as int;
        let n = self.cows[cow_index.0].children.len();
        let mut j: usize = 0;
        while j < n
            invariant
                self.wf(),
                i == cow_index.0,
                0 <= i < self.models().len(),
                h == self.herd(board),
                n == h.cows[i].children.len(),
                j <= n,
                forall|k: int|
                    0 <= k < j ==> view_cell(h.ground, h.cows[#[trigger] h.cows[i].children[k] as int].position)
                        != GroundCell::ColouredBlock(colour),
            decreases n - j,
        {
            assert(self.models()[i] == self.cows@[i]@);
            let child = self.cows[cow_index.0].children[j];
            assert(h.cows[i].children[j as int] == child.0);
            assert(topology(self.models())[i][j as int] == child.0);
            let cell = self.cows[child.0].get_cell(board);
            assert(self.models()[child.0 as int] == self.cows@[child.0 as int]@);
            if cell == GroundCell::ColouredBlock(colour) {
                return true;
            }
            j = j + 1;
        }
        false
    }

    /// Actor `i` carries out `command` itself.
    fn apply_self(&mut self, cow_index: CowIndex, board: &mut Board, command: Command)
        requires
            old(self).wf(),
            old(board).wf(),
            cow_index.0 < old(self).models().len(),
        ensures
            final(self).wf(),
            final(board).wf(),
            topology(final(self).models()) == topology(old(self).models()),
            final(self).ranks() == old(self).ranks(),
            final(self).roots() == old(self).roots(),
            final(self).player_index() == old(self).player_index(),
            final(board)@.1 == old(board)@.1,
            final(self).herd(final(board)) == spec_apply_self(old(self).herd(old(board)), cow_index.0 as int, command),
    {
        let i = cow_index.0;
        let ghost h = self.herd(board);
        assert(self.models()[i as int] == self.cows@[i as int]@);
        match command {
            Command::Auto => {
                let cell = self.cows[i].get_cell(board);
                match cell {
                    GroundCell::Arrow(direction) => {
                        self.cows[i].walk_stop(board, direction);
                    },
                    GroundCell::ColouredArrow(colour, direction) => {
                        if self.any_child_on_colour(cow_index, board, colour) {
                            self.cows[i].walk_stop(board, direction);
                        } else {
                            self.cows[i].walk_bounce(board);
                        }
                    },
                    _ => {
                        self.cows[i].walk_bounce(board);
                    },
                }
            },
            Command::Halt => {},
            Command::Walk(direction) => {
                self.cows[i].walk_stop(board, direction);
            },
            Command::PlaceBlock(colour) => {
                self.cows[i].place_block(board, colour);
            },
            Command::RotateLeft => {
                self.cows[i].rotate_block_left(board);
            },
            Command::RotateRight => {
                self.cows[i].rotate_block_right(board);
            },
        }
        proof {
            assert(self.models() =~= old(self).models().update(i as int, self.cows@[i as int]@));
            assert(topology(self.models()) =~= topology(old(self).models()));
            assert(self.ranks() == old(self).ranks());
            assert(self.roots() == old(self).roots());
            assert(self.models().len() == old(self).models().len());
            assert(ranked(topology(self.models()), self.ranks()));
        }
    }

    /// Actor `i` runs one tick under `command`: its children first, with the
    /// command derived from the cell under it, then itself.
    fn command(&mut self, cow_index: CowIndex, board: &mut Board, command: Command)
        requires
            old(self).wf(),
            old(board).wf(),
            cow_index.0 < old(self).models().len(),
        ensures
            final(self).wf(),
            final(board).wf(),
            topology(final(self).models()) == topology(old(self).models()),
            final(self).ranks() == old(self).ranks(),
            final(self).roots() == old(self).roots(),
            final(self).player_index() == old(self).player_index(),
            final(board)@.1 == old(board)@.1,
            final(self).herd(final(board)) == spec_command(
                topology(old(self).models()),
                old(self).ranks(),
                cow_index.0 as int,
                command,
                old(self).herd(old(board)),
            ),
        decreases old(self).ranks()[cow_index.0 as int], 1int,
    {
        self.update_children(cow_index, board);
        self.apply_self(cow_index, board, command);
    }

    /// The children of actor `i`, in order, each run one tick under the
    /// command derived from the cell under `i`.
    fn update_children(&mut self, cow_index: CowIndex, board: &mut Board)
        requires
            old(self).wf(),
            old(board).wf(),
            cow_index.0 < old(self).models().len(),
        ensures
            final(self).wf(),
            final(board).wf(),
            topology(final(self).models()) == topology(old(self).models()),
            final(self).ranks() == old(self).ranks(),
            final(self).roots() == old(self).roots(),
            final(self).player_index() == old(self).player_index(),
            final(board)@.1 == old(board)@.1,
            final(self).herd(final(board)) == spec_children(
                topology(old(self).models()),
                old(self).ranks(),
                cow_index.0 as int,
                spec_child_command(view_cell(old(board)@.0, old(self).models()[cow_index.0 as int].position)),
                topology(old(self).models())[cow_index.0 as int].len() as int,
                old(self).herd(old(board)),
            ),
        decreases old(self).ranks()[cow_index.0 as int], 0int,
    {
        let i = cow_index.0;
        let ghost topo = topology(self.models());
        let ghost rank = self.ranks();
        let ghost h0 = self.herd(board);
        assert(self.models()[i as int] == self.cows@[i as int]@);
        let cell = self.cows[i].get_cell(board);
        let child_command = match cell {
            GroundCell::ColouredBlock(colour) => Command::PlaceBlock(colour),
            GroundCell::ArrowBlock(direction) => Command::Walk(direction),
            GroundCell::RotateRight => Command::RotateRight,
            GroundCell::RotateLeft => Command::RotateLeft,
            _ => Command::Halt,
        };
        let n = self.cows[i].children.len();
        assert(topo[i as int] == self.models()[i as int].children);
        let mut j: usize = 0;
        while j < n
            invariant
                self.wf(),
                board.wf(),
                i == cow_index.0,
                0 <= i < self.models().len(),
                topology(self.models()) == topo,
                self.ranks() == rank,
                rank == old(self).ranks(),
                self.roots() == old(self).roots(),
                self.player_index() == old(self).player_index(),
                board@.1 == old(board)@.1,
                ranked(topo, rank),
                n == topo[i as int].len(),
                j <= n,
                self.herd(board) == spec_children(topo, rank, i as int, child_command, j as int, h0),
            decreases n - j,
        {
            assert(self.models()[i as int] == self.cows@[i as int]@);
            assert(topology(self.models())[i as int] == self.models()[i as int].children);
            let child = self.cows[i].children[j];
            assert(topo[i as int][j as int] == child.0);
            assert(rank[child.0 as int] < rank[i as int]);
            self.command(child, board, child_command);
            j = j + 1;
        }
    }

    /// One tick: the player runs `command`, then every root actor runs
    /// `Auto`, in the order of the roots listed at construction.
    pub fn command_player(&mut self, board: &mut Board, command: Command)
        requires
            old(self).wf(),
            old(board).wf(),
        ensures
            final(self).wf(),
            final(board).wf(),
            topology(final(self).models()) == topology(old(self).models()),
            final(self).ranks() == old(self).ranks(),
            final(self).roots() == old(self).roots(),
            final(self).player_index() == old(self).player_index(),
            final(board)@.1 == old(board)@.1,
            final(self).herd(final(board)) == spec_roots(
                topology(old(self).models()),
                old(self).ranks(),
                old(self).roots(),
                old(self).roots().len() as int,
                spec_command(
                    topology(old(self).models()),
                    old(self).ranks(),
                    old(self).player_index(),
                    command,
                    old(self).herd(old(board)),
                ),
            ),
    {
        let ghost topo = topology(self.models());
        let ghost rank = self.ranks();
        let ghost roots = self.roots();
        self.command(self.player, board, command);
        let ghost h1 = self.herd(board);
        // The roots are read once, before any actor moves.
        let n = self.parents.len();
        let mut k: usize = 0;
        while k < n
            invariant
                self.wf(),
                board.wf(),
                topology(self.models()) == topo,
                self.ranks() == rank,
                self.roots() == roots,
                roots == old(self).roots(),
                topo == topology(old(self).models()),
                rank == old(self).ranks(),
                self.player_index() == old(self).player_index(),
                board@.1 == old(board)@.1,
                n == roots.len(),
                k <= n,
                self.herd(board) == spec_roots(topo, rank, roots, k as int, h1),
            decreases n - k,
        {
            let root = self.parents[k];
            assert(roots[k as int] == root.0);
            self.command(root, board, Command::Auto);
            k = k + 1;
        }
    }

    /// How the run stands, from the overlay cell under every actor.
    pub fn success_state(&self, board: &Board) -> (r: crate::success::SuccessState)
        ensures
            r == crate::success::combine_all(cow_states(self.models(), board@.1)),
    {
        let mut acc = crate::success::SuccessState::Succeeded;
        let mut i: usize = 0;
        while i < self.cows.len()
            invariant
                i <= self.cows.len(),
                self.models().len() == self.cows@.len(),
                acc == crate::success::combine_all(cow_states(self.models().take(i as int), board@.1)),
            decreases self.cows.len() - i,
        {
            assert(self.models()[i as int] == self.cows@[i as int]@);
            assert(cow_states(self.models().take(i + 1), board@.1).drop_last() =~= cow_states(
                self.models().take(i as int),
                board@.1,
            ));
            let cell = board.get_overlay_cell(&self.cows[i].position);
            acc.combine(cell.success_state());
            i = i + 1;
        }
        assert(self.models().take(i as int) =~= self.models());
        acc
    }
}

/// A bounce walk between two solid cells turns the actor round exactly once
/// and leaves it where it stands.
pub proof fn lemma_bounce_walk_blocked(c: CowModel, g: LayerView<GroundCell>)
    requires
        solid_at(g, neighbour(c.position, c.direction)),
        solid_at(g, neighbour(c.position, spec_opposite(c.direction))),
    ensures
        spec_walk_bounce(c, g).position == c.position,
        spec_walk_bounce(c, g).direction == spec_opposite(c.direction),
        spec_walk_bounce(c, g).children == c.children,
{
}

/// Children move before their parent, under the command derived from the
/// cell under the parent before it moves: the order of `Cows::command`,
/// whose result is `spec_command`.
pub proof fn lemma_children_first(topo: Seq<Seq<usize>>, rank: Seq<nat>, i: int, cmd: Command, h: Herd)
    requires
        ranked(topo, rank),
        0 <= i < topo.len(),
    ensures
        spec_command(topo, rank, i, cmd, h) == spec_apply_self(
            spec_children(
                topo,
                rank,
                i,
                spec_child_command(view_cell(h.ground, h.cows[i].position)),
                topo[i].len() as int,
                h,
            ),
            i,
            cmd,
        ),
{
}

/// A parent standing on a coloured block, leading one child with no
/// children: after an `Auto` tick the child has placed a block of that
/// colour where it stands, whatever the parent then did.
pub proof fn lemma_parent_on_block_places_under_child(
    topo: Seq<Seq<usize>>,
    rank: Seq<nat>,
    p: int,
    c: usize,
    h: Herd,
    colour: Colour,
)
    requires
        ranked(topo, rank),
        0 <= p < topo.len(),
        c < topo.len(),
        topo[p] == seq![c],
        topo[c as int] == Seq::<usize>::empty(),
        h.cows.len() == topo.len(),
        view_cell(h.ground, h.cows[p].position) == GroundCell::ColouredBlock(colour),
    ensures
        view_cell(spec_command(topo, rank, p, Command::Auto, h).ground, h.cows[c as int].position)
            == GroundCell::ColouredBlock(colour),
        spec_command(topo, rank, p, Command::Auto, h).cows[c as int] == h.cows[c as int],
{
    assert(topo[p][0] == c);
    assert(topo[p][0] < topo.len() && rank[topo[p][0] as int] < rank[p]);
    assert(spec_children(topo, rank, p, Command::PlaceBlock(colour), 0, h) == h);
    let h0 = spec_children(topo, rank, c as int, spec_child_command(view_cell(h.ground, h.cows[c as int].position)), 0, h);
    assert(h0 == h);
    let h1 = spec_command(topo, rank, c as int, Command::PlaceBlock(colour), h);
    assert(h1 == spec_apply_self(h, c as int, Command::PlaceBlock(colour)));
    crate::layer::lemma_view_after_set_cell(h.ground, h.cows[c as int].position, GroundCell::ColouredBlock(colour), h.cows[c as int].position);
    assert(spec_children(topo, rank, p, Command::PlaceBlock(colour), 1, h) == h1);
    assert(rank[c as int] < rank[p]);
    assert(c as int != p);
}

/// A whole tick (as `Cows::command_player` runs it) with no root actors,
/// where the player stands on a coloured block and leads one child with no
/// children: the child places a block of that colour where it stands before
/// the player moves off, and stays put.
pub proof fn lemma_tick_places_under_child(
    topo: Seq<Seq<usize>>,
    rank: Seq<nat>,
    roots: Seq<usize>,
    p: int,
    c: usize,
    h: Herd,
    colour: Colour,
)
    requires
        ranked(topo, rank),
        roots.len() == 0,
        0 <= p < topo.len(),
        c < topo.len(),
        topo[p] == seq![c],
        topo[c as int] == Seq::<usize>::empty(),
        h.cows.len() == topo.len(),
        view_cell(h.ground, h.cows[p].position) == GroundCell::ColouredBlock(colour),
    ensures
        ({
            let after = spec_roots(topo, rank, roots, 0, spec_command(topo, rank, p, Command::Auto, h));
            &&& view_cell(after.ground, h.cows[c as int].position) == GroundCell::ColouredBlock(colour)
            &&& after.cows[c as int] == h.cows[c as int]
        }),
{
    lemma_parent_on_block_places_under_child(topo, rank, p, c, h, colour);
}

} // verus!
