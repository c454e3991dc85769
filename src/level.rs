use vstd::prelude::*;

use crate::board::{inputs_placed, outputs_of, placed_at_point, Board, NotEnoughInputSpace};
use crate::cell::{GroundCell, OverlayCell};
use crate::cell_type::{CellType, PaletteResult};
use crate::colour::Colour;
use crate::cow::{
    cow_states, data_topology, ranked, spec_command, spec_roots, topology, Command, CowData,
    CowSprite, Cows, Herd,
};
use crate::direction::Direction;
use crate::point::Point;
use crate::success::{combine_all, SuccessState};

verus! {

/// A command read from the keyboard.
#[derive(Debug, Clone, Copy, PartialEq, Eq, Structural)]
pub enum KeyboardCommand {
    Direction(Direction),
    Space,
}

/// The player's command for a key.
pub open spec fn spec_key_command(k: KeyboardCommand) -> Command {
    match k {
        KeyboardCommand::Direction(d) => Command::Walk(d),
        KeyboardCommand::Space => Command::Halt,
    }
}

impl KeyboardCommand {
    /// The player's command for the key: an arrow walks that way, space
    /// waits a tick.
    pub fn command(&self) -> (r: Command)
        ensures
            r == spec_key_command(*self),
    {
        match self {
            KeyboardCommand::Direction(d) => Command::Walk(*d),
            KeyboardCommand::Space => Command::Halt,
        }
    }

    pub fn is_space(&self) -> (r: bool)
        ensures
            r == (*self is Space),
    {
        match self {
            KeyboardCommand::Space => true,
            _ => false,
        }
    }
}

/// Something actors stand on: a cell for every point.
pub trait Pasture<C> {
    spec fn pasture_at(&self, point: Point<i32>) -> C;

    fn get_pasture_cell(&self, point: Point<i32>) -> (r: C)
        ensures
            r == self.pasture_at(point),
    ;
}

impl Pasture<GroundCell> for Board {
    open spec fn pasture_at(&self, point: Point<i32>) -> GroundCell {
        self.ground_at(point)
    }

    fn get_pasture_cell(&self, point: Point<i32>) -> (r: GroundCell) {
        self.get_ground_cell(&point)
    }
}

impl<T: crate::cell::Cell> Pasture<T> for crate::layer::LevelLayer<T> {
    open spec fn pasture_at(&self, point: Point<i32>) -> T {
        self.cell_at(point)
    }

    fn get_pasture_cell(&self, point: Point<i32>) -> (r: T) {
        self.get_cell(&point)
    }
}

/// The number of animation frames an actor cycles through.
pub const TOTAL_ANIMATION_FRAMES: u8 = 4;

/// A simulation state: the board, the actors and the animation frame.
pub struct LevelState {
    board: Board,
    cows: Cows,
    animation_frame: u8,
}

/// The model of a simulation state.
pub struct LevelModel {
    pub herd: Herd,
    pub overlay: crate::layer::LayerView<OverlayCell>,
    pub frame: u8,
    pub rank: Seq<nat>,
    pub roots: Seq<usize>,
    pub player: int,
}

/// How a simulation state stands: the combination over all actors.
pub open spec fn spec_level_success(m: LevelModel) -> SuccessState {
    combine_all(cow_states(m.herd.cows, m.overlay))
}

/// One tick under `cmd`: the player runs `cmd`, then every root runs `Auto`;
/// the animation frame advances.
pub open spec fn spec_level_command(m: LevelModel, cmd: Command) -> LevelModel {
    let topo = topology(m.herd.cows);
    LevelModel {
        herd: spec_roots(
            topo,
            m.rank,
            m.roots,
            m.roots.len() as int,
            spec_command(topo, m.rank, m.player, cmd, m.herd),
        ),
        frame: ((m.frame + 1) % 4) as u8,
        ..m
    }
}

impl LevelState {
    pub closed spec fn board_of(&self) -> Board {
        self.board
    }

    pub closed spec fn cows_of(&self) -> Cows {
        self.cows
    }

    pub closed spec fn frame(&self) -> u8 {
        self.animation_frame
    }

    pub open spec fn wf(&self) -> bool {
        self.board_of().wf() && self.cows_of().wf() && self.frame() < 4
    }

    pub open spec fn model(&self) -> LevelModel {
        LevelModel {
            herd: self.cows_of().herd(&self.board_of()),
            overlay: self.board_of()@.1,
            frame: self.frame(),
            rank: self.cows_of().ranks(),
            roots: self.cows_of().roots(),
            player: self.cows_of().player_index(),
        }
    }

    /// A state made of a board and actors, at the first animation frame.
    pub fn from_parts(board: Board, cows: Cows) -> (r: Self)
        requires
            board.wf(),
            cows.wf(),
        ensures
            r.wf(),
            r.board_of() == board,
            r.cows_of() == cows,
            r.frame() == 0,
    {
        LevelState { board, cows, animation_frame: 0 }
    }

    /// The starting level: an empty board and a player leading one actor.
    pub fn new() -> (r: Self)
        ensures
            r.wf(),
            r.frame() == 0,
    {
        let mut lead: Vec<usize> = Vec::new();
        lead.push(1);
        let mut data: Vec<CowData> = Vec::new();
        data.push((Point(24, 4), Direction::Right, CowSprite::Grey, lead));
        data.push((Point(8, 12), Direction::Right, CowSprite::White, Vec::new()));
        proof {
            let topo = data_topology(data@);
            assert(topo[0] == seq![1usize]);
            assert(topo[1] == Seq::<usize>::empty());
            assert(ranked(topo, seq![1nat, 0nat]));
        }
        let board = Board::new(GroundCell::Empty, OverlayCell::Empty);
        let cows = Cows::new(0, data);
        LevelState { board, cows, animation_frame: 0 }
    }

    pub fn board(&self) -> (r: &Board)
        ensures
            *r == self.board_of(),
    {
        &self.board
    }

    pub fn cows(&self) -> (r: &Cows)
        ensures
            *r == self.cows_of(),
    {
        &self.cows
    }

    pub fn animation_frame(&self) -> (r: u8)
        ensures
            r == self.frame(),
    {
        self.animation_frame
    }

    pub fn success_state(&self) -> (r: SuccessState)
        ensures
            r == spec_level_success(self.model()),
    {
        self.cows.success_state(&self.board)
    }

    /// Places the editor choice `cell_type` at the cell under the pixel
    /// `point`, in the layers that take it.
    pub fn set_cell_at_point(&mut self, point: Point<i32>, cell_type: PaletteResult<CellType>)
        requires
            old(self).wf(),
        ensures
            final(self).wf(),
            final(self).cows_of() == old(self).cows_of(),
            final(self).frame() == old(self).frame(),
            placed_at_point(old(self).board_of(), final(self).board_of(), point, cell_type),
    {
        self.board.set_cell_at_point(point, cell_type);
    }

    pub fn get_overlay_cell_at_point(&self, point: Point<i32>) -> (r: OverlayCell)
        ensures
            r == self.board_of().overlay_at(
                Point(
                    crate::board::div_toward_zero(point.0 as int, 16) as i32,
                    crate::board::div_toward_zero(point.1 as int, 16) as i32,
                ),
            ),
    {
        self.board.get_overlay_cell_at_point(point)
    }

    /// Places a test's input on the input cells; see `Board::set_inputs`.
    pub fn set_inputs(&mut self, inputs: &[Colour]) -> (r: Result<(), NotEnoughInputSpace>)
        requires
            old(self).wf(),
        ensures
            final(self).wf(),
            final(self).cows_of() == old(self).cows_of(),
            final(self).frame() == old(self).frame(),
            inputs_placed(old(self).board_of(), final(self).board_of(), inputs@, r is Err),
    {
        self.board.set_inputs(inputs)
    }

    /// The colours on the output cells, in raster order.
    pub fn get_outputs(&self) -> (r: Vec<Colour>)
        ensures
            outputs_of(self.board_of(), r@),
    {
        self.board.get_outputs()
    }

    /// One automatic tick.
    pub fn auto(&mut self)
        requires
            old(self).wf(),
        ensures
            final(self).wf(),
            final(self).model() == spec_level_command(old(self).model(), Command::Auto),
    {
        self.command(Command::Auto);
    }

    /// One tick with the player under `command`.
    pub fn command(&mut self, command: Command)
        requires
            old(self).wf(),
        ensures
            final(self).wf(),
            final(self).model() == spec_level_command(old(self).model(), command),
    {
        self.animation_frame = (self.animation_frame + 1) % TOTAL_ANIMATION_FRAMES;
        self.cows.command_player(&mut self.board, command);
    }
}

impl Clone for LevelState {
    fn clone(&self) -> (r: Self)
        ensures
            r.model() == self.model(),
            r.board_of()@ == self.board_of()@,
            self.wf() ==> r.wf(),
    {
        let r = LevelState {
            board: self.board.clone(),
            cows: self.cows.clone(),
            animation_frame: self.animation_frame,
        };
        proof {
            r.board.lemma_view_eq(&self.board);
            assert(r.board.ground_layer().cells() == self.board.ground_layer().cells());
            assert(r.board.overlay_layer().cells() == self.board.overlay_layer().cells());
        }
        r
    }
}

} // verus!
