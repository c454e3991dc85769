//! Grid-based automaton puzzle engine: a sparse two-layer cell grid, a
//! hierarchy of actors ("cows") driven by the cells beneath them, an
//! undo/redo stack of snapshots and an automatic test harness.

pub mod board;
pub mod cell;
pub mod cell_type;
pub mod colour;
pub mod cow;
pub mod cow_level;
pub mod direction;
pub mod forest;
pub mod god_level;
pub mod layer;
pub mod level;
pub mod overworld;
pub mod point;
pub mod sprite_layer;
pub mod state_stack;
pub mod store;
pub mod success;
pub mod surroundings;
pub mod verdict;

pub use board::{get_grid_index, Board, NotEnoughInputSpace};
pub use cell::{Cell, GroundCell, OverlayCell, PastureCell};
pub use cell_type::{CellCursor, CellCursorEntry, CellGraphic, CellPalette, CellType, PaletteResult};
pub use colour::Colour;
pub use cow::{Command, Cow, CowIndex, CowSprite, Cows};
pub use direction::Direction;
pub use god_level::{ControlButton, GodLevel, GodLevelRunningState, GodLevelStatus};
pub use layer::LevelLayer;
pub use level::{KeyboardCommand, LevelState, Pasture};
pub use point::Point;
pub use state_stack::StateStack;
pub use success::SuccessState;
pub use surroundings::Surroundings;
pub use verdict::{MetaTestResult, Test, TestResult, TestTarget};
pub use sprite_layer::Layer;
pub use overworld::{OverworldCell, OverworldCellType};
pub use cow_level::CowLevel;
