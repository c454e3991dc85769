use leaps_and_bounds::{
    get_grid_index, Board, CellType, Colour, Direction, GroundCell, LevelLayer, OverlayCell,
    PaletteResult, Point, Surroundings,
};

fn fence_mask(cell: GroundCell) -> Surroundings {
    match cell {
        GroundCell::Fence(s) => s,
        other => panic!("expected a fence, found {:?}", other),
    }
}

#[test]
fn adjacent_fences_mark_each_other() {
    let mut layer = LevelLayer::new(GroundCell::Empty);
    layer.set_cell(Point(0, 0), GroundCell::Fence(Surroundings::new()));
    layer.set_cell(Point(1, 0), GroundCell::Fence(Surroundings::new()));
    let left = fence_mask(layer.get_cell(&Point(0, 0)));
    let right = fence_mask(layer.get_cell(&Point(1, 0)));
    assert!(left.is_adjacent(Direction::Right));
    assert!(right.is_adjacent(Direction::Left));
    assert!(!left.is_adjacent(Direction::Left));
    assert!(!left.is_adjacent(Direction::Up));
    assert!(!right.is_adjacent(Direction::Right));
    assert_eq!(left.bits(), 2);
    assert_eq!(right.bits(), 8);
}

#[test]
fn removing_a_fence_clears_both_bits() {
    let mut layer = LevelLayer::new(GroundCell::Empty);
    layer.set_cell(Point(0, 0), GroundCell::Fence(Surroundings::new()));
    layer.set_cell(Point(1, 0), GroundCell::Fence(Surroundings::new()));
    layer.set_cell(Point(1, 0), GroundCell::Empty);
    let left = fence_mask(layer.get_cell(&Point(0, 0)));
    assert!(!left.is_adjacent(Direction::Right));
    assert_eq!(left.bits(), 0);
    assert_eq!(layer.get_cell(&Point(1, 0)), GroundCell::Empty);
    assert!(!layer.is_stored(&Point(1, 0)));
}

#[test]
fn different_kinds_are_not_adjacent() {
    let mut layer = LevelLayer::new(GroundCell::Empty);
    layer.set_cell(Point(0, 0), GroundCell::Fence(Surroundings::new()));
    layer.set_cell(Point(0, 1), GroundCell::Wall(Surroundings::new()));
    let fence = fence_mask(layer.get_cell(&Point(0, 0)));
    assert!(!fence.is_adjacent(Direction::Down));
    layer.set_cell(Point(0, 1), GroundCell::Fence(Surroundings::new()));
    let fence = fence_mask(layer.get_cell(&Point(0, 0)));
    assert!(fence.is_adjacent(Direction::Down));
    let below = fence_mask(layer.get_cell(&Point(0, 1)));
    assert!(below.is_adjacent(Direction::Up));
}

#[test]
fn surrounded_fence_has_all_bits() {
    let mut layer = LevelLayer::new(GroundCell::Empty);
    for p in [Point(5, 4), Point(6, 5), Point(5, 6), Point(4, 5)] {
        layer.set_cell(p, GroundCell::Fence(Surroundings::new()));
    }
    layer.set_cell(Point(5, 5), GroundCell::Fence(Surroundings::new()));
    assert_eq!(fence_mask(layer.get_cell(&Point(5, 5))).bits(), 15);
}

#[test]
fn setting_the_default_removes_the_entry() {
    let mut layer = LevelLayer::new(OverlayCell::Empty);
    layer.set_cell(Point(3, 3), OverlayCell::Success(Surroundings::new()));
    assert!(layer.is_stored(&Point(3, 3)));
    layer.set_cell(Point(3, 3), OverlayCell::Empty);
    assert!(!layer.is_stored(&Point(3, 3)));
    assert_eq!(layer.get_cell(&Point(3, 3)), OverlayCell::Empty);
}

#[test]
fn unset_cells_read_as_default_at_extreme_coordinates() {
    let layer = LevelLayer::new(GroundCell::Empty);
    for p in [
        Point(i32::MAX, i32::MAX),
        Point(i32::MIN, i32::MIN),
        Point(i32::MIN, i32::MAX),
        Point(0, 0),
    ] {
        assert_eq!(layer.get_cell(&p), GroundCell::Empty);
        assert!(!layer.is_stored(&p));
    }
}

#[test]
fn writes_at_the_edge_of_the_grid_do_not_panic() {
    let mut layer = LevelLayer::new(GroundCell::Empty);
    layer.set_cell(Point(i32::MAX, i32::MAX), GroundCell::Wall(Surroundings::new()));
    layer.set_cell(Point(i32::MIN, i32::MAX), GroundCell::Wall(Surroundings::new()));
    // The grid wraps, so these two cells are neighbours.
    match layer.get_cell(&Point(i32::MAX, i32::MAX)) {
        GroundCell::Wall(s) => assert!(s.is_adjacent(Direction::Right)),
        other => panic!("expected a wall, found {:?}", other),
    }
}

#[test]
fn map_cell_rotates_in_place() {
    let mut layer = LevelLayer::new(GroundCell::Empty);
    layer.set_cell(Point(2, 2), GroundCell::Arrow(Direction::Up));
    layer.map_cell(Point(2, 2), GroundCell::rotate_right);
    assert_eq!(layer.get_cell(&Point(2, 2)), GroundCell::Arrow(Direction::Right));
    layer.map_cell(Point(2, 2), GroundCell::rotate_left);
    layer.map_cell(Point(2, 2), GroundCell::rotate_left);
    assert_eq!(layer.get_cell(&Point(2, 2)), GroundCell::Arrow(Direction::Left));
}

#[test]
fn rotation_rules() {
    assert_eq!(GroundCell::RotateLeft.rotate_right(), GroundCell::RotateRight);
    assert_eq!(GroundCell::RotateRight.rotate_left(), GroundCell::RotateLeft);
    assert_eq!(
        GroundCell::ColouredArrow(Colour::Blue, Direction::Left).rotate_right(),
        GroundCell::ColouredArrow(Colour::Blue, Direction::Up)
    );
    assert_eq!(
        GroundCell::ArrowBlock(Direction::Up).rotate_left(),
        GroundCell::ArrowBlock(Direction::Left)
    );
    assert_eq!(
        GroundCell::ColouredBlock(Colour::Red).rotate_right(),
        GroundCell::ColouredBlock(Colour::Red)
    );
    assert_eq!(GroundCell::Empty.rotate_left(), GroundCell::Empty);
}

#[test]
fn directions_turn() {
    assert_eq!(Direction::Up.increment(), Direction::Right);
    assert_eq!(Direction::Left.increment(), Direction::Up);
    assert_eq!(Direction::Up.decrement(), Direction::Left);
    assert_eq!(Direction::Right.opposite(), Direction::Left);
    assert_eq!(Direction::Down.opposite(), Direction::Up);
    assert_eq!(Colour::Orange.increment(), Colour::Red);
    assert_eq!(Colour::Red.increment(), Colour::Blue);
}

#[test]
fn points_step_and_bound() {
    let mut p = Point(3, 3);
    p.increment_2d(Direction::Up);
    assert_eq!(p, Point(3, 2));
    p.increment_2d(Direction::Left);
    assert_eq!(p, Point(2, 2));
    assert!(p.is_inside(Point(3, 3)));
    assert!(!Point(3, 0).is_inside(Point(3, 3)));
    assert!(!Point(-1, 0).is_inside(Point(3, 3)));
    assert_eq!(p.x(), 2);
    assert_eq!(p.y(), 2);
}

#[test]
fn grid_index_of_pixels() {
    assert_eq!(get_grid_index(Point(0, 0)), Point(0, 0));
    assert_eq!(get_grid_index(Point(31, 16)), Point(1, 1));
    assert_eq!(get_grid_index(Point(-17, 5)), Point(-1, 0));
}

#[test]
fn palette_choices_go_to_matching_layers() {
    let mut board = Board::new(GroundCell::Empty, OverlayCell::Empty);
    board.set_cell_at_point(
        Point(40, 8),
        PaletteResult(CellType::ColouredBlock, Colour::Green, Direction::Up),
    );
    assert_eq!(board.get_ground_cell(&Point(2, 0)), GroundCell::ColouredBlock(Colour::Green));
    assert_eq!(board.get_overlay_cell(&Point(2, 0)), OverlayCell::Empty);
    board.set_cell_at_point(
        Point(40, 8),
        PaletteResult(CellType::Overlay, Colour::Orange, Direction::Up),
    );
    assert_eq!(board.get_ground_cell(&Point(2, 0)), GroundCell::ColouredBlock(Colour::Green));
    assert!(matches!(board.get_overlay_cell_at_point(Point(40, 8)), OverlayCell::Input(_)));
    assert!(GroundCell::try_from_palette(PaletteResult(CellType::Overlay, Colour::Red, Direction::Up)).is_none());
    assert!(OverlayCell::try_from_palette(PaletteResult(CellType::Overlay, Colour::Red, Direction::Up))
        .map_or(false, |c| matches!(c, OverlayCell::Failure(_))));
    assert!(OverlayCell::try_from_palette(PaletteResult(CellType::Wall, Colour::Red, Direction::Up)).is_none());
}

#[test]
fn inputs_fill_input_cells_in_raster_order() {
    let mut board = Board::new(GroundCell::Empty, OverlayCell::Empty);
    board.set_overlay_cell(Point(5, 1), OverlayCell::Input(Surroundings::new()));
    board.set_overlay_cell(Point(2, 1), OverlayCell::Input(Surroundings::new()));
    board.set_overlay_cell(Point(9, 0), OverlayCell::Input(Surroundings::new()));
    assert!(board.set_inputs(&[Colour::Red, Colour::Blue]).is_ok());
    assert_eq!(board.get_ground_cell(&Point(9, 0)), GroundCell::ColouredBlock(Colour::Red));
    assert_eq!(board.get_ground_cell(&Point(2, 1)), GroundCell::ColouredBlock(Colour::Blue));
    assert_eq!(board.get_ground_cell(&Point(5, 1)), GroundCell::Empty);
    assert_eq!(board.get_inputs(), vec![Colour::Red, Colour::Blue]);
    assert!(board.set_inputs(&[Colour::Red, Colour::Blue, Colour::Green, Colour::Orange]).is_err());
    assert_eq!(board.get_inputs(), vec![Colour::Red, Colour::Blue]);
}

#[test]
fn outputs_read_blocks_on_output_cells() {
    let mut board = Board::new(GroundCell::Empty, OverlayCell::Empty);
    board.set_overlay_cell(Point(1, 1), OverlayCell::Output(Surroundings::new()));
    board.set_overlay_cell(Point(0, 1), OverlayCell::Output(Surroundings::new()));
    board.set_overlay_cell(Point(4, 0), OverlayCell::Output(Surroundings::new()));
    board.set_ground_cell(Point(1, 1), GroundCell::ColouredBlock(Colour::Orange));
    board.set_ground_cell(Point(4, 0), GroundCell::ColouredBlock(Colour::Green));
    assert_eq!(board.get_outputs(), vec![Colour::Green, Colour::Orange]);
    let coords = board.overlay().get_output_coordinates();
    assert_eq!(coords, vec![Point(4, 0), Point(0, 1), Point(1, 1)]);
}
