use leaps_and_bounds::{
    Board, CellCursor, CellCursorEntry, CellGraphic, CellPalette, CellType, Colour, CowSprite,
    Cows, Direction, GroundCell, KeyboardCommand, Layer, LevelLayer, OverlayCell, OverworldCell,
    OverworldCellType, PaletteResult, Pasture, Point, Surroundings,
};

#[test]
fn try_new_accepts_a_forest() {
    let cows = Cows::try_new(
        0,
        vec![
            (Point(0, 0), Direction::Up, CowSprite::White, vec![1, 2]),
            (Point(1, 0), Direction::Up, CowSprite::White, vec![3]),
            (Point(2, 0), Direction::Up, CowSprite::White, vec![]),
            (Point(3, 0), Direction::Up, CowSprite::White, vec![]),
        ],
    );
    assert!(cows.is_some());
    assert_eq!(cows.unwrap().len(), 4);
}

#[test]
fn try_new_rejects_a_cycle() {
    let cows = Cows::try_new(
        0,
        vec![
            (Point(0, 0), Direction::Up, CowSprite::White, vec![1]),
            (Point(1, 0), Direction::Up, CowSprite::White, vec![2]),
            (Point(2, 0), Direction::Up, CowSprite::White, vec![1]),
        ],
    );
    assert!(cows.is_none());
    let own_child = Cows::try_new(0, vec![(Point(0, 0), Direction::Up, CowSprite::White, vec![0])]);
    assert!(own_child.is_none());
}

#[test]
fn try_new_rejects_bad_indices() {
    let child_out = Cows::try_new(0, vec![(Point(0, 0), Direction::Up, CowSprite::White, vec![4])]);
    assert!(child_out.is_none());
    let player_out = Cows::try_new(2, vec![(Point(0, 0), Direction::Up, CowSprite::White, vec![])]);
    assert!(player_out.is_none());
    let empty = Cows::try_new(0, vec![]);
    assert!(empty.is_none());
}

#[test]
fn cursor_steps_through_kinds_colours_and_directions() {
    let mut cursor = CellCursor::new();
    assert_eq!(cursor, CellCursor(CellType::Empty, Colour::Red, Direction::Up));
    cursor.increment_type();
    cursor.increment_colour();
    cursor.increment_direction();
    assert_eq!(cursor, CellCursor(CellType::ColouredBlock, Colour::Blue, Direction::Right));
    for _ in 0..10 {
        cursor.increment_type();
    }
    assert_eq!(cursor.0, CellType::ColouredBlock);
    assert_eq!(CellType::Wall.increment(), CellType::Overlay);
    assert_eq!(CellType::Overlay.increment(), CellType::Empty);
    let value = cursor.value();
    assert_eq!(GroundCell::try_from_palette(value), Some(GroundCell::ColouredBlock(Colour::Blue)));
}

#[test]
fn palette_entries_and_graphics() {
    let palette = CellType::full_palette();
    assert_eq!(palette.len(), 10);
    assert_eq!(palette[0].value, CellType::Empty);
    assert_eq!(palette[9].value, CellType::Overlay);
    let coloured_arrow = CellCursorEntry::from_cell_type(CellType::ColouredArrow);
    assert_eq!(coloured_arrow.graphic(Colour::Green, Direction::Left), Point(11, 3));
    let block = CellCursorEntry::from_cell_type(CellType::ColouredBlock);
    assert_eq!(block.graphic(Colour::Orange, Direction::Left), Point(3, 0));
    let fence = CellCursorEntry::from_cell_type(CellType::Fence);
    assert_eq!(fence.graphic(Colour::Orange, Direction::Left), Point(0, 14));
}

#[test]
fn cell_palette_choice() {
    let mut palette = CellPalette::new(CellType::full_palette());
    let PaletteResult(kind, colour, direction) = palette.value();
    assert_eq!((kind, colour, direction), (CellType::Empty, Colour::Red, Direction::Up));
    assert!(palette.select(3));
    assert!(!palette.select(10));
    palette.next_colour();
    palette.rotate_left();
    let PaletteResult(kind, colour, direction) = palette.value();
    assert_eq!((kind, colour, direction), (CellType::ColouredArrow, Colour::Blue, Direction::Left));
    palette.rotate_right();
    palette.rotate_right();
    assert_eq!(palette.value().2, Direction::Right);
    let graphic = CellGraphic::new(Point(16, 32), Point(1, 2));
    assert_eq!(graphic.offset, Point(16, 32));
}

#[test]
fn sprite_layer_fills_row_by_row() {
    let mut layer = Layer::new(Point(0, 0), Point(3, 2), Point(16, 16), Point(16, 16));
    assert_eq!(layer.cursor(), Point(0, 0));
    layer.add_cell(Some(Point(4, 5)));
    layer.add_cell(None);
    assert_eq!(layer.cursor(), Point(2, 0));
    layer.add_cell(None);
    assert_eq!(layer.cursor(), Point(0, 1));
    assert!(!layer.is_full());
    for _ in 0..3 {
        layer.add_cell(Some(Point(0, 4)));
    }
    assert!(layer.is_full());
    assert_eq!(&layer.buffer()[0..4], &[4, 5, 255, 255]);
}

#[test]
fn overworld_cells() {
    assert!(OverworldCell::Empty.is_solid_to_cows());
    assert!(OverworldCell::BlockedPath(Surroundings::new()).is_solid_to_cows());
    assert!(!OverworldCell::ClearPath(Surroundings::new()).is_solid_to_cows());
    assert!(!OverworldCell::Level(3, Colour::Red).is_solid_to_cows());
    assert!(OverworldCell::BlockedPath(Surroundings::new()).can_be_cleared());
    assert!(!OverworldCell::Wall(Surroundings::new()).can_be_cleared());
    assert_eq!(
        OverworldCell::from_palette(PaletteResult(OverworldCellType::Level5, Colour::Green, Direction::Up)),
        OverworldCell::Level(5, Colour::Green)
    );
    let palette = OverworldCellType::full_palette();
    assert_eq!(palette.len(), 14);
    assert_eq!(palette[5].value, OverworldCellType::Finish);
}

#[test]
fn pastures_read_cells() {
    let mut board = Board::new(GroundCell::Empty, OverlayCell::Empty);
    board.set_ground_cell(Point(1, 1), GroundCell::RotateLeft);
    assert_eq!(board.get_pasture_cell(Point(1, 1)), GroundCell::RotateLeft);
    let layer = LevelLayer::new(OverlayCell::Empty);
    assert_eq!(layer.get_pasture_cell(Point(7, 7)), OverlayCell::Empty);
    assert!(KeyboardCommand::Space.is_space());
    assert!(!KeyboardCommand::Direction(Direction::Up).is_space());
}

#[test]
fn palette_grid_geometry() {
    assert_eq!(CellPalette::<CellType>::get_point_from_index(0), Point(0, 0));
    assert_eq!(CellPalette::<CellType>::get_point_from_index(5), Point(1, 1));
    assert_eq!(CellPalette::<CellType>::get_point_from_index(9), Point(1, 2));
    let palette = CellPalette::new(CellType::full_palette());
    assert_eq!(palette.get_index_from_point(Point(20, 20)), Some(5));
    assert_eq!(palette.get_index_from_point(Point(17, 33)), Some(9));
    assert_eq!(palette.get_index_from_point(Point(40, 33)), None);
}
