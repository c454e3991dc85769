use leaps_and_bounds::{
    Board, Colour, Command, CowLevel, CowSprite, Cows, Direction, GroundCell, KeyboardCommand,
    LevelState, OverlayCell, Point,
    StateStack, SuccessState, Surroundings,
};

fn wall() -> GroundCell {
    GroundCell::Wall(Surroundings::new())
}

fn fence() -> GroundCell {
    GroundCell::Fence(Surroundings::new())
}

#[test]
fn bounce_between_two_walls_turns_once_in_place() {
    let mut board = Board::new(GroundCell::Empty, OverlayCell::Empty);
    board.set_ground_cell(Point(4, 3), wall());
    board.set_ground_cell(Point(6, 3), fence());
    let mut cows = Cows::new(
        0,
        vec![
            (Point(0, 0), Direction::Up, CowSprite::White, vec![]),
            (Point(5, 3), Direction::Right, CowSprite::Grey, vec![]),
        ],
    );
    cows.command_player(&mut board, Command::Halt);
    assert_eq!(cows.position_of(1), Point(5, 3));
    assert_eq!(cows.direction_of(1), Direction::Left);
    cows.command_player(&mut board, Command::Halt);
    assert_eq!(cows.position_of(1), Point(5, 3));
    assert_eq!(cows.direction_of(1), Direction::Right);
}

#[test]
fn bounce_turns_round_at_a_wall() {
    let mut board = Board::new(GroundCell::Empty, OverlayCell::Empty);
    board.set_ground_cell(Point(6, 3), wall());
    let mut cows = Cows::new(
        0,
        vec![
            (Point(0, 0), Direction::Up, CowSprite::White, vec![]),
            (Point(5, 3), Direction::Right, CowSprite::Grey, vec![]),
        ],
    );
    cows.command_player(&mut board, Command::Halt);
    assert_eq!(cows.position_of(1), Point(4, 3));
    assert_eq!(cows.direction_of(1), Direction::Left);
}

#[test]
fn walk_stops_at_a_fence_but_turns() {
    let mut board = Board::new(GroundCell::Empty, OverlayCell::Empty);
    board.set_ground_cell(Point(0, 1), fence());
    let mut cows = Cows::new(0, vec![(Point(0, 0), Direction::Up, CowSprite::White, vec![])]);
    cows.command_player(&mut board, Command::Walk(Direction::Right));
    assert_eq!(cows.position_of(0), Point(1, 0));
    assert_eq!(cows.direction_of(0), Direction::Right);
    let mut cows = Cows::new(0, vec![(Point(0, 0), Direction::Up, CowSprite::White, vec![])]);
    cows.command_player(&mut board, Command::Walk(Direction::Down));
    assert_eq!(cows.position_of(0), Point(0, 0));
    assert_eq!(cows.direction_of(0), Direction::Down);
}

#[test]
fn child_places_block_before_parent_moves() {
    let mut board = Board::new(GroundCell::Empty, OverlayCell::Empty);
    board.set_ground_cell(Point(0, 0), GroundCell::ColouredBlock(Colour::Red));
    let mut cows = Cows::new(
        0,
        vec![
            (Point(0, 0), Direction::Right, CowSprite::White, vec![1]),
            (Point(5, 5), Direction::Up, CowSprite::Grey, vec![]),
        ],
    );
    cows.command_player(&mut board, Command::Auto);
    assert_eq!(board.get_ground_cell(&Point(5, 5)), GroundCell::ColouredBlock(Colour::Red));
    assert_eq!(cows.position_of(1), Point(5, 5));
    assert_eq!(cows.position_of(0), Point(1, 0));
    // Next tick the parent stands on empty ground: the child is told to halt.
    cows.command_player(&mut board, Command::Auto);
    assert_eq!(cows.position_of(1), Point(5, 5));
    assert_eq!(cows.position_of(0), Point(2, 0));
}

#[test]
fn arrow_block_walks_children_and_rotation_markers_turn_their_cells() {
    let mut board = Board::new(GroundCell::Empty, OverlayCell::Empty);
    board.set_ground_cell(Point(0, 0), GroundCell::ArrowBlock(Direction::Down));
    board.set_ground_cell(Point(3, 3), GroundCell::Arrow(Direction::Up));
    let mut cows = Cows::new(
        0,
        vec![
            (Point(0, 0), Direction::Right, CowSprite::White, vec![1]),
            (Point(3, 3), Direction::Up, CowSprite::Grey, vec![]),
        ],
    );
    cows.command_player(&mut board, Command::Halt);
    assert_eq!(cows.position_of(1), Point(3, 4));
    assert_eq!(cows.direction_of(1), Direction::Down);
    assert_eq!(cows.position_of(0), Point(0, 0));

    board.set_ground_cell(Point(0, 0), GroundCell::RotateRight);
    board.set_ground_cell(Point(3, 4), GroundCell::Arrow(Direction::Left));
    cows.command_player(&mut board, Command::Halt);
    assert_eq!(board.get_ground_cell(&Point(3, 4)), GroundCell::Arrow(Direction::Up));
}

#[test]
fn coloured_arrow_is_gated_on_a_child_block() {
    let mut board = Board::new(GroundCell::Empty, OverlayCell::Empty);
    board.set_ground_cell(Point(0, 0), GroundCell::ColouredArrow(Colour::Blue, Direction::Down));
    board.set_ground_cell(Point(3, 0), GroundCell::ColouredBlock(Colour::Red));
    let mut cows = Cows::new(
        0,
        vec![
            (Point(0, 0), Direction::Right, CowSprite::White, vec![1]),
            (Point(3, 0), Direction::Up, CowSprite::Grey, vec![]),
        ],
    );
    let mut red = Cows::new(
        0,
        vec![
            (Point(0, 0), Direction::Right, CowSprite::White, vec![1]),
            (Point(3, 0), Direction::Up, CowSprite::Grey, vec![]),
        ],
    );
    let mut red_board = board.clone();
    red.command_player(&mut red_board, Command::Auto);
    assert_eq!(red.position_of(0), Point(1, 0));
    board.set_ground_cell(Point(3, 0), GroundCell::ColouredBlock(Colour::Blue));
    cows.command_player(&mut board, Command::Auto);
    assert_eq!(cows.position_of(0), Point(0, 1));
    assert_eq!(cows.direction_of(0), Direction::Down);
}

#[test]
fn roots_exclude_player_and_children() {
    let cows = Cows::new(
        1,
        vec![
            (Point(0, 0), Direction::Up, CowSprite::White, vec![2]),
            (Point(1, 0), Direction::Up, CowSprite::White, vec![]),
            (Point(2, 0), Direction::Up, CowSprite::White, vec![]),
            (Point(3, 0), Direction::Up, CowSprite::White, vec![]),
        ],
    );
    assert_eq!(cows.root_indices(), vec![0, 3]);
    assert_eq!(cows.len(), 4);
}

#[test]
fn time_travel_round_trip() {
    let mut stack = StateStack::new(0u32);
    stack.push_state(1);
    stack.push_state(2);
    assert_eq!(*stack.current_state(), 2);
    assert_eq!(*stack.last_state(), 1);
    stack.pop_state();
    assert_eq!(*stack.current_state(), 1);
    stack.pop_state();
    assert_eq!(*stack.current_state(), 0);
}

#[test]
fn push_after_pop_discards_the_undone_state() {
    let mut stack = StateStack::new(0u32);
    stack.push_state(1);
    stack.push_state(2);
    stack.pop_state();
    stack.push_state(3);
    assert_eq!(*stack.current_state(), 3);
    stack.pop_state();
    assert_eq!(*stack.current_state(), 1);
    stack.pop_state();
    assert_eq!(*stack.current_state(), 0);
    stack.pop_state();
    assert_eq!(*stack.current_state(), 0);
    for _ in 0..3 {
        stack.push_state(9);
        assert_ne!(*stack.current_state(), 2);
    }
}

#[test]
fn purge_keeps_the_oldest_state() {
    let mut stack = StateStack::new(5u32);
    stack.push_state(6);
    stack.push_state(7);
    stack.purge_states();
    assert_eq!(*stack.current_state(), 5);
    stack.pop_state();
    assert_eq!(*stack.current_state(), 5);
    let mut single = StateStack::new(8u32);
    single.purge_states();
    assert_eq!(*single.current_state(), 8);
    *single.current_state_mut() = 4;
    assert_eq!(*single.current_state(), 4);
}

#[test]
fn success_combine_precedence() {
    let (running, succeeded, failed) = (
        SuccessState::Running,
        SuccessState::Succeeded,
        SuccessState::Failed,
    );
    let orders = [
        [running, succeeded, failed],
        [failed, running, succeeded],
        [succeeded, failed, running],
        [running, failed, succeeded],
    ];
    for order in orders.iter() {
        let mut acc = succeeded;
        for s in order.iter() {
            acc.combine(*s);
        }
        assert_eq!(acc, failed);
    }
    let mut acc = succeeded;
    acc.combine(running);
    acc.combine(succeeded);
    assert_eq!(acc, running);
    let mut acc = succeeded;
    acc.combine(succeeded);
    acc.combine(succeeded);
    assert_eq!(acc, succeeded);
}

#[test]
fn no_actors_count_as_succeeded() {
    let board = Board::new(GroundCell::Empty, OverlayCell::Empty);
    let cows = Cows::new(0, vec![(Point(0, 0), Direction::Up, CowSprite::White, vec![])]);
    assert_eq!(cows.success_state(&board), SuccessState::Running);
    let mut board = board;
    board.set_overlay_cell(Point(0, 0), OverlayCell::Failure(Surroundings::new()));
    assert_eq!(cows.success_state(&board), SuccessState::Failed);
    board.set_overlay_cell(Point(0, 0), OverlayCell::Success(Surroundings::new()));
    assert_eq!(cows.success_state(&board), SuccessState::Succeeded);
    assert_eq!(OverlayCell::Input(Surroundings::new()).success_state(), SuccessState::Running);
}

#[test]
fn level_state_ticks_and_frames() {
    let mut state = LevelState::new();
    assert_eq!(state.animation_frame(), 0);
    assert_eq!(state.cows().position_of(0), Point(24, 4));
    state.auto();
    assert_eq!(state.animation_frame(), 1);
    assert_eq!(state.cows().position_of(0), Point(25, 4));
    state.command(Command::Walk(Direction::Down));
    assert_eq!(state.cows().position_of(0), Point(25, 5));
    for _ in 0..3 {
        state.auto();
    }
    assert_eq!(state.animation_frame(), 1);
}

#[test]
fn hand_played_level_records_moves_and_undoes_them() {

    let mut level = CowLevel::new();
    let start = level.states().current_state().cows().position_of(0);
    assert_eq!(start, Point(24, 4));
    assert!(!level.step(10, false, false, Some(KeyboardCommand::Direction(Direction::Down))));
    assert_eq!(level.states().current_state().cows().position_of(0), Point(24, 5));
    assert_eq!(level.states().last_state().cows().position_of(0), Point(24, 4));
    level.step(10, false, false, Some(KeyboardCommand::Direction(Direction::Left)));
    assert_eq!(level.states().current_state().cows().position_of(0), Point(23, 5));
    level.step(10, false, true, None);
    assert_eq!(level.states().current_state().cows().position_of(0), Point(24, 5));
    level.step(10, false, true, None);
    assert_eq!(level.states().current_state().cows().position_of(0), Point(24, 4));
    level.step(10, false, false, Some(KeyboardCommand::Direction(Direction::Up)));
    level.step(10, false, false, Some(KeyboardCommand::Space));
    level.step(10, true, false, None);
    assert_eq!(level.states().current_state().cows().position_of(0), Point(24, 4));
    assert!(!level.is_finished_animating());
    level.step(200, false, false, None);
    assert!(level.is_finished_animating());
}

#[test]
fn actors_on_solid_ground_are_reported() {
    let mut board = Board::new(GroundCell::Empty, OverlayCell::Empty);
    board.set_ground_cell(Point(1, 0), fence());
    board.set_ground_cell(Point(3, 0), wall());
    let cows = Cows::new(
        0,
        vec![
            (Point(0, 0), Direction::Up, CowSprite::White, vec![]),
            (Point(1, 0), Direction::Up, CowSprite::White, vec![]),
            (Point(2, 0), Direction::Up, CowSprite::White, vec![]),
            (Point(3, 0), Direction::Up, CowSprite::White, vec![]),
        ],
    );
    assert_eq!(cows.cows_in_solid(&board), vec![1, 3]);
}
