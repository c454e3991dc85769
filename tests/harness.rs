use leaps_and_bounds::{
    Board, Colour, ControlButton, CowSprite, Cows, Direction, GodLevel, GodLevelStatus,
    GroundCell, LevelState, MetaTestResult, OverlayCell, Point, Surroundings, Test, TestResult,
    TestTarget,
};

/// A parent on a blue-gated arrow leading one child that stands on the
/// single input cell; success zones lie below both.
fn gated_level() -> LevelState {
    let mut board = Board::new(GroundCell::Empty, OverlayCell::Empty);
    board.set_ground_cell(Point(0, 0), GroundCell::ColouredArrow(Colour::Blue, Direction::Down));
    board.set_ground_cell(Point(0, 1), GroundCell::ArrowBlock(Direction::Down));
    board.set_overlay_cell(Point(3, 0), OverlayCell::Input(Surroundings::new()));
    board.set_overlay_cell(Point(3, 1), OverlayCell::Success(Surroundings::new()));
    board.set_overlay_cell(Point(0, 2), OverlayCell::Success(Surroundings::new()));
    board.set_overlay_cell(Point(10, 10), OverlayCell::Output(Surroundings::new()));
    board.set_ground_cell(Point(10, 10), GroundCell::ColouredBlock(Colour::Blue));
    let cows = Cows::new(
        0,
        vec![
            (Point(0, 0), Direction::Up, CowSprite::White, vec![1]),
            (Point(3, 0), Direction::Up, CowSprite::Grey, vec![]),
        ],
    );
    LevelState::from_parts(board, cows)
}

#[test]
fn end_to_end_blue_input_passes() {
    let test = Test::new(vec![Colour::Blue], TestTarget::AcceptWith(vec![Colour::Blue]));
    let mut status = GodLevelStatus::new();
    status.start(gated_level(), test);
    assert!(status.is_playing());
    let mut steps = 0;
    while !status.is_report() {
        status.step(600, false);
        steps += 1;
        assert!(steps < 20);
    }
    match &status {
        GodLevelStatus::Report(result) => {
            assert!(result.is_passed());
            assert_eq!(result.input(), &[Colour::Blue]);
            assert!(matches!(result.expected(), TestTarget::AcceptWith(v) if v == &vec![Colour::Blue]));
            assert!(matches!(result.actual(), TestResult::AcceptWith(v) if v == &vec![Colour::Blue]));
        }
        _ => panic!("expected a report"),
    }
    status.step(0, false);
    assert!(status.is_report());
    status.step(0, true);
    assert!(status.is_succeeded());
}

#[test]
fn end_to_end_red_input_is_not_accepted_as_blue() {
    let test = Test::new(vec![Colour::Red], TestTarget::AcceptWith(vec![Colour::Blue]));
    let mut status = GodLevelStatus::new();
    status.start(gated_level(), test);
    for _ in 0..6 {
        status.step(600, false);
    }
    // The parent walks off upwards and never reaches success.
    assert!(status.is_playing());
}

#[test]
fn not_enough_input_space_goes_straight_to_report() {
    let board = Board::new(GroundCell::Empty, OverlayCell::Empty);
    let cows = Cows::new(0, vec![(Point(0, 0), Direction::Up, CowSprite::White, vec![])]);
    let state = LevelState::from_parts(board, cows);
    let test = Test::new(vec![Colour::Red], TestTarget::Reject);
    let mut status = GodLevelStatus::new();
    status.start(state, test);
    match &status {
        GodLevelStatus::Report(result) => {
            assert!(matches!(result.actual(), TestResult::NotEnoughInputSpace));
            assert!(!result.is_passed());
        }
        _ => panic!("expected a report"),
    }
    status.step(0, true);
    assert!(status.is_stopped());
}

#[test]
fn pause_and_play() {
    let test = Test::new(vec![Colour::Blue], TestTarget::Accept);
    let mut status = GodLevelStatus::new();
    status.start(gated_level(), test);
    status.pause();
    assert!(!status.is_playing());
    assert!(status.is_drawable());
    status.step(5000, false);
    assert!(!status.is_report());
    status.play();
    assert!(status.is_playing());
}

#[test]
fn verdicts_compare_targets() {
    let cases = [
        (TestTarget::Reject, TestResult::Reject, true),
        (TestTarget::Accept, TestResult::AcceptWith(vec![]), true),
        (TestTarget::Accept, TestResult::Reject, false),
        (TestTarget::AcceptWith(vec![Colour::Red]), TestResult::AcceptWith(vec![Colour::Red]), true),
        (TestTarget::AcceptWith(vec![Colour::Red]), TestResult::AcceptWith(vec![Colour::Blue]), false),
        (TestTarget::AcceptWith(vec![]), TestResult::AcceptWith(vec![Colour::Blue]), false),
        (TestTarget::Reject, TestResult::NotEnoughInputSpace, false),
    ];
    for (target, result, passed) in cases {
        let r = MetaTestResult::new(Test::new(vec![], target), result);
        assert_eq!(r.is_passed(), passed);
    }
}

#[test]
fn level_runs_its_tests_in_turn() {
    let tests = vec![
        Test::new(vec![Colour::Blue], TestTarget::AcceptWith(vec![Colour::Blue])),
        Test::new(vec![Colour::Blue], TestTarget::Accept),
    ];
    let mut level = GodLevel::from_state(gated_level(), tests);
    level.control_button_press(ControlButton::Play);
    assert_eq!(level.current_test(), 1);
    let mut done = false;
    for _ in 0..40 {
        let confirm = level.status_ref().is_report();
        if level.step(600, false, false, confirm) {
            done = true;
            break;
        }
    }
    assert!(done);
    assert_eq!(level.current_test(), 2);
    level.control_button_press(ControlButton::Stop);
    assert_eq!(level.current_test(), 0);
    assert!(level.status_ref().is_stopped());
}

#[test]
fn speed_is_clamped() {
    let mut level = GodLevel::new(vec![]);
    assert_eq!(level.speed(), 1);
    level.step(10, false, true, false);
    assert_eq!(level.speed(), 1);
    for _ in 0..150 {
        level.step(10, true, false, false);
    }
    assert_eq!(level.speed(), 100);
}
