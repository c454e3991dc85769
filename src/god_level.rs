use vstd::prelude::*;

use crate::board::{inputs_placed, outputs_of};
use crate::colour::Colour;
use crate::cow::Command;
use crate::level::{spec_level_command, spec_level_success, LevelModel, LevelState};
use crate::success::SuccessState;
use crate::verdict::{MetaTestResult, ResultModel, TargetModel, Test, TestResult};

verus! {

/// Time, in milliseconds, between two automatic ticks.
pub const STEP_INTERVAL: u64 = 500;

/// Saturating addition of elapsed time.
pub open spec fn add_time(t: u64, dt: u64) -> u64 {
    if t + dt > u64::MAX {
        u64::MAX
    } else {
        (t + dt) as u64
    }
}

/// Banks `dt` more milliseconds; once more than one interval is banked and
/// the state is still running, one automatic tick runs, the state it
/// started from becomes the previous state, and the bank empties.
pub open spec fn spec_run(cur: LevelModel, prev: LevelModel, t: nat) -> (LevelModel, LevelModel, nat) {
    if t > STEP_INTERVAL && spec_level_success(cur) == SuccessState::Running {
        (spec_level_command(cur, Command::Auto), cur, 0)
    } else {
        (cur, prev, t)
    }
}

/// A test run in progress: the current state, the state before the last
/// tick (the start of the animation) and the time banked since that tick.
pub struct GodLevelRunningState {
    current_state: LevelState,
    old_state: LevelState,
    animation_time: u64,
}

impl GodLevelRunningState {
    pub closed spec fn current(&self) -> LevelState {
        self.current_state
    }

    pub closed spec fn previous(&self) -> LevelState {
        self.old_state
    }

    pub closed spec fn time(&self) -> u64 {
        self.animation_time
    }

    pub open spec fn wf(&self) -> bool {
        self.current().wf() && self.previous().wf()
    }

    /// A run that starts from `initial_state`, ready for its first tick.
    pub fn new(initial_state: LevelState) -> (r: Self)
        requires
            initial_state.wf(),
        ensures
            r.wf(),
            r.current().model() == initial_state.model(),
            r.current().board_of()@ == initial_state.board_of()@,
            r.previous().model() == initial_state.model(),
            r.time() == STEP_INTERVAL,
    {
        GodLevelRunningState {
            current_state: initial_state.clone(),
            old_state: initial_state,
            animation_time: STEP_INTERVAL,
        }
    }

    pub fn current_state(&self) -> (r: &LevelState)
        ensures
            *r == self.current(),
    {
        &self.current_state
    }

    pub fn old_state(&self) -> (r: &LevelState)
        ensures
            *r == self.previous(),
    {
        &self.old_state
    }

    pub fn animation_time(&self) -> (r: u64)
        ensures
            r == self.time(),
    {
        self.animation_time
    }

    /// The end of the run, once the state is no longer running: a failure
    /// rejects, a success accepts with the colours on the output cells.
    pub fn result(&self) -> (r: Option<TestResult>)
        ensures
            spec_level_success(self.current().model()) == SuccessState::Running <==> r is None,
            spec_level_success(self.current().model()) == SuccessState::Failed ==> r matches Some(
                TestResult::Reject,
            ),
            spec_level_success(self.current().model()) == SuccessState::Succeeded ==> (match r {
                Some(TestResult::AcceptWith(v)) => outputs_of(self.current().board_of(), v@),
                _ => false,
            }),
    {
        match self.current_state.success_state() {
            SuccessState::Failed => Some(TestResult::Reject),
            SuccessState::Succeeded => Some(TestResult::AcceptWith(self.current_state.get_outputs())),
            SuccessState::Running => None,
        }
    }

    /// The run is over once the state stopped running and a full interval
    /// has passed since, so the last move has been seen.
    pub fn is_complete(&self) -> (r: bool)
        ensures
            r == (spec_level_success(self.current().model()) != SuccessState::Running && self.time()
                > STEP_INTERVAL),
    {
        !self.current_state.success_state().is_running() && self.animation_time > STEP_INTERVAL
    }

    /// Banks `dt` milliseconds and runs the tick that is due, if any.
    pub fn step(&mut self, dt: u64)
        requires
            old(self).wf(),
        ensures
            final(self).wf(),
            (final(self).current().model(), final(self).previous().model(), final(self).time() as nat)
                == spec_run(
                old(self).current().model(),
                old(self).previous().model(),
                add_time(old(self).time(), dt) as nat,
            ),
    {
        if dt > u64::MAX - self.animation_time {
            self.animation_time = u64::MAX;
        } else {
            self.animation_time = self.animation_time + dt;
        }
        if self.animation_time > STEP_INTERVAL && self.current_state.success_state().is_running() {
            self.old_state = self.current_state.clone();
            self.current_state.auto();
            self.animation_time = 0;
        }
    }
}

/// Where the test harness stands.
pub enum GodLevelStatus {
    Stopped,
    Paused(Test, Box<GodLevelRunningState>),
    Playing(Test, Box<GodLevelRunningState>),
    Report(MetaTestResult),
    Succeeded,
}

/// The report `res` is on test `t`.
pub open spec fn reports_on(res: MetaTestResult, t: Test) -> bool {
    res.test_input() == t.input_colours() && res.test_target() == t.target()
}

/// `after` is the harness status `before` advanced by `dt` milliseconds,
/// with `confirm` given or not.
pub open spec fn status_stepped(before: GodLevelStatus, after: GodLevelStatus, dt: u64, confirm: bool) -> bool {
    match before {
        GodLevelStatus::Playing(t, rs) => {
            let (c, p, tm) = spec_run(
                rs.current().model(),
                rs.previous().model(),
                add_time(rs.time(), dt) as nat,
            );
            let complete = spec_level_success(c) != SuccessState::Running && tm > STEP_INTERVAL;
            match after {
                GodLevelStatus::Playing(t2, rs2) => {
                    &&& !complete
                    &&& t2 == t
                    &&& rs2.current().model() == c
                    &&& rs2.previous().model() == p
                    &&& rs2.time() == tm
                },
                GodLevelStatus::Report(res) => {
                    &&& complete
                    &&& reports_on(res, t)
                    &&& (spec_level_success(c) == SuccessState::Failed ==> res.outcome()
                        == ResultModel::Reject)
                    &&& (spec_level_success(c) == SuccessState::Succeeded ==> exists|
                        b: crate::board::Board,
                    |
                        b.model_eq(c) && match res.outcome() {
                            ResultModel::AcceptWith(v) => outputs_of(b, v),
                            _ => false,
                        })
                },
                _ => false,
            }
        },
        GodLevelStatus::Report(res) => after == if confirm {
            if crate::verdict::spec_passed(res.test_target(), res.outcome()) {
                GodLevelStatus::Succeeded
            } else {
                GodLevelStatus::Stopped
            }
        } else {
            before
        },
        _ => after == before,
    }
}

/// `status` is a run of the test with `input` and `target` started from
/// `state`: playing, from `state` with the input placed on its input cells
/// and the same actors, ready for its first tick; or, exactly when the input
/// does not fit, a report of not enough input space.
pub open spec fn started(state: LevelState, input: Seq<Colour>, target: TargetModel, status: GodLevelStatus) -> bool {
    match status {
        GodLevelStatus::Playing(t, rs) => {
            &&& t.input_colours() == input
            &&& t.target() == target
            &&& inputs_placed(state.board_of(), rs.current().board_of(), input, false)
            &&& rs.current().model().herd.cows == state.model().herd.cows
            &&& rs.current().model().rank == state.model().rank
            &&& rs.current().model().roots == state.model().roots
            &&& rs.current().model().player == state.model().player
            &&& rs.current().model().frame == state.model().frame
            &&& rs.previous().model() == rs.current().model()
            &&& rs.time() == STEP_INTERVAL
        },
        GodLevelStatus::Report(res) => {
            &&& res.test_input() == input
            &&& res.test_target() == target
            &&& res.outcome() == ResultModel::NotEnoughInputSpace
            &&& inputs_placed(state.board_of(), state.board_of(), input, true)
        },
        _ => false,
    }
}

/// A run started from a state is started from any state with the same
/// model.
pub proof fn lemma_started_same_model(
    s1: LevelState,
    s2: LevelState,
    input: Seq<Colour>,
    target: TargetModel,
    status: GodLevelStatus,
)
    requires
        started(s1, input, target, status),
        s1.model() == s2.model(),
    ensures
        started(s2, input, target, status),
{
    assert(s1.board_of()@ == s2.board_of()@);
    match status {
        GodLevelStatus::Playing(t, rs) => {
            crate::board::lemma_inputs_placed_before_view(
                s1.board_of(),
                s2.board_of(),
                rs.current().board_of(),
                input,
                false,
            );
        },
        GodLevelStatus::Report(res) => {
            crate::board::lemma_inputs_placed_before_view(
                s1.board_of(),
                s2.board_of(),
                s1.board_of(),
                input,
                true,
            );
            crate::board::lemma_inputs_placed_view(s2.board_of(), s1.board_of(), s2.board_of(), input, true);
        },
        _ => {},
    }
}

impl GodLevelStatus {
    pub open spec fn wf(&self) -> bool {
        match self {
            GodLevelStatus::Paused(_, rs) => rs.wf(),
            GodLevelStatus::Playing(_, rs) => rs.wf(),
            _ => true,
        }
    }

    pub fn new() -> (r: Self)
        ensures
            r is Stopped,
    {
        GodLevelStatus::Stopped
    }

    pub fn stop(&mut self)
        ensures
            *final(self) is Stopped,
    {
        *self = GodLevelStatus::Stopped;
    }

    /// Starts a run of `test` from `state`: its input goes on the input
    /// cells, and the run plays; when the input does not fit, the run goes
    /// straight to a report of not enough input space.
    pub fn start(&mut self, state: LevelState, test: Test)
        requires
            *old(self) is Stopped,
            state.wf(),
        ensures
            final(self).wf(),
            started(state, test.input_colours(), test.target(), *final(self)),
    {
        let mut state = state;
        let ghost old_board = state.board_of();
        let placed = state.set_inputs(test.input());
        match placed {
            Ok(()) => {
                let ghost placed_board = state.board_of();
                let running = GodLevelRunningState::new(state);
                proof {
                    crate::board::lemma_inputs_placed_view(
                        old_board,
                        placed_board,
                        running.current().board_of(),
                        test.input_colours(),
                        false,
                    );
                }
                *self = GodLevelStatus::Playing(test, Box::new(running));
            },
            Err(_) => {
                let result = MetaTestResult::new(test, TestResult::NotEnoughInputSpace);
                *self = GodLevelStatus::Report(result);
            },
        }
    }

    /// Pauses a playing run; any other status stays as it is.
    pub fn pause(&mut self)
        requires
            old(self).wf(),
        ensures
            final(self).wf(),
            match *old(self) {
                GodLevelStatus::Playing(t, rs) => *final(self) == GodLevelStatus::Paused(t, rs),
                _ => *final(self) == *old(self),
            },
    {
        let mut status = GodLevelStatus::Stopped;
        std::mem::swap(self, &mut status);
        *self = match status {
            GodLevelStatus::Playing(test, state) => GodLevelStatus::Paused(test, state),
            other => other,
        };
    }

    /// Resumes a paused run; any other status but Stopped stays as it is.
    pub fn play(&mut self)
        requires
            old(self).wf(),
            !(*old(self) is Stopped),
        ensures
            final(self).wf(),
            match *old(self) {
                GodLevelStatus::Paused(t, rs) => *final(self) == GodLevelStatus::Playing(t, rs),
                _ => *final(self) == *old(self),
            },
    {
        let mut status = GodLevelStatus::Stopped;
        std::mem::swap(self, &mut status);
        *self = match status {
            GodLevelStatus::Paused(test, state) => GodLevelStatus::Playing(test, state),
            other => other,
        };
    }

    pub fn is_succeeded(&self) -> (r: bool)
        ensures
            r == (*self is Succeeded),
    {
        match self {
            GodLevelStatus::Succeeded => true,
            _ => false,
        }
    }

    pub fn is_stopped(&self) -> (r: bool)
        ensures
            r == (*self is Stopped),
    {
        match self {
            GodLevelStatus::Stopped => true,
            _ => false,
        }
    }

    pub fn is_playing(&self) -> (r: bool)
        ensures
            r == (*self is Playing),
    {
        match self {
            GodLevelStatus::Playing(_, _) => true,
            _ => false,
        }
    }

    /// Whether there is a run or a report to show.
    pub fn is_drawable(&self) -> (r: bool)
        ensures
            r == (*self is Playing || *self is Paused || *self is Report),
    {
        match self {
            GodLevelStatus::Stopped => false,
            GodLevelStatus::Playing(_, _) => true,
            GodLevelStatus::Paused(_, _) => true,
            GodLevelStatus::Report(_) => true,
            GodLevelStatus::Succeeded => false,
        }
    }

    pub fn is_report(&self) -> (r: bool)
        ensures
            r == (*self is Report),
    {
        match self {
            GodLevelStatus::Report(_) => true,
            _ => false,
        }
    }

    /// Leaves a report: on to Succeeded when the test passed, else back to
    /// Stopped for another attempt.
    pub fn close_report(&mut self, result: &MetaTestResult)
        ensures
            *final(self) == if crate::verdict::spec_passed(result.test_target(), result.outcome()) {
                GodLevelStatus::Succeeded
            } else {
                GodLevelStatus::Stopped
            },
    {
        if result.is_passed() {
            *self = GodLevelStatus::Succeeded;
        } else {
            *self = GodLevelStatus::Stopped;
        }
    }

    /// Advances the harness by `dt` milliseconds. A playing run runs its due
    /// tick and, once complete, turns into a report of its end; a report is
    /// closed when `confirm` is given. Other statuses wait.
    pub fn step(&mut self, dt: u64, confirm: bool)
        requires
            old(self).wf(),
        ensures
            final(self).wf(),
            status_stepped(*old(self), *final(self), dt, confirm),
    {
        let mut status = GodLevelStatus::Stopped;
        std::mem::swap(self, &mut status);
        match status {
            GodLevelStatus::Playing(test, mut state) => {
                state.step(dt);
                if state.is_complete() {
                    match state.result() {
                        Some(result) => {
                            proof {
                                if spec_level_success(state.current().model()) == SuccessState::Succeeded {
                                    assert(state.current().board_of().model_eq(state.current().model()));
                                }
                            }
                            *self = GodLevelStatus::Report(MetaTestResult::new(test, result));
                        },
                        None => {
                            *self = GodLevelStatus::Playing(test, state);
                        },
                    }
                } else {
                    *self = GodLevelStatus::Playing(test, state);
                }
            },
            GodLevelStatus::Report(result) => {
                if confirm {
                    self.close_report(&result);
                } else {
                    *self = GodLevelStatus::Report(result);
                }
            },
            other => {
                *self = other;
            },
        }
    }
}

/// The buttons of the harness's control panel.
#[derive(Debug, Clone, Copy, PartialEq, Eq, Structural)]
pub enum ControlButton {
    Play,
    Pause,
    Stop,
}

/// The largest speed-up of the harness clock.
pub const MAX_SPEED_SCALE: u64 = 100;

/// Saturating product of elapsed time and speed.
pub open spec fn scale_time(dt: u64, speed: u64) -> u64 {
    if dt * speed > u64::MAX {
        u64::MAX
    } else {
        (dt * speed) as u64
    }
}

/// A level that the player solves by editing a board: the harness runs the
/// level's tests on the edited board one after another.
pub struct GodLevel {
    initial_state: LevelState,
    running_state: GodLevelStatus,
    speed: u64,
    tests: Vec<Test>,
    current_test: usize,
}

impl GodLevel {
    pub closed spec fn initial(&self) -> LevelState {
        self.initial_state
    }

    pub closed spec fn status(&self) -> GodLevelStatus {
        self.running_state
    }

    pub closed spec fn speed_scale(&self) -> u64 {
        self.speed
    }

    pub closed spec fn test_list(&self) -> Seq<Test> {
        self.tests@
    }

    /// The number of tests started so far.
    pub closed spec fn test_index(&self) -> int {
        self.current_test as int
    }

    pub open spec fn wf(&self) -> bool {
        &&& self.initial().wf()
        &&& self.status().wf()
        &&& 1 <= self.speed_scale() <= MAX_SPEED_SCALE
        &&& self.test_index() <= self.test_list().len()
    }

    /// A level on the given board with the given tests, stopped before its
    /// first test.
    pub fn from_state(initial_state: LevelState, tests: Vec<Test>) -> (r: Self)
        requires
            initial_state.wf(),
        ensures
            r.wf(),
            r.initial() == initial_state,
            r.status() is Stopped,
            r.speed_scale() == 1,
            r.test_list() == tests@,
            r.test_index() == 0,
    {
        GodLevel { initial_state, running_state: GodLevelStatus::Stopped, speed: 1, tests, current_test: 0 }
    }

    /// A level on the starting board with the given tests.
    pub fn new(tests: Vec<Test>) -> (r: Self)
        ensures
            r.wf(),
            r.status() is Stopped,
            r.test_list() == tests@,
            r.test_index() == 0,
    {
        GodLevel::from_state(LevelState::new(), tests)
    }

    pub fn status_ref(&self) -> (r: &GodLevelStatus)
        ensures
            *r == self.status(),
    {
        &self.running_state
    }

    pub fn initial_state(&self) -> (r: &LevelState)
        ensures
            *r == self.initial(),
    {
        &self.initial_state
    }

    pub fn current_test(&self) -> (r: usize)
        ensures
            r == self.test_index(),
    {
        self.current_test
    }

    pub fn speed(&self) -> (r: u64)
        ensures
            r == self.speed_scale(),
    {
        self.speed
    }

    /// Every test has been started (and the last one passed).
    pub fn is_success(&self) -> (r: bool)
        ensures
            r == (self.test_index() >= self.test_list().len()),
    {
        self.current_test >= self.tests.len()
    }

    /// Starts the next test on a copy of the edited board.
    fn next_test(&mut self)
        requires
            old(self).wf(),
            old(self).test_index() < old(self).test_list().len(),
        ensures
            final(self).wf(),
            final(self).test_index() == old(self).test_index() + 1,
            final(self).test_list() == old(self).test_list(),
            final(self).initial() == old(self).initial(),
            final(self).speed_scale() == old(self).speed_scale(),
            started(
                old(self).initial(),
                old(self).test_list()[old(self).test_index()].input_colours(),
                old(self).test_list()[old(self).test_index()].target(),
                final(self).status(),
            ),
    {
        let index = self.current_test;
        let n = self.tests.len();
        assert(index < n);
        let state = self.initial_state.clone();
        let test = self.tests[index].clone();
        let ghost copy = state;
        self.running_state.stop();
        self.running_state.start(state, test);
        proof {
            lemma_started_same_model(
                copy,
                self.initial(),
                self.tests@[index as int].input_colours(),
                self.tests@[index as int].target(),
                self.status(),
            );
        }
        self.current_test = index + 1;
    }

    /// Stops the run and goes back to the first test.
    pub fn reset_tests(&mut self)
        requires
            old(self).wf(),
        ensures
            final(self).wf(),
            final(self).status() is Stopped,
            final(self).test_index() == 0,
            final(self).test_list() == old(self).test_list(),
            final(self).initial() == old(self).initial(),
            final(self).speed_scale() == old(self).speed_scale(),
    {
        self.running_state.stop();
        self.current_test = 0;
    }

    /// Play resumes a run, or, when stopped, starts the tests from the first;
    /// Stop stops and rewinds; Pause pauses a playing run.
    pub fn control_button_press(&mut self, button: ControlButton)
        requires
            old(self).wf(),
        ensures
            final(self).wf(),
            final(self).test_list() == old(self).test_list(),
            final(self).initial() == old(self).initial(),
            final(self).speed_scale() == old(self).speed_scale(),
            button == ControlButton::Stop ==> final(self).status() is Stopped && final(self).test_index() == 0,
            button == ControlButton::Play && old(self).status() is Stopped && old(self).test_list().len() > 0
                ==> final(self).test_index() == 1 && started(
                old(self).initial(),
                old(self).test_list()[0].input_colours(),
                old(self).test_list()[0].target(),
                final(self).status(),
            ),
            button == ControlButton::Play && old(self).status() is Stopped && old(self).test_list().len() == 0
                ==> final(self).test_index() == 0 && final(self).status() is Stopped,
            button == ControlButton::Play && !(old(self).status() is Stopped) ==> final(self).test_index()
                == old(self).test_index() && match old(self).status() {
                GodLevelStatus::Paused(t, rs) => final(self).status() == GodLevelStatus::Playing(t, rs),
                _ => final(self).status() == old(self).status(),
            },
            button == ControlButton::Pause ==> final(self).test_index() == old(self).test_index() && match old(self).status() {
                GodLevelStatus::Playing(t, rs) => final(self).status() == GodLevelStatus::Paused(t, rs),
                _ => final(self).status() == old(self).status(),
            },
    {
        match button {
            ControlButton::Play => {
                if !self.running_state.is_stopped() {
                    self.running_state.play();
                    return;
                }
                self.current_test = 0;
                if self.tests.len() > 0 {
                    self.next_test();
                }
            },
            ControlButton::Stop => {
                self.reset_tests();
            },
            ControlButton::Pause => self.running_state.pause(),
        }
    }

    /// A click on the board: it closes a report, or, while stopped, places
    /// the editor choice at the clicked pixel.
    pub fn click_board(
        &mut self,
        point: crate::point::Point<i32>,
        value: crate::cell_type::PaletteResult<crate::cell_type::CellType>,
    ) -> (r: bool)
        requires
            old(self).wf(),
        ensures
            final(self).wf(),
            final(self).test_list() == old(self).test_list(),
            final(self).test_index() == old(self).test_index(),
            final(self).speed_scale() == old(self).speed_scale(),
            r == (old(self).status() is Report || old(self).status() is Stopped),
            match old(self).status() {
                GodLevelStatus::Report(res) => {
                    &&& final(self).status() == if crate::verdict::spec_passed(res.test_target(), res.outcome()) {
                        GodLevelStatus::Succeeded
                    } else {
                        GodLevelStatus::Stopped
                    }
                    &&& final(self).initial() == old(self).initial()
                },
                GodLevelStatus::Stopped => {
                    &&& final(self).status() is Stopped
                    &&& final(self).initial().cows_of() == old(self).initial().cows_of()
                    &&& final(self).initial().frame() == old(self).initial().frame()
                    &&& crate::board::placed_at_point(
                        old(self).initial().board_of(),
                        final(self).initial().board_of(),
                        point,
                        value,
                    )
                },
                _ => {
                    &&& final(self).status() == old(self).status()
                    &&& final(self).initial() == old(self).initial()
                },
            },
    {
        match &self.running_state {
            GodLevelStatus::Report(result) => {
                let result = result.clone();
                self.running_state.close_report(&result);
                true
            },
            GodLevelStatus::Stopped => {
                self.initial_state.set_cell_at_point(point, value);
                true
            },
            _ => false,
        }
    }

    /// Advances the level by `dt` milliseconds at the current speed, after
    /// the speed is raised or lowered by one within 1 to the largest scale.
    /// When a test passes the next one starts; returns whether every test
    /// has passed.
    pub fn step(&mut self, dt: u64, faster: bool, slower: bool, confirm: bool) -> (r: bool)
        requires
            old(self).wf(),
        ensures
            final(self).wf(),
            final(self).test_list() == old(self).test_list(),
            final(self).initial() == old(self).initial(),
            ({
                let s0 = old(self).speed_scale() + (if faster { 1int } else { 0int }) - (if slower { 1int } else { 0int });
                final(self).speed_scale() == (if s0 < 1 { 1 } else if s0 > MAX_SPEED_SCALE { MAX_SPEED_SCALE as int } else { s0 })
            }),
            exists|mid: GodLevelStatus|
                #[trigger] status_stepped(old(self).status(), mid, scale_time(dt, final(self).speed_scale()), confirm)
                    && if mid is Succeeded && old(self).test_index() < old(self).test_list().len() {
                    &&& !r
                    &&& final(self).test_index() == old(self).test_index() + 1
                    &&& started(
                        old(self).initial(),
                        old(self).test_list()[old(self).test_index()].input_colours(),
                        old(self).test_list()[old(self).test_index()].target(),
                        final(self).status(),
                    )
                } else {
                    &&& r == (mid is Succeeded)
                    &&& final(self).test_index() == old(self).test_index()
                    &&& final(self).status() == mid
                },
    {
        let mut speed = self.speed;
        if faster {
            speed = speed + 1;
        }
        if slower {
            speed = speed - 1;
        }
        if speed < 1 {
            speed = 1;
        }
        if speed > MAX_SPEED_SCALE {
            speed = MAX_SPEED_SCALE;
        }
        self.speed = speed;
        let scaled = if dt > u64::MAX / speed {
            assert(dt * speed > u64::MAX) by (nonlinear_arith)
                requires
                    dt > u64::MAX / speed,
                    speed >= 1,
            {
                assert(u64::MAX < (u64::MAX / speed + 1) * speed);
            }
            u64::MAX
        } else {
            assert(dt * speed <= u64::MAX) by (nonlinear_arith)
                requires
                    dt <= u64::MAX / speed,
                    speed >= 1,
            ;
            dt * speed
        };
        assert(scaled == scale_time(dt, speed));
        self.running_state.step(scaled, confirm);
        let ghost mid = self.running_state;
        if self.running_state.is_succeeded() {
            if self.is_success() {
                return true;
            } else {
                self.next_test();
                return false;
            }
        }
        false
    }
}

} // verus!
