use vstd::prelude::*;

use crate::cell_type::{CellPalette, CellType};
use crate::god_level::add_time;
use crate::level::{
    spec_key_command, spec_level_command, spec_level_success, KeyboardCommand, LevelState,
};
use crate::board::placed_at_point;
use crate::point::Point;
use crate::state_stack::{
    lemma_pop_reveals_held_state, model_current, model_pop, model_purge, model_push, model_states,
    StackModel, StateStack,
};
use crate::success::SuccessState;

verus! {

/// Milliseconds a move takes to animate.
pub const ANIMATION_TIME: u64 = 100;

/// Milliseconds after an animation before a held key repeats.
pub const COOLDOWN_TIME: u64 = 50;

/// Every state the stack holds is well formed.
pub open spec fn all_wf(m: StackModel<LevelState>) -> bool {
    forall|i: int| 0 <= i < model_states(m).len() ==> (#[trigger] model_states(m)[i]).wf()
}

/// A level the player plays by hand, with undo, redo and restart.
pub struct CowLevel {
    states: StateStack<LevelState>,
    animation_time: u64,
    palette: CellPalette<CellType>,
}

impl CowLevel {
    pub closed spec fn stack(&self) -> StateStack<LevelState> {
        self.states
    }

    pub closed spec fn time(&self) -> u64 {
        self.animation_time
    }

    pub closed spec fn palette_of(&self) -> CellPalette<CellType> {
        self.palette
    }

    pub open spec fn wf(&self) -> bool {
        &&& self.stack().wf()
        &&& all_wf(self.stack().model())
        &&& self.palette_of().wf()
    }

    /// A level that starts from `state`.
    pub fn from_state(state: LevelState) -> (r: Self)
        requires
            state.wf(),
        ensures
            r.wf(),
            r.stack().model() == (StackModel { older: Seq::<LevelState>::empty(), top: state, backward: false }),
            r.time() == 0,
    {
        let r = CowLevel {
            states: StateStack::new(state),
            animation_time: 0,
            palette: CellPalette::new(CellType::full_palette()),
        };
        proof {
            assert(model_states(r.stack().model())[0] == state);
        }
        r
    }

    /// The starting level.
    pub fn new() -> (r: Self)
        ensures
            r.wf(),
            r.time() == 0,
    {
        CowLevel::from_state(LevelState::new())
    }

    pub fn states(&self) -> (r: &StateStack<LevelState>)
        ensures
            *r == self.stack(),
    {
        &self.states
    }

    pub fn palette_mut(&mut self) -> (r: &mut CellPalette<CellType>)
        ensures
            *r == old(self).palette_of(),
            final(self).palette_of() == *final(r),
            final(self).stack() == old(self).stack(),
            final(self).time() == old(self).time(),
    {
        &mut self.palette
    }

    /// Whether the last move has been shown and the cooldown has passed.
    pub fn is_finished_animating(&self) -> (r: bool)
        ensures
            r == (self.time() > ANIMATION_TIME + COOLDOWN_TIME),
    {
        self.animation_time > ANIMATION_TIME + COOLDOWN_TIME
    }

    /// Restarts: only the oldest state is kept.
    pub fn purge_states(&mut self)
        requires
            old(self).wf(),
        ensures
            final(self).wf(),
            final(self).stack().model() == model_purge(old(self).stack().model()),
            final(self).time() == old(self).time(),
    {
        proof {
            let m = self.stack().model();
            if m.older.len() > 0 {
                assert(model_states(m)[0] == m.older[0]);
            } else {
                assert(model_states(m)[0] == m.top);
            }
        }
        self.states.purge_states();
        proof {
            assert(model_states(self.stack().model())[0] == self.stack().model().top);
        }
    }

    /// Places the palette's choice at the clicked pixel of the current state;
    /// the history and the palette are otherwise unchanged.
    pub fn click_board(&mut self, point: Point<i32>)
        requires
            old(self).wf(),
        ensures
            final(self).wf(),
            final(self).time() == old(self).time(),
            final(self).palette_of() == old(self).palette_of(),
            ({
                let m = old(self).stack().model();
                let cur = model_current(m);
                let s = model_current(final(self).stack().model());
                &&& final(self).stack().model() == if m.backward {
                    StackModel { older: m.older.update(m.older.len() - 1, s), ..m }
                } else {
                    StackModel { top: s, ..m }
                }
                &&& s.cows_of() == cur.cows_of()
                &&& s.frame() == cur.frame()
                &&& placed_at_point(cur.board_of(), s.board_of(), point, old(self).palette_of().choice())
            }),
    {
        let value = self.palette.value();
        let ghost m = self.stack().model();
        proof {
            if m.backward {
                assert(model_states(m)[m.older.len() - 1] == m.older.last());
            } else {
                assert(model_states(m)[m.older.len() as int] == m.top);
            }
        }
        let current = self.states.current_state_mut();
        current.set_cell_at_point(point, value);
        let ghost updated = *current;
        assert(updated.wf());
        proof {
            if m.backward {
                assert(m.older.update(m.older.len() - 1, updated).last() == updated);
            }
        }
        proof {
            let m2 = self.stack().model();
            assert forall|i: int| 0 <= i < model_states(m2).len() implies (#[trigger] model_states(m2)[i]).wf() by {
                if m.backward {
                    if i < m.older.len() - 1 {
                        assert(model_states(m2)[i] == model_states(m)[i]);
                    } else if i == m.older.len() - 1 {
                        assert(model_states(m2)[i] == updated);
                    } else {
                        assert(model_states(m2)[i] == model_states(m)[i]);
                    }
                } else if i < m.older.len() {
                    assert(model_states(m2)[i] == model_states(m)[i]);
                } else {
                    assert(model_states(m2)[i] == updated);
                }
            }
        }
    }

    /// One frame of play: `dt` milliseconds pass; then a restart empties
    /// the history, an undo steps back (and ends the frame), and, while the
    /// current state is still running, a key makes one move that is
    /// recorded. Returns whether the level is complete: the current state
    /// succeeded and its last move has been shown.
    pub fn step(&mut self, dt: u64, restart: bool, undo: bool, key: Option<KeyboardCommand>) -> (r: bool)
        requires
            old(self).wf(),
        ensures
            final(self).wf(),
            ({
                let t = add_time(old(self).time(), dt);
                let m = if restart {
                    model_purge(old(self).stack().model())
                } else {
                    old(self).stack().model()
                };
                let success = spec_level_success(model_current(m).model());
                if undo {
                    &&& !r
                    &&& final(self).stack().model() == model_pop(m)
                    &&& final(self).time() == 0
                } else if success != SuccessState::Running || key is None {
                    &&& final(self).stack().model() == m
                    &&& final(self).time() == t
                    &&& r == (success == SuccessState::Succeeded && t > ANIMATION_TIME + COOLDOWN_TIME)
                } else {
                    &&& !r
                    &&& final(self).time() == 0
                    &&& final(self).stack().model() == model_push(m, final(self).stack().model().top)
                    &&& final(self).stack().model().top.model() == spec_level_command(
                        model_current(m).model(),
                        spec_key_command(key.unwrap()),
                    )
                }
            }),
    {
        if dt > u64::MAX - self.animation_time {
            self.animation_time = u64::MAX;
        } else {
            self.animation_time = self.animation_time + dt;
        }
        if restart {
            self.purge_states();
        }
        if undo {
            proof {
                lemma_pop_reveals_held_state(self.stack().model());
                let m = self.stack().model();
                assert forall|i: int| 0 <= i < model_states(model_pop(m)).len() implies (#[trigger] model_states(model_pop(m))[i]).wf() by {
                    let x = model_states(model_pop(m))[i];
                    assert(model_states(model_pop(m)).contains(x));
                    assert(model_states(m).contains(x));
                    let j = choose|j: int| 0 <= j < model_states(m).len() && model_states(m)[j] == x;
                    assert(model_states(m)[j].wf());
                }
            }
            self.states.pop_state();
            self.animation_time = 0;
            return false;
        }
        let ghost m = self.stack().model();
        proof {
            if m.backward {
                assert(model_states(m)[m.older.len() - 1] == m.older.last());
            } else {
                assert(model_states(m)[m.older.len() as int] == m.top);
            }
        }
        match self.states.current_state().success_state() {
            SuccessState::Succeeded => {
                return self.is_finished_animating();
            },
            SuccessState::Failed => {
                return false;
            },
            SuccessState::Running => {},
        }
        match key {
            Some(k) => {
                let mut next = self.states.current_state().clone();
                next.command(k.command());
                let ghost pushed = next;
                self.states.push_state(next);
                self.animation_time = 0;
                proof {
                    let m2 = self.stack().model();
                    assert forall|i: int| 0 <= i < model_states(m2).len() implies (#[trigger] model_states(m2)[i]).wf() by {
                        if i < model_states(m2).len() - 1 {
                            if m.backward {
                                assert(model_states(m2)[i] == model_states(m)[i]);
                            } else {
                                assert(model_states(m2)[i] == model_states(m)[i]);
                            }
                        }
                    }
                    assert(pushed.model() == spec_level_command(model_current(m).model(), spec_key_command(k)));
                }
                false
            },
            None => false,
        }
    }
}

} // verus!
