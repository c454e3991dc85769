use vstd::prelude::*;

verus! {

/// Whether the current state is the top (forward) or the newest of the
/// older states (backward, after an undo).
#[derive(Debug, Clone, Copy, PartialEq, Eq, Structural)]
enum TimeDirection {
    Forward,
    Backward,
}

/// An undo/redo stack of snapshots. It is never empty: one state sits on top
/// and the older ones below it.
#[derive(Debug, Clone)]
pub struct StateStack<T> {
    state_stack: Vec<T>,
    stack_top: T,
    time_direction: TimeDirection,
}

/// The model of a stack: the older states (oldest first), the top, and
/// whether time runs backward.
pub struct StackModel<T> {
    pub older: Seq<T>,
    pub top: T,
    pub backward: bool,
}

/// Backward time needs an older state to stand on.
pub open spec fn model_wf<T>(m: StackModel<T>) -> bool {
    m.backward ==> m.older.len() > 0
}

pub open spec fn model_current<T>(m: StackModel<T>) -> T {
    if m.backward {
        m.older.last()
    } else {
        m.top
    }
}

pub open spec fn model_previous<T>(m: StackModel<T>) -> T {
    if m.backward {
        m.top
    } else if m.older.len() > 0 {
        m.older.last()
    } else {
        m.top
    }
}

/// Pushing forward keeps the top as an older state; pushing after an undo
/// replaces the undone top and discards it.
pub open spec fn model_push<T>(m: StackModel<T>, s: T) -> StackModel<T> {
    if m.backward {
        StackModel { older: m.older, top: s, backward: false }
    } else {
        StackModel { older: m.older.push(m.top), top: s, backward: false }
    }
}

/// One step of undo.
pub open spec fn model_pop<T>(m: StackModel<T>) -> StackModel<T> {
    if m.backward {
        let older = m.older.drop_last();
        StackModel { older, top: m.older.last(), backward: older.len() > 0 }
    } else {
        StackModel { older: m.older, top: m.top, backward: m.older.len() > 0 }
    }
}

/// The oldest state alone.
pub open spec fn model_purge<T>(m: StackModel<T>) -> StackModel<T> {
    StackModel {
        older: Seq::empty(),
        top: if m.older.len() > 0 {
            m.older[0]
        } else {
            m.top
        },
        backward: false,
    }
}

/// Every state held by the stack.
pub open spec fn model_states<T>(m: StackModel<T>) -> Seq<T> {
    m.older.push(m.top)
}

impl<T> StateStack<T> {
    pub closed spec fn model(&self) -> StackModel<T> {
        StackModel {
            older: self.state_stack@,
            top: self.stack_top,
            backward: self.time_direction == TimeDirection::Backward,
        }
    }

    pub open spec fn wf(&self) -> bool {
        model_wf(self.model())
    }

    pub fn new(state: T) -> (r: Self)
        ensures
            r.wf(),
            r.model() == (StackModel { older: Seq::<T>::empty(), top: state, backward: false }),
    {
        StateStack { state_stack: Vec::new(), stack_top: state, time_direction: TimeDirection::Forward }
    }

    /// Records a new current state.
    pub fn push_state(&mut self, state: T)
        requires
            old(self).wf(),
        ensures
            final(self).wf(),
            final(self).model() == model_push(old(self).model(), state),
    {
        match self.time_direction {
            TimeDirection::Forward => {
                let mut state = state;
                std::mem::swap(&mut self.stack_top, &mut state);
                self.state_stack.push(state);
            },
            TimeDirection::Backward => {
                self.stack_top = state;
                self.time_direction = TimeDirection::Forward;
            },
        }
    }

    /// Undoes one step; with no older state it does nothing.
    pub fn pop_state(&mut self)
        requires
            old(self).wf(),
        ensures
            final(self).wf(),
            final(self).model() == model_pop(old(self).model()),
    {
        match self.time_direction {
            TimeDirection::Forward => {
                if self.state_stack.len() > 0 {
                    self.time_direction = TimeDirection::Backward;
                }
            },
            TimeDirection::Backward => {
                match self.state_stack.pop() {
                    Some(state) => self.stack_top = state,
                    None => {},
                }
            },
        }
        if self.state_stack.len() == 0 {
            self.time_direction = TimeDirection::Forward;
        }
    }

    /// Collapses the stack to its oldest state.
    pub fn purge_states(&mut self)
        requires
            old(self).wf(),
        ensures
            final(self).wf(),
            final(self).model() == model_purge(old(self).model()),
    {
        if self.state_stack.len() > 0 {
            let oldest = self.state_stack.swap_remove(0);
            self.stack_top = oldest;
        }
        self.state_stack = Vec::new();
        self.time_direction = TimeDirection::Forward;
        assert(self.state_stack@ == Seq::<T>::empty());
    }

    /// The state before the current one, from which the current animation
    /// starts.
    pub fn last_state(&self) -> (r: &T)
        requires
            self.wf(),
        ensures
            *r == model_previous(self.model()),
    {
        match self.time_direction {
            TimeDirection::Forward => {
                let n = self.state_stack.len();
                if n > 0 {
                    &self.state_stack[n - 1]
                } else {
                    &self.stack_top
                }
            },
            TimeDirection::Backward => &self.stack_top,
        }
    }

    pub fn current_state(&self) -> (r: &T)
        requires
            self.wf(),
        ensures
            *r == model_current(self.model()),
    {
        match self.time_direction {
            TimeDirection::Forward => &self.stack_top,
            TimeDirection::Backward => {
                let n = self.state_stack.len();
                &self.state_stack[n - 1]
            },
        }
    }

    /// The current state, to be changed in place.
    pub fn current_state_mut(&mut self) -> (r: &mut T)
        requires
            old(self).wf(),
        ensures
            *r == model_current(old(self).model()),
            final(self).wf(),
            final(self).model() == (if old(self).model().backward {
                StackModel {
                    older: old(self).model().older.update(
                        old(self).model().older.len() - 1,
                        *final(r),
                    ),
                    ..old(self).model()
                }
            } else {
                StackModel { top: *final(r), ..old(self).model() }
            }),
    {
        match self.time_direction {
            TimeDirection::Forward => &mut self.stack_top,
            TimeDirection::Backward => {
                let n = self.state_stack.len();
                &mut self.state_stack[n - 1]
            },
        }
    }
}

/// Undo after two pushes comes back to the state before them, and every
/// state that undo can reveal is one the stack held before.
pub proof fn lemma_push_push_pop_pop<T>(m: StackModel<T>, s1: T, s2: T)
    requires
        model_wf(m),
    ensures
        model_current(model_pop(model_pop(model_push(model_push(m, s1), s2)))) == model_current(m),
{
}

/// A push after an undo discards the undone state: the stack then holds only
/// states it held before the two pushes, the first pushed state and the new
/// one.
pub proof fn lemma_push_after_pop_discards<T>(m: StackModel<T>, s1: T, s2: T, s3: T)
    requires
        model_wf(m),
    ensures
        forall|x: T|
            model_states(model_push(model_pop(model_push(model_push(m, s1), s2)), s3)).contains(x)
                ==> model_states(m).contains(x) || x == s1 || x == s3,
        !model_states(m).contains(s2) && s2 != s1 && s2 != s3 ==> !model_states(
            model_push(model_pop(model_push(model_push(m, s1), s2)), s3),
        ).contains(s2),
{
    let r = model_push(model_pop(model_push(model_push(m, s1), s2)), s3);
    let pre = if m.backward {
        m.older
    } else {
        m.older.push(m.top)
    };
    assert(model_states(r) =~= pre.push(s1).push(s3));
    assert forall|x: T| model_states(r).contains(x) implies model_states(m).contains(x) || x == s1
        || x == s3 by {
        let i = choose|i: int| 0 <= i < model_states(r).len() && model_states(r)[i] == x;
        if i < pre.len() {
            assert(model_states(m)[i] == x);
        }
    }
}

/// Undo never brings back a state that the stack does not hold: the current
/// state after an undo is one of the states held before it.
pub proof fn lemma_pop_reveals_held_state<T>(m: StackModel<T>)
    requires
        model_wf(m),
    ensures
        model_states(m).contains(model_current(model_pop(m))),
        model_wf(model_pop(m)),
        forall|x: T| model_states(model_pop(m)).contains(x) ==> model_states(m).contains(x),
{
    let p = model_pop(m);
    if m.backward {
        assert(model_states(m)[m.older.len() - 1] == m.older.last());
        if m.older.len() > 1 {
            assert(model_states(m)[m.older.len() - 2] == p.older.last());
        }
        assert forall|x: T| model_states(p).contains(x) implies model_states(m).contains(x) by {
            let i = choose|i: int| 0 <= i < model_states(p).len() && model_states(p)[i] == x;
            assert(model_states(m)[i] == x);
        }
    } else {
        assert(model_states(m)[model_states(m).len() - 1] == m.top);
        if m.older.len() > 0 {
            assert(model_states(m)[m.older.len() - 1] == m.older.last());
        }
        assert(model_states(p) == model_states(m));
    }
}

} // verus!
