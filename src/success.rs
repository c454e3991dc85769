use vstd::prelude::*;

verus! {

/// How the simulation stands: some actor failed, some actor is still on its
/// way, or every actor reached success.
#[derive(Debug, Clone, Copy, PartialEq, Eq, Structural)]
pub enum SuccessState {
    Failed,
    Running,
    Succeeded,
}

/// Combination with precedence Failed, then Running, then Succeeded.
pub open spec fn spec_combine(a: SuccessState, b: SuccessState) -> SuccessState {
    if a == SuccessState::Failed || b == SuccessState::Failed {
        SuccessState::Failed
    } else if a == SuccessState::Running || b == SuccessState::Running {
        SuccessState::Running
    } else {
        SuccessState::Succeeded
    }
}

/// The combination of a sequence of states, folded from the left starting
/// from `Succeeded`.
pub open spec fn combine_all(s: Seq<SuccessState>) -> SuccessState
    decreases s.len(),
{
    if s.len() == 0 {
        SuccessState::Succeeded
    } else {
        spec_combine(combine_all(s.drop_last()), s.last())
    }
}

impl SuccessState {
    pub fn is_running(&self) -> (r: bool)
        ensures
            r == (*self == SuccessState::Running),
    {
        match self {
            SuccessState::Running => true,
            _ => false,
        }
    }

    pub fn is_success(&self) -> (r: bool)
        ensures
            r == (*self == SuccessState::Succeeded),
    {
        match self {
            SuccessState::Succeeded => true,
            _ => false,
        }
    }

    /// Folds `other` into this state.
    pub fn combine(&mut self, other: SuccessState)
        ensures
            *final(self) == spec_combine(*old(self), other),
    {
        match (*self, other) {
            (SuccessState::Failed, _) | (_, SuccessState::Failed) => {
                *self = SuccessState::Failed;
            },
            (SuccessState::Running, _) | (_, SuccessState::Running) => {
                *self = SuccessState::Running;
            },
            _ => {
                *self = SuccessState::Succeeded;
            },
        }
    }
}

/// Combining is associative and commutative, has `Succeeded` as identity and
/// `Failed` as absorbing element, so a fold over actors does not depend on
/// their order.
pub proof fn lemma_combine_laws(a: SuccessState, b: SuccessState, c: SuccessState)
    ensures
        spec_combine(a, b) == spec_combine(b, a),
        spec_combine(spec_combine(a, b), c) == spec_combine(a, spec_combine(b, c)),
        spec_combine(a, SuccessState::Succeeded) == a,
        spec_combine(a, SuccessState::Failed) == SuccessState::Failed,
{
}

/// The combination of several states is Failed when any of them is Failed,
/// else Running when any is Running, else Succeeded (also for none at all).
pub proof fn lemma_combine_all(s: Seq<SuccessState>)
    ensures
        combine_all(s) == (if s.contains(SuccessState::Failed) {
            SuccessState::Failed
        } else if s.contains(SuccessState::Running) {
            SuccessState::Running
        } else {
            SuccessState::Succeeded
        }),
    decreases s.len(),
{
    if s.len() > 0 {
        let t = s.drop_last();
        lemma_combine_all(t);
        assert(s == t.push(s.last()));
        assert forall|x: SuccessState| s.contains(x) == (t.contains(x) || s.last() == x) by {
            if s.contains(x) {
                let i = choose|i: int| 0 <= i < s.len() && s[i] == x;
                if i < t.len() {
                    assert(t[i] == x);
                }
            }
            if t.contains(x) {
                let i = choose|i: int| 0 <= i < t.len() && t[i] == x;
                assert(s[i] == x);
            }
            if s.last() == x {
                assert(s[s.len() - 1] == x);
            }
        }
    }
}

/// The combination of states does not depend on their order: any
/// permutation of the sequence combines to the same state.
pub proof fn lemma_combine_all_permutation(s: Seq<SuccessState>, t: Seq<SuccessState>)
    requires
        s.to_multiset() == t.to_multiset(),
    ensures
        combine_all(s) == combine_all(t),
{
    lemma_combine_all(s);
    lemma_combine_all(t);
    broadcast use vstd::seq_lib::group_to_multiset_ensures;

    assert(s.contains(SuccessState::Failed) <==> s.to_multiset().count(SuccessState::Failed) > 0);
    assert(t.contains(SuccessState::Failed) <==> t.to_multiset().count(SuccessState::Failed) > 0);
    assert(s.contains(SuccessState::Running) <==> s.to_multiset().count(SuccessState::Running)
        > 0);
    assert(t.contains(SuccessState::Running) <==> t.to_multiset().count(SuccessState::Running)
        > 0);
}

} // verus!
