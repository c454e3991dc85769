//! Checking that actor data forms a forest before a tick ever recurses
//! through it.
use vstd::prelude::*;

use crate::cow::{data_topology, ranked, CowData};

verus! {

/// The number of `false` entries.
pub open spec fn count_undone(s: Seq<bool>) -> nat
    decreases s.len(),
{
    if s.len() == 0 {
        0
    } else {
        count_undone(s.drop_last()) + if s.last() {
            0nat
        } else {
            1nat
        }
    }
}

proof fn lemma_count_update(s: Seq<bool>, i: int)
    requires
        0 <= i < s.len(),
        !s[i],
    ensures
        count_undone(s.update(i, true)) + 1 == count_undone(s),
    decreases s.len(),
{
    let t = s.update(i, true);
    if i == s.len() - 1 {
        assert(t.drop_last() =~= s.drop_last());
    } else {
        assert(t.drop_last() =~= s.drop_last().update(i, true));
        lemma_count_update(s.drop_last(), i);
    }
}

proof fn lemma_count_bound(s: Seq<bool>)
    ensures
        count_undone(s) <= s.len(),
        count_undone(s) == 0 ==> forall|i: int| 0 <= i < s.len() ==> s[i],
    decreases s.len(),
{
    if s.len() > 0 {
        lemma_count_bound(s.drop_last());
        assert forall|i: int| 0 <= i < s.len() - 1 implies s.drop_last()[i] == s[i] by {}
    }
}

/// Among the unfinished entries below `n`, one of least rank.
proof fn lemma_least_undone(done: Seq<bool>, rank: Seq<nat>, n: int) -> (m: int)
    requires
        0 <= n <= done.len(),
        done.len() == rank.len(),
        exists|i: int| 0 <= i < n && !done[i],
    ensures
        0 <= m < n,
        !done[m],
        forall|j: int| 0 <= j < n && !done[j] ==> rank[m] <= rank[j],
    decreases n,
{
    if exists|i: int| 0 <= i < n - 1 && !done[i] {
        let m0 = lemma_least_undone(done, rank, n - 1);
        if !done[n - 1] && rank[n - 1] < rank[m0] {
            n - 1
        } else {
            m0
        }
    } else {
        n - 1
    }
}

/// Every child index of `topo` names an actor.
pub open spec fn in_range(topo: Seq<Seq<usize>>) -> bool {
    forall|a: int, b: int| 0 <= a < topo.len() && 0 <= b < topo[a].len() ==> #[trigger] topo[a][b] < topo.len()
}

/// Actor `x` is unfinished and all its children are finished.
pub open spec fn is_ready(topo: Seq<Seq<usize>>, done: Seq<bool>, x: int) -> bool {
    !done[x] && forall|y: int| 0 <= y < topo[x].len() ==> #[trigger] done[topo[x][y] as int]
}

/// Every finished actor has finished children of smaller rank, all below
/// `round`.
pub open spec fn ranks_so_far(topo: Seq<Seq<usize>>, done: Seq<bool>, rank: Seq<usize>, round: int) -> bool {
    &&& forall|a: int| 0 <= a < topo.len() && #[trigger] done[a] ==> rank[a] < round
    &&& forall|a: int, b: int|
        0 <= a < topo.len() && done[a] && 0 <= b < topo[a].len() ==> done[#[trigger] topo[a][b] as int]
            && rank[topo[a][b] as int] < rank[a]
}

fn children_in_range(cow_data: &Vec<CowData>) -> (r: bool)
    ensures
        r == in_range(data_topology(cow_data@)),
{
    let ghost topo = data_topology(cow_data@);
    let n = cow_data.len();
    let mut i: usize = 0;
    while i < n
        invariant
            n == cow_data@.len(),
            topo == data_topology(cow_data@),
            i <= n,
            forall|a: int, b: int| 0 <= a < i && 0 <= b < topo[a].len() ==> #[trigger] topo[a][b] < n,
        decreases n - i,
    {
        let children = &cow_data[i].3;
        assert(topo[i as int] == children@);
        let mut j: usize = 0;
        while j < children.len()
            invariant
                n == cow_data@.len(),
                topo == data_topology(cow_data@),
                i < n,
                topo[i as int] == children@,
                j <= children@.len(),
                forall|a: int, b: int|
                    (0 <= a < i && 0 <= b < topo[a].len()) || (a == i && 0 <= b < j) ==> #[trigger] topo[a][b] < n,
            decreases children@.len() - j,
        {
            if children[j] >= n {
                proof {
                    assert(topo[i as int][j as int] >= topo.len());
                }
                return false;
            }
            j = j + 1;
        }
        i = i + 1;
    }
    true
}

/// Whether every child of actor `a` is finished.
fn children_done(cow_data: &Vec<CowData>, done: &Vec<bool>, a: usize) -> (r: bool)
    requires
        a < cow_data@.len(),
        done@.len() == cow_data@.len(),
        in_range(data_topology(cow_data@)),
    ensures
        r == forall|y: int| 0 <= y < data_topology(cow_data@)[a as int].len() ==> #[trigger] done@[data_topology(cow_data@)[a as int][y] as int],
{
    let ghost topo = data_topology(cow_data@);
    let children = &cow_data[a].3;
    assert(topo[a as int] == children@);
    let mut j: usize = 0;
    while j < children.len()
        invariant
            a < topo.len(),
            topo == data_topology(cow_data@),
            in_range(topo),
            done@.len() == topo.len(),
            topo[a as int] == children@,
            j <= children@.len(),
            forall|y: int| 0 <= y < j ==> #[trigger] done@[children@[y] as int],
        decreases children@.len() - j,
    {
        assert(topo[a as int][j as int] < topo.len());
        if !done[children[j]] {
            return false;
        }
        j = j + 1;
    }
    true
}

/// The ready actors, in increasing order.
fn ready_actors(cow_data: &Vec<CowData>, done: &Vec<bool>) -> (r: Vec<usize>)
    requires
        done@.len() == cow_data@.len(),
        in_range(data_topology(cow_data@)),
    ensures
        forall|t: int| 0 <= t < r@.len() ==> #[trigger] r@[t] < cow_data@.len(),
        forall|t: int, u: int| 0 <= t < u < r@.len() ==> r@[t] < r@[u],
        forall|x: usize| x < cow_data@.len() ==> (r@.contains(x) <==> is_ready(data_topology(cow_data@), done@, x as int)),
{
    let ghost topo = data_topology(cow_data@);
    let n = cow_data.len();
    let mut ready: Vec<usize> = Vec::new();
    let mut a: usize = 0;
    while a < n
        invariant
            n == cow_data@.len(),
            topo == data_topology(cow_data@),
            in_range(topo),
            done@.len() == n,
            a <= n,
            forall|t: int| 0 <= t < ready@.len() ==> #[trigger] ready@[t] < a,
            forall|t: int, u: int| 0 <= t < u < ready@.len() ==> ready@[t] < ready@[u],
            forall|x: usize| x < a ==> (ready@.contains(x) <==> is_ready(topo, done@, x as int)),
        decreases n - a,
    {
        let ghost before = ready@;
        if !done[a] && children_done(cow_data, done, a) {
            ready.push(a);
        }
        proof {
            assert forall|x: usize| x < a + 1 implies (ready@.contains(x) <==> is_ready(topo, done@, x as int)) by {
                if ready@.contains(x) {
                    let t = choose|t: int| 0 <= t < ready@.len() && ready@[t] == x;
                    if t < before.len() {
                        assert(before[t] == x);
                        assert(before.contains(x));
                    }
                }
                if x < a && before.contains(x) {
                    let t = choose|t: int| 0 <= t < before.len() && before[t] == x;
                    assert(ready@[t] == x);
                }
                if x == a && is_ready(topo, done@, x as int) {
                    assert(ready@[before.len() as int] == a);
                }
                if x == a && before.contains(x) {
                    let t = choose|t: int| 0 <= t < before.len() && before[t] == x;
                    assert(before[t] < a);
                }
            }
        }
        a = a + 1;
    }
    ready
}

/// Finishes the ready actors with `round` as their rank.
fn finish_round(done: &mut Vec<bool>, rank: &mut Vec<usize>, ready: &Vec<usize>, round: usize, Ghost(topo): Ghost<Seq<Seq<usize>>>)
    requires
        old(done)@.len() == topo.len(),
        old(rank)@.len() == topo.len(),
        in_range(topo),
        ready@.len() > 0,
        forall|t: int| 0 <= t < ready@.len() ==> #[trigger] ready@[t] < topo.len(),
        forall|t: int, u: int| 0 <= t < u < ready@.len() ==> ready@[t] < ready@[u],
        forall|x: usize| x < topo.len() ==> (ready@.contains(x) <==> is_ready(topo, old(done)@, x as int)),
        ranks_so_far(topo, old(done)@, old(rank)@, round as int),
    ensures
        final(done)@.len() == topo.len(),
        final(rank)@.len() == topo.len(),
        count_undone(final(done)@) + ready@.len() == count_undone(old(done)@),
        ranks_so_far(topo, final(done)@, final(rank)@, round + 1),
{
    let ghost snapshot = done@;
    let ghost rank0 = rank@;
    proof {
        assert forall|u: int| 0 <= u < ready@.len() implies !done@[#[trigger] ready@[u] as int] by {
            assert(ready@.contains(ready@[u]));
        }
    }
    let mut t: usize = 0;
    while t < ready.len()
        invariant
            done@.len() == topo.len(),
            rank@.len() == topo.len(),
            in_range(topo),
            t <= ready@.len(),
            forall|u: int| 0 <= u < ready@.len() ==> #[trigger] ready@[u] < topo.len(),
            forall|u: int, w: int| 0 <= u < w < ready@.len() ==> ready@[u] < ready@[w],
            forall|x: usize| x < topo.len() ==> (ready@.contains(x) <==> is_ready(topo, snapshot, x as int)),
            forall|u: int| t <= u < ready@.len() ==> !done@[#[trigger] ready@[u] as int],
            forall|x: int| 0 <= x < topo.len() ==> (#[trigger] done@[x] == (snapshot[x] || exists|u: int| 0 <= u < t && ready@[u] == x)),
            forall|x: int| 0 <= x < topo.len() && snapshot[x] ==> #[trigger] rank@[x] == rank0[x],
            forall|x: int| 0 <= x < topo.len() && done@[x] && !snapshot[x] ==> #[trigger] rank@[x] == round,
            count_undone(done@) + t == count_undone(snapshot),
        decreases ready@.len() - t,
    {
        let x = ready[t];
        proof {
            lemma_count_update(done@, x as int);
            assert forall|u: int| t < u < ready@.len() implies ready@[u] != x by {}
        }
        let ghost before = done@;
        done.set(x, true);
        rank.set(x, round);
        proof {
            assert forall|y: int| 0 <= y < topo.len() implies (#[trigger] done@[y] == (snapshot[y] || exists|u: int| 0 <= u < t + 1 && ready@[u] == y)) by {
                if y == x {
                    assert(ready@[t as int] == y);
                } else {
                    assert(done@[y] == before[y]);
                }
            }
            assert forall|y: int| 0 <= y < topo.len() && snapshot[y] implies #[trigger] rank@[y] == rank0[y] by {
                if y == x {
                    assert(ready@.contains(x));
                    assert(is_ready(topo, snapshot, x as int));
                }
            }
        }
        t = t + 1;
    }
    proof {
        assert forall|a: int| 0 <= a < topo.len() && #[trigger] done@[a] implies rank@[a] < round + 1 by {
            if snapshot[a] {
                assert(rank0[a] < round);
            }
        }
        assert forall|a: int, b: int|
            0 <= a < topo.len() && done@[a] && 0 <= b < topo[a].len() implies done@[#[trigger] topo[a][b] as int]
                && rank@[topo[a][b] as int] < rank@[a] by {
            let c = topo[a][b] as int;
            if snapshot[a] {
                assert(snapshot[c] && rank0[c] < rank0[a]);
            } else {
                let u = choose|u: int| 0 <= u < t && ready@[u] == a;
                assert(ready@.contains(ready@[u]));
                assert(is_ready(topo, snapshot, ready@[u] as int));
                assert(snapshot[c]);
                assert(rank0[c] < round);
            }
        }
    }
}

/// Ranks proving that `cow_data` describes a forest, or `None` when no
/// ranking exists (a child index out of range, or an actor that is its own
/// ancestor).
pub fn forest_ranks(cow_data: &Vec<CowData>) -> (r: Option<Vec<usize>>)
    ensures
        match r {
            Some(v) => ranked(data_topology(cow_data@), v@.map_values(|x: usize| x as nat)),
            None => !exists|rank: Seq<nat>| ranked(data_topology(cow_data@), rank),
        },
{
    let ghost topo = data_topology(cow_data@);
    if !children_in_range(cow_data) {
        return None;
    }
    let n = cow_data.len();
    let mut done: Vec<bool> = Vec::new();
    let mut rank: Vec<usize> = Vec::new();
    let mut k: usize = 0;
    while k < n
        invariant
            k <= n,
            done@.len() == k,
            rank@.len() == k,
            forall|m: int| 0 <= m < k ==> !#[trigger] done@[m],
        decreases n - k,
    {
        done.push(false);
        rank.push(0);
        k = k + 1;
    }
    proof {
        lemma_count_all(done@);
    }
    let mut remaining: usize = n;
    let mut round: usize = 0;
    while remaining > 0
        invariant
            n == cow_data@.len(),
            topo == data_topology(cow_data@),
            in_range(topo),
            done@.len() == n,
            rank@.len() == n,
            remaining == count_undone(done@),
            round + remaining <= n,
            ranks_so_far(topo, done@, rank@, round as int),
        decreases remaining,
    {
        let ready = ready_actors(cow_data, &done);
        if ready.len() == 0 {
            proof {
                lemma_count_some(done@);
                if exists|rk: Seq<nat>| ranked(topo, rk) {
                    let rk = choose|rk: Seq<nat>| ranked(topo, rk);
                    let m = lemma_least_undone(done@, rk, n as int);
                    assert(!ready@.contains(m as usize));
                    assert(!is_ready(topo, done@, m));
                    let y = choose|y: int| 0 <= y < topo[m].len() && !done@[topo[m][y] as int];
                    assert(topo[m][y] < topo.len());
                    assert(rk[topo[m][y] as int] < rk[m]);
                }
            }
            return None;
        }
        finish_round(&mut done, &mut rank, &ready, round, Ghost(topo));
        remaining = remaining - ready.len();
        round = round + 1;
    }
    proof {
        lemma_count_bound(done@);
        let rk = rank@.map_values(|x: usize| x as nat);
        assert forall|a: int, b: int| 0 <= a < topo.len() && 0 <= b < topo[a].len() implies (#[trigger] topo[a][b]) < topo.len()
            && rk[topo[a][b] as int] < rk[a] by {
            assert(done@[a]);
        }
    }
    Some(rank)
}

proof fn lemma_count_some(s: Seq<bool>)
    requires
        count_undone(s) > 0,
    ensures
        exists|i: int| 0 <= i < s.len() && !s[i],
    decreases s.len(),
{
    if s.last() {
        lemma_count_some(s.drop_last());
        let i = choose|i: int| 0 <= i < s.len() - 1 && !s.drop_last()[i];
        assert(!s[i]);
    } else {
        assert(!s[s.len() - 1]);
    }
}

proof fn lemma_count_all(s: Seq<bool>)
    requires
        forall|m: int| 0 <= m < s.len() ==> !#[trigger] s[m],
    ensures
        count_undone(s) == s.len(),
    decreases s.len(),
{
    if s.len() > 0 {
        assert forall|m: int| 0 <= m < s.len() - 1 implies !#[trigger] s.drop_last()[m] by {
            assert(s.drop_last()[m] == s[m]);
        }
        lemma_count_all(s.drop_last());
    }
}

} // verus!
