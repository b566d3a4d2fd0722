//! The two gates that every result passes: is it new, and is it a failure.

use vstd::prelude::*;
use crate::coverage::blank;
use crate::execution::{ExecutionResult, Outcome};

verus! {

/// The larger of what was seen so far in a cell and what a run left there.
pub open spec fn merge_cell(seen: u8, observed: u8) -> u8 {
    if observed > seen {
        observed
    } else {
        seen
    }
}

/// The best-seen map after a run: cell by cell the maximum of `cumulative` and
/// `observed`. Cells that `observed` lacks stay.
pub open spec fn merged(cumulative: Seq<u8>, observed: Seq<u8>) -> Seq<u8> {
    Seq::new(
        cumulative.len(),
        |i: int|
            if i < observed.len() {
                merge_cell(cumulative[i], observed[i])
            } else {
                cumulative[i]
            },
    )
}

/// Cell `i` exists in both maps and the run raised it above the best seen.
pub open spec fn cell_is_new(cumulative: Seq<u8>, observed: Seq<u8>, i: int) -> bool {
    0 <= i < cumulative.len() && i < observed.len() && observed[i] > cumulative[i]
}

/// The run raised at least one cell.
pub open spec fn is_novel(cumulative: Seq<u8>, observed: Seq<u8>) -> bool {
    exists|i: int| cell_is_new(cumulative, observed, i)
}

/// The cells below `upto` that the run raised, in rising order.
pub open spec fn new_cells(cumulative: Seq<u8>, observed: Seq<u8>, upto: int) -> Seq<usize>
    decreases upto,
{
    if upto <= 0 {
        Seq::empty()
    } else {
        let before = new_cells(cumulative, observed, upto - 1);
        if cell_is_new(cumulative, observed, upto - 1) {
            before.push((upto - 1) as usize)
        } else {
            before
        }
    }
}

/// The novelty fingerprint of a run: the cells that it was the first to raise.
pub open spec fn fingerprint(cumulative: Seq<u8>, observed: Seq<u8>) -> Seq<usize> {
    new_cells(cumulative, observed, cumulative.len() as int)
}

/// `later` has the length of `earlier` and no cell of it is smaller.
pub open spec fn dominates(later: Seq<u8>, earlier: Seq<u8>) -> bool {
    later.len() == earlier.len() && forall|i: int|
        0 <= i < earlier.len() ==> later[i] >= earlier[i]
}

/// The best-seen map after the runs `runs`, absorbed in order.
pub open spec fn absorb_all(cumulative: Seq<u8>, runs: Seq<Seq<u8>>) -> Seq<u8>
    decreases runs.len(),
{
    if runs.len() == 0 {
        cumulative
    } else {
        merged(absorb_all(cumulative, runs.drop_last()), runs.last())
    }
}

/// A run is novel exactly when merging it changes the best-seen map.
pub proof fn novel_iff_merge_changes(cumulative: Seq<u8>, observed: Seq<u8>)
    ensures
        is_novel(cumulative, observed) <==> merged(cumulative, observed) != cumulative,
{
    let m = merged(cumulative, observed);
    if is_novel(cumulative, observed) {
        let i = choose|i: int| cell_is_new(cumulative, observed, i);
        assert(m[i] != cumulative[i]);
    } else {
        assert forall|i: int| 0 <= i < cumulative.len() implies m[i] == cumulative[i] by {
            assert(!cell_is_new(cumulative, observed, i));
        }
        assert(m =~= cumulative);
    }
}

/// Merging a run never lowers a cell.
pub proof fn merge_is_monotone(cumulative: Seq<u8>, observed: Seq<u8>)
    ensures
        dominates(merged(cumulative, observed), cumulative),
{
}

/// Over any sequence of runs no cell of the best-seen map ever decreases.
pub proof fn session_is_monotone(cumulative: Seq<u8>, runs: Seq<Seq<u8>>)
    ensures
        dominates(absorb_all(cumulative, runs), cumulative),
    decreases runs.len(),
{
    if runs.len() > 0 {
        session_is_monotone(cumulative, runs.drop_last());
        merge_is_monotone(absorb_all(cumulative, runs.drop_last()), runs.last());
    }
}

/// Once a run was absorbed, the same coverage is never novel again, whatever
/// other runs were absorbed in between.
pub proof fn rerun_is_not_novel(cumulative: Seq<u8>, observed: Seq<u8>, between: Seq<Seq<u8>>)
    ensures
        !is_novel(absorb_all(merged(cumulative, observed), between), observed),
{
    let after = merged(cumulative, observed);
    let now = absorb_all(after, between);
    session_is_monotone(after, between);
    assert forall|i: int| !cell_is_new(now, observed, i) by {
        if 0 <= i < now.len() && i < observed.len() {
            assert(after[i] >= observed[i]);
            assert(now[i] >= after[i]);
        }
    }
}

/// A run that raises no cell above what an absorbed run left is not novel
/// after it: coverage that stays within what was seen never triggers again.
pub proof fn covered_run_is_not_novel(cumulative: Seq<u8>, observed: Seq<u8>, again: Seq<u8>)
    requires
        forall|i: int| 0 <= i < again.len() && i < observed.len() ==> again[i] <= observed[i],
        again.len() <= observed.len(),
    ensures
        !is_novel(merged(cumulative, observed), again),
{
    let after = merged(cumulative, observed);
    assert forall|i: int| !cell_is_new(after, again, i) by {
        if 0 <= i < after.len() && i < again.len() {
            assert(after[i] >= observed[i]);
        }
    }
}

/// The fingerprint lists exactly the raised cells, each once, in rising order,
/// and is empty exactly when the run is not novel.
pub proof fn fingerprint_lists_new_cells(cumulative: Seq<u8>, observed: Seq<u8>)
    requires
        cumulative.len() <= usize::MAX,
    ensures
        forall|k: int|
            0 <= k < fingerprint(cumulative, observed).len() ==> cell_is_new(
                cumulative,
                observed,
                #[trigger] fingerprint(cumulative, observed)[k] as int,
            ),
        forall|i: int| #[trigger]
            cell_is_new(cumulative, observed, i) ==> fingerprint(cumulative, observed).contains(
                i as usize,
            ),
        forall|a: int, b: int|
            0 <= a < b < fingerprint(cumulative, observed).len() ==> fingerprint(
                cumulative,
                observed,
            )[a] < fingerprint(cumulative, observed)[b],
        is_novel(cumulative, observed) <==> fingerprint(cumulative, observed).len() > 0,
{
    let n = cumulative.len() as int;
    new_cells_lists(cumulative, observed, n);
    let f = fingerprint(cumulative, observed);
    if is_novel(cumulative, observed) {
        let i = choose|i: int| cell_is_new(cumulative, observed, i);
        assert(f.contains(i as usize));
    }
    if f.len() > 0 {
        assert(cell_is_new(cumulative, observed, f[0] as int));
    }
}

proof fn new_cells_lists(cumulative: Seq<u8>, observed: Seq<u8>, upto: int)
    requires
        0 <= upto <= cumulative.len() <= usize::MAX,
    ensures
        forall|k: int|
            0 <= k < new_cells(cumulative, observed, upto).len() ==> {
                &&& (#[trigger] new_cells(cumulative, observed, upto)[k]) < upto
                &&& cell_is_new(cumulative, observed, new_cells(cumulative, observed, upto)[k] as int)
            },
        forall|i: int|
            i < upto && #[trigger] cell_is_new(cumulative, observed, i) ==> new_cells(
                cumulative,
                observed,
                upto,
            ).contains(i as usize),
        forall|a: int, b: int|
            0 <= a < b < new_cells(cumulative, observed, upto).len() ==> new_cells(
                cumulative,
                observed,
                upto,
            )[a] < new_cells(cumulative, observed, upto)[b],
    decreases upto,
{
    if upto > 0 {
        new_cells_lists(cumulative, observed, upto - 1);
        let before = new_cells(cumulative, observed, upto - 1);
        let now = new_cells(cumulative, observed, upto);
        let last = (upto - 1) as usize;
        if cell_is_new(cumulative, observed, upto - 1) {
            assert(now == before.push(last));
            assert forall|i: int| i < upto && #[trigger] cell_is_new(
                cumulative,
                observed,
                i,
            ) implies now.contains(i as usize) by {
                if i == upto - 1 {
                    assert(now[before.len() as int] == last);
                } else {
                    assert(before.contains(i as usize));
                    let k = choose|k: int| 0 <= k < before.len() && before[k] == i as usize;
                    assert(now[k] == i as usize);
                }
            }
        } else {
            assert(now == before);
        }
    }
}

/// The feedback engine: the best-seen map of a session.
///
/// The model is that map. It starts blank and only ever grows, cell by cell.
#[derive(Debug)]
pub struct Feedback {
    cumulative: Vec<u8>,
}

impl View for Feedback {
    type V = Seq<u8>;

    closed spec fn view(&self) -> Seq<u8> {
        self.cumulative@
    }
}

impl Feedback {
    /// A feedback engine that has seen nothing, for maps of `size` cells.
    pub fn new(size: usize) -> (feedback: Feedback)
        ensures
            feedback@ == blank(size as nat),
    {
        let map = crate::coverage::CoverageMap::new(size);
        Feedback { cumulative: map.snapshot() }
    }

    /// The number of cells.
    pub fn len(&self) -> (n: usize)
        ensures
            n == self@.len(),
    {
        self.cumulative.len()
    }

    /// The best-seen map.
    pub fn cumulative(&self) -> (map: &Vec<u8>)
        ensures
            map@ == self@,
    {
        &self.cumulative
    }

    /// The cells that `result` would raise, in rising order: its fingerprint
    /// against the best-seen map as it is now.
    pub fn novel_cells(&self, result: &ExecutionResult) -> (cells: Vec<usize>)
        ensures
            cells@ == fingerprint(self@, result.map@),
    {
        let n: usize = self.cumulative.len();
        let mut cells: Vec<usize> = Vec::new();
        let mut i: usize = 0;
        while i < n
            invariant
                i <= n,
                n == self.cumulative@.len(),
                cells@ == new_cells(self.cumulative@, result.map@, i as int),
            decreases n - i,
        {
            if i < result.map.len() && result.map[i] > self.cumulative[i] {
                cells.push(i);
            }
            i += 1;
        }
        cells
    }

    /// Says whether `result` raised any cell, and merges it into the best-seen
    /// map. A single raised cell makes the run novel.
    pub fn is_interesting(&mut self, result: &ExecutionResult) -> (novel: bool)
        ensures
            novel == is_novel(old(self)@, result.map@),
            final(self)@ == merged(old(self)@, result.map@),
            dominates(final(self)@, old(self)@),
    {
        let n: usize = self.cumulative.len();
        let mut novel = false;
        let mut i: usize = 0;
        while i < n
            invariant
                i <= n,
                n == self.cumulative@.len(),
                n == old(self).cumulative@.len(),
                forall|j: int|
                    0 <= j < i ==> self.cumulative@[j] == merged(
                        old(self).cumulative@,
                        result.map@,
                    )[j],
                forall|j: int| i <= j < n ==> self.cumulative@[j] == old(self).cumulative@[j],
                novel == exists|j: int|
                    j < i && cell_is_new(old(self).cumulative@, result.map@, j),
            decreases n - i,
        {
            if i < result.map.len() && result.map[i] > self.cumulative[i] {
                self.cumulative.set(i, result.map[i]);
                novel = true;
                assert(cell_is_new(old(self).cumulative@, result.map@, i as int));
            }
            i += 1;
        }
        assert(self.cumulative@ =~= merged(old(self).cumulative@, result.map@));
        novel
    }
}

/// What the objective looks for: a run that crashed.
pub open spec fn is_failure(outcome: Outcome) -> bool {
    outcome == Outcome::Crashed
}

/// The objective engine: decides by the outcome alone whether a run is a
/// solution. Coverage plays no part in it.
#[derive(Debug)]
pub struct Objective {}

impl Objective {
    /// The objective that looks for crashes.
    pub fn new() -> (objective: Objective) {
        Objective {  }
    }

    /// Whether `result` is a solution: its run crashed.
    pub fn is_objective(&self, result: &ExecutionResult) -> (hit: bool)
        ensures
            hit == is_failure(result.outcome),
    {
        match result.outcome {
            Outcome::Crashed => true,
            _ => false,
        }
    }
}

} // verus!
