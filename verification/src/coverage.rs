//! The coverage map that the target writes, and the observer that owns it.

use vstd::prelude::*;

verus! {

/// The map of `size` cells in which nothing was hit.
pub open spec fn blank(size: nat) -> Seq<u8> {
    Seq::new(size, |i: int| 0u8)
}

/// A fixed number of hit counters, one per instrumented place of the target.
///
/// The model is the sequence of the counters. No operation changes its length.
#[derive(Debug)]
pub struct CoverageMap {
    cells: Vec<u8>,
}

impl View for CoverageMap {
    type V = Seq<u8>;

    closed spec fn view(&self) -> Seq<u8> {
        self.cells@
    }
}

impl CoverageMap {
    /// A blank map of `size` cells.
    pub fn new(size: usize) -> (map: CoverageMap)
        ensures
            map@ == blank(size as nat),
    {
        let mut cells: Vec<u8> = Vec::new();
        let mut i: usize = 0;
        while i < size
            invariant
                i <= size,
                cells@ == blank(i as nat),
            decreases size - i,
        {
            cells.push(0u8);
            i += 1;
            assert(cells@ =~= blank(i as nat));
        }
        CoverageMap { cells }
    }

    /// The number of cells.
    pub fn len(&self) -> (n: usize)
        ensures
            n == self@.len(),
    {
        self.cells.len()
    }

    /// The counter of cell `idx`.
    pub fn get(&self, idx: usize) -> (value: u8)
        requires
            idx < self@.len(),
        ensures
            value == self@[idx as int],
    {
        self.cells[idx]
    }

    /// Stores `value` in cell `idx` and leaves the other cells as they are.
    pub fn write(&mut self, idx: usize, value: u8)
        requires
            idx < old(self)@.len(),
        ensures
            final(self)@ == old(self)@.update(idx as int, value),
    {
        self.cells.set(idx, value);
    }

    /// Marks cell `idx` as hit: the cell becomes 1.
    pub fn set(&mut self, idx: usize)
        requires
            idx < old(self)@.len(),
        ensures
            final(self)@ == old(self)@.update(idx as int, 1u8),
    {
        self.write(idx, 1u8);
    }

    /// Marks cell `idx` as hit if the map has such a cell, and says whether it has.
    pub fn try_set(&mut self, idx: usize) -> (done: bool)
        ensures
            done == (idx < old(self)@.len()),
            done ==> final(self)@ == old(self)@.update(idx as int, 1u8),
            !done ==> final(self)@ == old(self)@,
    {
        if idx < self.cells.len() {
            self.write(idx, 1u8);
            true
        } else {
            false
        }
    }

    /// Clears every cell; the length stays.
    pub fn reset(&mut self)
        ensures
            final(self)@ == blank(old(self)@.len()),
    {
        let n: usize = self.cells.len();
        let mut i: usize = 0;
        while i < n
            invariant
                i <= n,
                self.cells@.len() == n,
                forall|j: int| 0 <= j < i ==> self.cells@[j] == 0u8,
            decreases n - i,
        {
            self.cells.set(i, 0u8);
            i += 1;
        }
        assert(self.cells@ =~= blank(n as nat));
    }

    /// A copy of the cells as they are now.
    pub fn snapshot(&self) -> (cells: Vec<u8>)
        ensures
            cells@ == self@,
    {
        crate::input::copy_bytes(&self.cells)
    }
}

/// Owns the coverage map of a session: clears it before a run and reads it
/// after the run.
///
/// The model is the content of the map.
#[derive(Debug)]
pub struct Observer {
    map: CoverageMap,
}

impl View for Observer {
    type V = Seq<u8>;

    closed spec fn view(&self) -> Seq<u8> {
        self.map@
    }
}

impl Observer {
    /// An observer over a blank map of `size` cells.
    pub fn new(size: usize) -> (observer: Observer)
        ensures
            observer@ == blank(size as nat),
    {
        Observer { map: CoverageMap::new(size) }
    }

    /// The number of cells of the map; it never changes.
    pub fn len(&self) -> (n: usize)
        ensures
            n == self@.len(),
    {
        self.map.len()
    }

    /// Clears the map for the next run.
    pub fn reset(&mut self)
        ensures
            final(self)@ == blank(old(self)@.len()),
    {
        self.map.reset();
    }

    /// The content of the map, copied. Whatever a run wrote before it ended,
    /// normally or not, is in it.
    pub fn snapshot(&self) -> (cells: Vec<u8>)
        ensures
            cells@ == self@,
    {
        self.map.snapshot()
    }

    /// The map itself, for the target to write into.
    pub fn map_mut(&mut self) -> (map: &mut CoverageMap)
        ensures
            map@ == old(self)@,
            final(self)@ == final(map)@,
    {
        &mut self.map
    }
}

} // verus!
