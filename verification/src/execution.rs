//! Running the target once: outcomes, targets and the executor.

use vstd::prelude::*;
use crate::coverage::{blank, CoverageMap, Observer};
use crate::input::Input;

verus! {

/// How one run of the target ended.
#[derive(Clone, Copy, Debug, PartialEq, Eq, Structural)]
pub enum Outcome {
    /// The target returned.
    Completed,
    /// The target ended abnormally.
    Crashed,
    /// The target ran longer than it may.
    TimedOut,
}

/// What one run leaves behind: how it ended and the coverage map after it.
#[derive(Debug)]
pub struct ExecutionResult {
    pub outcome: Outcome,
    pub map: Vec<u8>,
}

/// The program under test.
///
/// A target is a function of the input and of the map it is handed: `outcome`
/// and `coverage` say what one run does, and `execute` does it. A run that
/// ends abnormally still returns: it reports `Crashed` or `TimedOut`, and the
/// map holds what was written until then.
pub trait Target {
    /// How a run on `input` ends.
    spec fn outcome(&self, input: Seq<u8>) -> Outcome;

    /// The map after a run on `input` that started on the map `before`.
    spec fn coverage(&self, input: Seq<u8>, before: Seq<u8>) -> Seq<u8>;

    /// Runs the target once on `input`, writing into `map`.
    fn execute(&self, input: &Input, map: &mut CoverageMap) -> (outcome: Outcome)
        ensures
            outcome == self.outcome(input@),
            final(map)@ == self.coverage(input@, old(map)@),
            final(map)@.len() == old(map)@.len(),
    ;
}

/// What a run of `target` on `input` yields when it starts on a blank map of
/// `size` cells.
pub open spec fn run_of<T: Target>(target: &T, input: Seq<u8>, size: nat) -> (Outcome, Seq<u8>) {
    (target.outcome(input), target.coverage(input, blank(size)))
}

/// Runs a target under an observer.
#[derive(Debug)]
pub struct Executor<T: Target> {
    target: T,
    observer: Observer,
}

impl<T: Target> Executor<T> {
    /// An executor for `target` with a blank map of `map_size` cells.
    pub fn new(target: T, map_size: usize) -> (executor: Executor<T>)
        ensures
            executor.target() == target,
            executor.map_size() == map_size,
            executor.last_map() == blank(map_size as nat),
    {
        Executor { target, observer: Observer::new(map_size) }
    }

    /// The target that the executor runs.
    pub closed spec fn target(&self) -> T {
        self.target
    }

    /// The number of cells of the coverage map.
    pub closed spec fn map_size(&self) -> nat {
        self.observer@.len()
    }

    /// The content of the coverage map as the last run left it.
    pub closed spec fn last_map(&self) -> Seq<u8> {
        self.observer@
    }

    /// The number of cells of the coverage map.
    pub fn size(&self) -> (n: usize)
        ensures
            n == self.map_size(),
    {
        self.observer.len()
    }

    /// The target, to read.
    pub fn target_ref(&self) -> (target: &T)
        ensures
            *target == self.target(),
    {
        &self.target
    }

    /// Runs the target once on `input`: clears the map, lets the target run,
    /// and reads the map. However the run ends, the executor is ready for the
    /// next one: the target and the size of the map are as before.
    pub fn run(&mut self, input: &Input) -> (result: ExecutionResult)
        ensures
            (result.outcome, result.map@) == run_of(
                &old(self).target(),
                input@,
                old(self).map_size(),
            ),
            result.map@.len() == old(self).map_size(),
            final(self).target() == old(self).target(),
            final(self).map_size() == old(self).map_size(),
            final(self).last_map() == result.map@,
    {
        self.observer.reset();
        let outcome = self.target.execute(input, self.observer.map_mut());
        let map = self.observer.snapshot();
        ExecutionResult { outcome, map }
    }
}

} // verus!
