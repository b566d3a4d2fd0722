//! The solutions: the inputs that made the target fail.

use vstd::prelude::*;
use crate::execution::Outcome;
use crate::feedback::is_failure;
use crate::input::Input;

verus! {

/// The model of a solution: the bytes of the input, and how its run ended.
pub ghost struct SolutionModel {
    pub input: Seq<u8>,
    pub classification: Outcome,
}

/// An input that made the target fail, with the failure that qualified it.
#[derive(Debug)]
pub struct SolutionEntry {
    input: Input,
    classification: Outcome,
}

impl View for SolutionEntry {
    type V = SolutionModel;

    closed spec fn view(&self) -> SolutionModel {
        SolutionModel { input: self.input@, classification: self.classification }
    }
}

/// What is written to stable storage for an input: its bytes, as they are.
pub open spec fn persisted(input: Seq<u8>) -> Seq<u8> {
    input
}

/// The input that a stored file's content stands for.
pub open spec fn reloaded(content: Seq<u8>) -> Seq<u8> {
    content
}

/// Storing an input and loading it again gives the same bytes.
pub proof fn persistence_round_trips(input: Seq<u8>)
    ensures
        reloaded(persisted(input)) == input,
{
}

/// The input whose stored form is `content`.
pub fn reload(content: Vec<u8>) -> (input: Input)
    ensures
        input@ == reloaded(content@),
{
    Input::new(content)
}

impl SolutionEntry {
    /// The input that failed.
    pub fn input(&self) -> (input: &Input)
        ensures
            input@ == self@.input,
    {
        &self.input
    }

    /// How the run on the input ended.
    pub fn classification(&self) -> (outcome: Outcome)
        ensures
            outcome == self@.classification,
    {
        self.classification
    }

    /// The bytes to write to stable storage for this solution.
    pub fn file_content(&self) -> (content: Vec<u8>)
        ensures
            content@ == persisted(self@.input),
    {
        self.input.to_vec()
    }
}

/// Every solution in `entries` is there for a failure.
pub open spec fn all_failures(entries: Seq<SolutionModel>) -> bool {
    forall|i: int| 0 <= i < entries.len() ==> is_failure((#[trigger] entries[i]).classification)
}

/// The store of solutions, in the order in which they were found.
///
/// The model is the sequence of the solutions. A solution is never changed or
/// removed, and each one is there for a failure.
#[derive(Debug)]
pub struct Solutions {
    entries: Vec<SolutionEntry>,
}

impl View for Solutions {
    type V = Seq<SolutionModel>;

    closed spec fn view(&self) -> Seq<SolutionModel> {
        Seq::new(self.entries@.len(), |i: int| self.entries@[i]@)
    }
}

impl Solutions {
    /// The invariant of the store: every entry is there for a failure.
    pub open spec fn wf(&self) -> bool {
        all_failures(self@)
    }

    /// The store without solutions.
    pub fn new() -> (solutions: Solutions)
        ensures
            solutions.wf(),
            solutions@ == Seq::<SolutionModel>::empty(),
    {
        let solutions = Solutions { entries: Vec::new() };
        assert(solutions@ =~= Seq::<SolutionModel>::empty());
        solutions
    }

    /// The number of solutions.
    pub fn len(&self) -> (n: usize)
        ensures
            n == self@.len(),
    {
        self.entries.len()
    }

    /// Appends `input` with the failure that qualified it, and returns its
    /// position. What was stored before stays as it is.
    pub fn add(&mut self, input: Input, classification: Outcome) -> (position: usize)
        requires
            old(self).wf(),
            is_failure(classification),
        ensures
            final(self).wf(),
            position == old(self)@.len(),
            final(self)@ == old(self)@.push(SolutionModel { input: input@, classification }),
    {
        let position: usize = self.entries.len();
        self.entries.push(SolutionEntry { input, classification });
        assert(self@ =~= old(self)@.push(SolutionModel { input: input@, classification }));
        position
    }

    /// The solution at `position`, if there is one.
    pub fn get(&self, position: usize) -> (found: Option<&SolutionEntry>)
        ensures
            position < self@.len() ==> found is Some && found->Some_0@ == self@[position as int],
            position >= self@.len() ==> found is None,
    {
        if position < self.entries.len() {
            Some(&self.entries[position])
        } else {
            None
        }
    }
}

} // verus!
