//! The fuzzer: configuration, the phases of a session, and the loop that
//! schedules a seed, mutates it and routes every result through both gates.

use vstd::prelude::*;
use crate::corpus::{
    counted_once_more,
    extends,
    fresh_entry,
    inputs_of,
    Corpus,
    EntryId,
    EntryModel,
};
use crate::coverage::blank;
use crate::execution::{run_of, ExecutionResult, Executor, Outcome, Target};
use crate::feedback::{
    dominates,
    fingerprint,
    is_failure,
    is_novel,
    merged,
    Feedback,
    Objective,
};
use crate::input::Input;
use crate::mutator::{
    next_generated,
    next_mutant,
    seeded_source,
    source_after_generation,
    source_after_mutation,
    Generator,
    Mutator,
    RandomSource,
    SourceState,
};
use crate::scheduler::{QueueModel, QueueScheduler};
use crate::solutions::{SolutionModel, Solutions};

verus! {

/// The options of a session, read once when the fuzzer is made.
#[derive(Clone, Copy, Debug)]
pub struct Config {
    /// The number of cells of the coverage map.
    pub map_size: usize,
    /// How many inputs the generator makes to seed the corpus.
    pub initial_inputs: usize,
    /// The bound on the length of a generated input.
    pub max_input_len: usize,
    /// How many mutants of a seed one stage runs.
    pub mutations_per_seed: usize,
    /// The seed of the random source.
    pub random_seed: u64,
    /// Whether a seeding input is kept even if it reaches nothing new.
    pub force_seeds: bool,
}

/// What is wrong with a configuration.
#[derive(Clone, Copy, Debug, PartialEq, Eq, Structural)]
pub enum ConfigError {
    /// The coverage map would have no cell.
    InvalidMapSize,
    /// A stage would run no mutant.
    ZeroMutationBudget,
}

impl Config {
    /// The map has a cell and a stage runs at least one mutant.
    pub open spec fn valid(self) -> bool {
        self.map_size > 0 && self.mutations_per_seed > 0
    }

    /// Checks the configuration: the size of the map first, then the budget.
    pub fn validate(&self) -> (checked: Result<(), ConfigError>)
        ensures
            self.map_size == 0 ==> checked == Err::<(), ConfigError>(ConfigError::InvalidMapSize),
            self.map_size > 0 && self.mutations_per_seed == 0 ==> checked == Err::<
                (),
                ConfigError,
            >(ConfigError::ZeroMutationBudget),
            self.valid() ==> checked is Ok,
    {
        if self.map_size == 0 {
            Err(ConfigError::InvalidMapSize)
        } else if self.mutations_per_seed == 0 {
            Err(ConfigError::ZeroMutationBudget)
        } else {
            Ok(())
        }
    }
}

/// Why an operation of the fuzzer did not do its work.
#[derive(Clone, Copy, Debug, PartialEq, Eq, Structural)]
pub enum EngineError {
    /// Seeding left the corpus empty: there is nothing to mutate.
    EmptyCorpus,
    /// A solution could not be written to stable storage.
    Storage,
    /// The mutator reported an error.
    Mutation,
    /// The generator of first inputs reported an error.
    Generation,
    /// The corpus has no entry with the identifier that was given.
    NotFound,
    /// The operation does not belong to the phase the fuzzer is in.
    WrongPhase,
}

/// Why a session ended.
#[derive(Clone, Copy, Debug, PartialEq, Eq, Structural)]
pub enum StopReason {
    /// A stop was asked for.
    Requested,
    /// The loop ran as many iterations as it was given.
    BudgetExhausted,
    /// An error that the session cannot recover from.
    Failed(EngineError),
}

/// Where a session stands.
#[derive(Clone, Copy, Debug, PartialEq, Eq, Structural)]
pub enum Phase {
    /// The fuzzer was made; nothing ran yet.
    Initializing,
    /// First inputs are run to fill the corpus.
    Seeding,
    /// The main loop: schedule, mutate, run, decide.
    Running,
    /// The session is over.
    Stopped(StopReason),
}

/// The numbers that a report carries.
#[derive(Clone, Copy, Debug, PartialEq, Eq)]
pub struct Stats {
    /// How often the target was run; the count stops at the largest number
    /// that fits.
    pub executions: u64,
    /// The number of entries of the corpus.
    pub corpus_size: usize,
    /// The number of solutions.
    pub solutions: usize,
}

/// What became of one result.
#[derive(Clone, Copy, Debug, PartialEq, Eq)]
pub struct Verdict {
    /// The run raised a cell of the best-seen map.
    pub novel: bool,
    /// The run is a solution.
    pub objective: bool,
    /// The identifier under which the input entered the corpus, if it did.
    pub entry: Option<EntryId>,
    /// The position at which the input entered the solutions, if it did.
    pub solution: Option<usize>,
}

/// What one mutational stage did.
#[derive(Clone, Copy, Debug, PartialEq, Eq)]
pub struct StageReport {
    /// The number of mutants that were run.
    pub attempts: usize,
    /// The number of entries that the corpus gained.
    pub new_entries: usize,
    /// The number of solutions that were found.
    pub new_solutions: usize,
}

/// What one iteration of the loop did.
#[derive(Clone, Copy, Debug, PartialEq, Eq)]
pub struct StepReport {
    /// The seed that was scheduled.
    pub seed: EntryId,
    /// What the stage on that seed did.
    pub stage: StageReport,
    /// The numbers after the iteration.
    pub stats: Stats,
}

/// How a run of the loop ended.
#[derive(Clone, Copy, Debug, PartialEq, Eq)]
pub struct LoopReport {
    /// Why the loop ended.
    pub stop: StopReason,
    /// The numbers when it ended.
    pub stats: Stats,
}

/// The model of a session: everything that the fuzzer's operations change.
pub ghost struct EngineModel {
    /// Where the session stands.
    pub phase: Phase,
    /// The best-seen coverage map.
    pub cumulative: Seq<u8>,
    /// The corpus.
    pub corpus: Seq<EntryModel>,
    /// The solutions.
    pub solutions: Seq<SolutionModel>,
    /// The scheduler.
    pub queue: QueueModel,
    /// The state of the random source.
    pub source: SourceState,
    /// How often the target was run.
    pub executions: u64,
}

/// The entries of the scheduler are those of the corpus, in their order.
pub open spec fn queue_follows_corpus(queue: QueueModel, corpus: Seq<EntryModel>) -> bool {
    &&& queue.queue.len() == corpus.len()
    &&& forall|i: int| 0 <= i < corpus.len() ==> #[trigger] queue.queue[i] == EntryId(i as usize)
}

/// Whether a result makes its input an entry of the corpus: it is novel, or
/// admission is forced.
pub open spec fn is_kept(model: EngineModel, observed: Seq<u8>, forced: bool) -> bool {
    forced || is_novel(model.cumulative, observed)
}

/// The session after the result of a run on `input` passed both gates.
///
/// The run is counted. The best-seen map absorbs the observed map. The
/// input enters the corpus, with its fingerprint, if the run is novel or
/// admission is forced, and the scheduler is told of it. Apart from that,
/// the input enters the solutions if the run failed.
pub open spec fn admitted(
    model: EngineModel,
    input: Seq<u8>,
    outcome: Outcome,
    observed: Seq<u8>,
    forced: bool,
) -> EngineModel {
    EngineModel {
        cumulative: merged(model.cumulative, observed),
        corpus: if is_kept(model, observed, forced) {
            model.corpus.push(
                fresh_entry(model.corpus.len(), input, fingerprint(model.cumulative, observed)),
            )
        } else {
            model.corpus
        },
        queue: if is_kept(model, observed, forced) {
            model.queue.told(EntryId(model.corpus.len() as usize))
        } else {
            model.queue
        },
        solutions: if is_failure(outcome) {
            model.solutions.push(SolutionModel { input, classification: outcome })
        } else {
            model.solutions
        },
        executions: counted_once_more(model.executions),
        ..model
    }
}

/// The verdict on a result, for a session that stands at `model`.
pub open spec fn verdict_of(
    model: EngineModel,
    outcome: Outcome,
    observed: Seq<u8>,
    forced: bool,
) -> Verdict {
    Verdict {
        novel: is_novel(model.cumulative, observed),
        objective: is_failure(outcome),
        entry: if is_kept(model, observed, forced) {
            Some(EntryId(model.corpus.len() as usize))
        } else {
            None
        },
        solution: if is_failure(outcome) {
            Some(model.solutions.len() as usize)
        } else {
            None
        },
    }
}

/// The session after `input` was run on `target` and its result passed both
/// gates.
pub open spec fn evaluated<T: Target>(
    model: EngineModel,
    target: T,
    map_size: nat,
    input: Seq<u8>,
    forced: bool,
) -> EngineModel {
    let run = run_of(&target, input, map_size);
    admitted(model, input, run.0, run.1, forced)
}

/// The verdict on a run of `target` on `input`.
pub open spec fn verdict_on<T: Target>(
    model: EngineModel,
    target: T,
    map_size: nat,
    input: Seq<u8>,
    forced: bool,
) -> Verdict {
    let run = run_of(&target, input, map_size);
    verdict_of(model, run.0, run.1, forced)
}

/// The session after an error that it cannot recover from.
pub open spec fn failed(model: EngineModel, error: EngineError) -> EngineModel {
    EngineModel { phase: Phase::Stopped(StopReason::Failed(error)), ..model }
}

/// The session after one mutant of `seed` was drawn, with the corpus as it
/// then is for splicing. Where the mutator fails the session ends.
pub open spec fn drawn(model: EngineModel, seed: Seq<u8>) -> EngineModel {
    let pool = inputs_of(model.corpus);
    let after = EngineModel { source: source_after_mutation(model.source, seed, pool), ..model };
    if next_mutant(model.source, seed, pool) is Some {
        after
    } else {
        failed(after, EngineError::Mutation)
    }
}

/// The session after one attempt of a stage on the seed `seed`: one mutant
/// is drawn, run, and passed through both gates.
pub open spec fn attempted<T: Target>(
    model: EngineModel,
    target: T,
    map_size: nat,
    seed: Seq<u8>,
) -> EngineModel {
    match next_mutant(model.source, seed, inputs_of(model.corpus)) {
        Some(bytes) => evaluated(drawn(model, seed), target, map_size, bytes, false),
        None => drawn(model, seed),
    }
}

/// The session after `attempts` attempts of a stage on the seed `seed`. A
/// crash of the target in one attempt is a result like any other and the
/// remaining attempts follow; only a session that ended makes no more.
pub open spec fn performed<T: Target>(
    model: EngineModel,
    target: T,
    map_size: nat,
    seed: Seq<u8>,
    attempts: nat,
) -> EngineModel
    decreases attempts,
{
    if attempts == 0 {
        model
    } else {
        let before = performed(model, target, map_size, seed, (attempts - 1) as nat);
        if before.phase == Phase::Running {
            attempted(before, target, map_size, seed)
        } else {
            before
        }
    }
}

/// The entry that the scheduler picks next.
pub open spec fn selected(model: EngineModel) -> EntryId {
    model.queue.queue[model.queue.upcoming()]
}

/// The session after the scheduler picked its next entry: the scheduler
/// moved on, and the entry counts one more selection.
pub open spec fn scheduled(model: EngineModel) -> EngineModel {
    let at = selected(model).0 as int;
    EngineModel {
        queue: model.queue.advanced(),
        corpus: model.corpus.update(
            at,
            EntryModel {
                times_selected: counted_once_more(model.corpus[at].times_selected),
                ..model.corpus[at]
            },
        ),
        ..model
    }
}

/// The session after one iteration of the loop: the next entry is scheduled
/// and a stage of `budget` attempts runs on its input.
pub open spec fn stepped<T: Target>(
    model: EngineModel,
    target: T,
    map_size: nat,
    budget: nat,
) -> EngineModel {
    performed(
        scheduled(model),
        target,
        map_size,
        model.corpus[selected(model).0 as int].input,
        budget,
    )
}

/// The session after up to `iterations` iterations of the loop: it iterates
/// for as long as the session is running.
pub open spec fn looped<T: Target>(
    model: EngineModel,
    target: T,
    map_size: nat,
    budget: nat,
    iterations: nat,
) -> EngineModel
    decreases iterations,
{
    if iterations == 0 {
        model
    } else {
        let before = looped(model, target, map_size, budget, (iterations - 1) as nat);
        if before.phase == Phase::Running {
            stepped(before, target, map_size, budget)
        } else {
            before
        }
    }
}

/// The session when the loop has used up its iterations: if it still runs,
/// it ends for that reason.
pub open spec fn exhausted(model: EngineModel) -> EngineModel {
    if model.phase == Phase::Running {
        EngineModel { phase: Phase::Stopped(StopReason::BudgetExhausted), ..model }
    } else {
        model
    }
}

/// The session after one generated input was run to seed the corpus. Where
/// the generator fails the session ends.
pub open spec fn seeded_once<T: Target>(
    model: EngineModel,
    target: T,
    map_size: nat,
    max_len: usize,
    forced: bool,
) -> EngineModel {
    let drawn = EngineModel { source: source_after_generation(model.source, max_len), ..model };
    match next_generated(model.source, max_len) {
        Some(bytes) => evaluated(drawn, target, map_size, bytes, forced),
        None => failed(drawn, EngineError::Generation),
    }
}

/// The session after `count` generated inputs were run to seed the corpus.
pub open spec fn seeded<T: Target>(
    model: EngineModel,
    target: T,
    map_size: nat,
    max_len: usize,
    forced: bool,
    count: nat,
) -> EngineModel
    decreases count,
{
    if count == 0 {
        model
    } else {
        let before = seeded(model, target, map_size, max_len, forced, (count - 1) as nat);
        if before.phase == Phase::Seeding {
            seeded_once(before, target, map_size, max_len, forced)
        } else {
            before
        }
    }
}

/// The session when seeding is over: the loop runs if the corpus has an
/// entry; with an empty corpus the session ends, for there is nothing to
/// mutate.
pub open spec fn seeding_closed(model: EngineModel) -> EngineModel {
    if model.phase == Phase::Seeding {
        if model.corpus.len() > 0 {
            EngineModel { phase: Phase::Running, ..model }
        } else {
            failed(model, EngineError::EmptyCorpus)
        }
    } else {
        model
    }
}

/// A stage that has ended the session makes no further attempt.
pub proof fn performed_stays<T: Target>(
    model: EngineModel,
    target: T,
    map_size: nat,
    seed: Seq<u8>,
    done: nat,
    attempts: nat,
)
    requires
        done <= attempts,
        performed(model, target, map_size, seed, done).phase != Phase::Running,
    ensures
        performed(model, target, map_size, seed, attempts) == performed(
            model,
            target,
            map_size,
            seed,
            done,
        ),
    decreases attempts,
{
    if done < attempts {
        performed_stays(model, target, map_size, seed, done, (attempts - 1) as nat);
    }
}

/// A loop whose session has ended iterates no further.
pub proof fn looped_stays<T: Target>(
    model: EngineModel,
    target: T,
    map_size: nat,
    budget: nat,
    done: nat,
    iterations: nat,
)
    requires
        done <= iterations,
        looped(model, target, map_size, budget, done).phase != Phase::Running,
    ensures
        looped(model, target, map_size, budget, iterations) == looped(
            model,
            target,
            map_size,
            budget,
            done,
        ),
    decreases iterations,
{
    if done < iterations {
        looped_stays(model, target, map_size, budget, done, (iterations - 1) as nat);
    }
}

/// Seeding that has ended the session runs no further input.
pub proof fn seeded_stays<T: Target>(
    model: EngineModel,
    target: T,
    map_size: nat,
    max_len: usize,
    forced: bool,
    done: nat,
    count: nat,
)
    requires
        done <= count,
        seeded(model, target, map_size, max_len, forced, done).phase != Phase::Seeding,
    ensures
        seeded(model, target, map_size, max_len, forced, count) == seeded(
            model,
            target,
            map_size,
            max_len,
            forced,
            done,
        ),
    decreases count,
{
    if done < count {
        seeded_stays(model, target, map_size, max_len, forced, done, (count - 1) as nat);
    }
}

/// What a stage reports that took the session from `before` to `after`.
pub open spec fn stage_report(before: EngineModel, after: EngineModel, attempts: usize) -> StageReport {
    StageReport {
        attempts,
        new_entries: (after.corpus.len() - before.corpus.len()) as usize,
        new_solutions: (after.solutions.len() - before.solutions.len()) as usize,
    }
}

/// The numbers of a session.
pub open spec fn stats_of(model: EngineModel) -> Stats {
    Stats {
        executions: model.executions,
        corpus_size: model.corpus.len() as usize,
        solutions: model.solutions.len() as usize,
    }
}

/// `later` continues `earlier`: no cell of the best-seen map is lower, the
/// entries of the corpus are still there with their inputs and fingerprints,
/// the solutions are still there unchanged, and the target was run at least
/// as often.
pub open spec fn continues(later: EngineModel, earlier: EngineModel) -> bool {
    &&& dominates(later.cumulative, earlier.cumulative)
    &&& extends(later.corpus, earlier.corpus)
    &&& earlier.solutions.len() <= later.solutions.len()
    &&& forall|i: int|
        0 <= i < earlier.solutions.len() ==> #[trigger] later.solutions[i] == earlier.solutions[i]
    &&& later.executions >= earlier.executions
}

/// Every solution is there for a failure of `target` on exactly the input
/// that is stored with it.
pub open spec fn truthful<T: Target>(solutions: Seq<SolutionModel>, target: T) -> bool {
    forall|i: int|
        0 <= i < solutions.len() ==> {
            &&& (#[trigger] solutions[i]).classification == target.outcome(solutions[i].input)
            &&& is_failure(solutions[i].classification)
        }
}

/// What continues a continuation of a session continues the session.
pub proof fn continues_is_transitive(last: EngineModel, middle: EngineModel, first: EngineModel)
    requires
        continues(last, middle),
        continues(middle, first),
    ensures
        continues(last, first),
{
    assert forall|i: int| 0 <= i < first.corpus.len() implies {
        &&& (#[trigger] last.corpus[i]).id == first.corpus[i].id
        &&& last.corpus[i].input == first.corpus[i].input
        &&& last.corpus[i].fingerprint == first.corpus[i].fingerprint
    } by {
        assert(middle.corpus[i].id == first.corpus[i].id);
    }
    assert forall|i: int| 0 <= i < first.solutions.len() implies #[trigger] last.solutions[i]
        == first.solutions[i] by {
        assert(middle.solutions[i] == first.solutions[i]);
    }
}

/// Passing a result through the gates continues the session.
pub proof fn judging_continues(
    model: EngineModel,
    input: Seq<u8>,
    outcome: Outcome,
    observed: Seq<u8>,
    forced: bool,
)
    ensures
        continues(admitted(model, input, outcome, observed, forced), model),
{
}

/// Once an input was run, running it again is never novel and never adds
/// it to the corpus, whatever the session did in between.
pub proof fn rerun_is_never_kept<T: Target>(
    model: EngineModel,
    later: EngineModel,
    target: T,
    map_size: nat,
    input: Seq<u8>,
    forced: bool,
)
    requires
        continues(later, evaluated(model, target, map_size, input, forced)),
    ensures
        !verdict_on(later, target, map_size, input, false).novel,
        verdict_on(later, target, map_size, input, false).entry is None,
        evaluated(later, target, map_size, input, false).corpus == later.corpus,
        evaluated(later, target, map_size, input, false).cumulative == later.cumulative,
{
    let observed = run_of(&target, input, map_size).1;
    let absorbed = merged(model.cumulative, observed);
    assert forall|i: int| !crate::feedback::cell_is_new(later.cumulative, observed, i) by {
        if 0 <= i < later.cumulative.len() && i < observed.len() {
            assert(absorbed[i] >= observed[i]);
            assert(later.cumulative[i] >= absorbed[i]);
        }
    }
    crate::feedback::novel_iff_merge_changes(later.cumulative, observed);
}

/// An input that enters the corpus without force raised at least one cell,
/// and its fingerprint lists the cells it raised.
pub proof fn kept_input_was_novel(
    model: EngineModel,
    input: Seq<u8>,
    outcome: Outcome,
    observed: Seq<u8>,
)
    requires
        model.cumulative.len() <= usize::MAX,
        admitted(model, input, outcome, observed, false).corpus.len() > model.corpus.len(),
    ensures
        is_novel(model.cumulative, observed),
        admitted(model, input, outcome, observed, false).corpus.last().input == input,
        admitted(model, input, outcome, observed, false).corpus.last().fingerprint.len() > 0,
        forall|k: int|
            0 <= k < fingerprint(model.cumulative, observed).len()
                ==> crate::feedback::cell_is_new(
                model.cumulative,
                observed,
                #[trigger] fingerprint(model.cumulative, observed)[k] as int,
            ),
{
    crate::feedback::fingerprint_lists_new_cells(model.cumulative, observed);
}

/// A coverage-guided fuzzer for the target `T`.
///
/// The fuzzer owns every part of a session: executor, feedback and objective,
/// corpus and solutions, scheduler, mutator and random source. Its model is
/// an `EngineModel`; the configuration and the target never change.
#[derive(Debug)]
pub struct Fuzzer<T: Target> {
    config: Config,
    phase: Phase,
    executor: Executor<T>,
    feedback: Feedback,
    objective: Objective,
    corpus: Corpus,
    solutions: Solutions,
    scheduler: QueueScheduler,
    mutator: Mutator,
    generator: Generator,
    source: RandomSource,
    executions: u64,
}

impl<T: Target> View for Fuzzer<T> {
    type V = EngineModel;

    closed spec fn view(&self) -> EngineModel {
        EngineModel {
            phase: self.phase,
            cumulative: self.feedback@,
            corpus: self.corpus@,
            solutions: self.solutions@,
            queue: self.scheduler@,
            source: self.source@,
            executions: self.executions,
        }
    }
}

impl<T: Target> Fuzzer<T> {
    /// The configuration that the fuzzer was made with.
    pub closed spec fn config(&self) -> Config {
        self.config
    }

    /// The target that the fuzzer runs.
    pub closed spec fn target(&self) -> T {
        self.executor.target()
    }

    /// The invariant of the fuzzer.
    ///
    /// The configuration is valid; the maps have the configured size; corpus,
    /// solutions and scheduler are well formed; the scheduler knows exactly
    /// the entries of the corpus; and while the loop runs the corpus is not
    /// empty.
    pub closed spec fn wf(&self) -> bool {
        &&& self.config.valid()
        &&& self.executor.map_size() == self.config.map_size
        &&& self.feedback@.len() == self.config.map_size
        &&& self.generator.bound() == self.config.max_input_len
        &&& self.corpus.wf()
        &&& self.solutions.wf()
        &&& self.scheduler@.wf()
        &&& queue_follows_corpus(self.scheduler@, self.corpus@)
        &&& self.phase == Phase::Running ==> self.corpus@.len() > 0
    }

    /// What the invariant says about the model.
    pub proof fn wf_of_model(&self)
        requires
            self.wf(),
        ensures
            self.config().valid(),
            self@.cumulative.len() == self.config().map_size,
            crate::corpus::ids_are_positions(self@.corpus),
            crate::solutions::all_failures(self@.solutions),
            self@.queue.wf(),
            queue_follows_corpus(self@.queue, self@.corpus),
            self@.phase == Phase::Running ==> self@.corpus.len() > 0,
    {
    }

    /// A fuzzer for `target`, or what is wrong with `config`. Nothing has run
    /// yet: the best-seen map is blank, corpus and solutions are empty, and
    /// the random source is the one that the configured seed determines.
    pub fn new(config: Config, target: T) -> (made: Result<Fuzzer<T>, ConfigError>)
        ensures
            config.map_size == 0 ==> made == Err::<Fuzzer<T>, ConfigError>(
                ConfigError::InvalidMapSize,
            ),
            config.map_size > 0 && config.mutations_per_seed == 0 ==> made == Err::<
                Fuzzer<T>,
                ConfigError,
            >(ConfigError::ZeroMutationBudget),
            config.valid() ==> made is Ok && made->Ok_0.wf() && made->Ok_0.config() == config
                && made->Ok_0.target() == target && made->Ok_0@ == (EngineModel {
                phase: Phase::Initializing,
                cumulative: blank(config.map_size as nat),
                corpus: Seq::empty(),
                solutions: Seq::empty(),
                queue: QueueModel { queue: Seq::empty(), last: None },
                source: seeded_source(config.random_seed),
                executions: 0,
            }),
    {
        match config.validate() {
            Err(e) => Err(e),
            Ok(_) => Ok(
                Fuzzer {
                    config,
                    phase: Phase::Initializing,
                    executor: Executor::new(target, config.map_size),
                    feedback: Feedback::new(config.map_size),
                    objective: Objective::new(),
                    corpus: Corpus::new(),
                    solutions: Solutions::new(),
                    scheduler: QueueScheduler::new(),
                    mutator: Mutator::new(),
                    generator: Generator::new(config.max_input_len),
                    source: RandomSource::with_seed(config.random_seed),
                    executions: 0,
                },
            ),
        }
    }

    /// Where the session stands.
    pub fn phase(&self) -> (phase: Phase)
        ensures
            phase == self@.phase,
    {
        self.phase
    }

    /// The corpus, to read.
    pub fn corpus(&self) -> (corpus: &Corpus)
        ensures
            corpus@ == self@.corpus,
    {
        &self.corpus
    }

    /// The solutions, to read.
    pub fn solutions(&self) -> (solutions: &Solutions)
        ensures
            solutions@ == self@.solutions,
    {
        &self.solutions
    }

    /// The best-seen coverage map.
    pub fn cumulative(&self) -> (map: &Vec<u8>)
        ensures
            map@ == self@.cumulative,
    {
        self.feedback.cumulative()
    }

    /// The numbers of the session as it stands.
    pub fn stats(&self) -> (stats: Stats)
        ensures
            stats == stats_of(self@),
    {
        Stats {
            executions: self.executions,
            corpus_size: self.corpus.len(),
            solutions: self.solutions.len(),
        }
    }

    /// Counts a run on `input` and passes its result through both gates,
    /// whatever the other gate says: the feedback decides on the corpus, the
    /// objective on the solutions, and one result may enter both. This is the
    /// way in for a target that is run outside the fuzzer.
    pub fn judge(&mut self, input: Input, result: &ExecutionResult, forced: bool) -> (verdict:
        Verdict)
        requires
            old(self).wf(),
        ensures
            final(self).wf(),
            final(self).config() == old(self).config(),
            final(self).target() == old(self).target(),
            continues(final(self)@, old(self)@),
            truthful(old(self)@.solutions, old(self).target()) && result.outcome == old(
                self,
            ).target().outcome(input@) ==> truthful(final(self)@.solutions, final(self).target()),
            final(self)@ == admitted(old(self)@, input@, result.outcome, result.map@, forced),
            verdict == verdict_of(old(self)@, result.outcome, result.map@, forced),
    {
        let entries: usize = self.corpus.len();
        if self.executions < u64::MAX {
            self.executions = self.executions + 1;
        }
        let cells = self.feedback.novel_cells(result);
        let novel = self.feedback.is_interesting(result);
        let objective = self.objective.is_objective(result);
        let solution = if objective {
            Some(self.solutions.add(input.clone(), result.outcome))
        } else {
            None
        };
        let entry = if novel || forced {
            let id = self.corpus.add(input, cells);
            self.scheduler.on_add(id);
            proof {
                let queue = old(self).scheduler@.queue;
                assert(!queue.contains(id)) by {
                    if queue.contains(id) {
                        let i = choose|i: int| 0 <= i < queue.len() && queue[i] == id;
                        assert(i < entries);
                        assert(queue[i] == EntryId(i as usize));
                    }
                }
            }
            Some(id)
        } else {
            None
        };
        Verdict { novel, objective, entry, solution }
    }

    /// Runs the target once on `input` and passes the result through both
    /// gates. A run that crashes or times out is a result like any other:
    /// the fuzzer is ready for the next input afterwards.
    pub fn evaluate_input(&mut self, input: Input, forced: bool) -> (verdict: Verdict)
        requires
            old(self).wf(),
        ensures
            final(self).wf(),
            final(self).config() == old(self).config(),
            final(self).target() == old(self).target(),
            continues(final(self)@, old(self)@),
            truthful(old(self)@.solutions, old(self).target()) ==> truthful(
                final(self)@.solutions,
                final(self).target(),
            ),
            final(self)@ == evaluated(
                old(self)@,
                old(self).target(),
                old(self).config().map_size as nat,
                input@,
                forced,
            ),
            verdict == verdict_on(
                old(self)@,
                old(self).target(),
                old(self).config().map_size as nat,
                input@,
                forced,
            ),
    {
        let result = self.executor.run(&input);
        self.judge(input, &result, forced)
    }
    /// Asks the scheduler for the next entry, at once, and counts the
    /// selection on the entry. Outside the running loop nothing happens.
    pub fn schedule(&mut self) -> (picked: Result<EntryId, EngineError>)
        requires
            old(self).wf(),
        ensures
            final(self).wf(),
            final(self).config() == old(self).config(),
            final(self).target() == old(self).target(),
            continues(final(self)@, old(self)@),
            old(self)@.phase != Phase::Running ==> picked == Err::<EntryId, EngineError>(
                EngineError::WrongPhase,
            ) && final(self)@ == old(self)@,
            old(self)@.phase == Phase::Running ==> picked == Ok::<EntryId, EngineError>(
                selected(old(self)@),
            ) && final(self)@ == scheduled(old(self)@) && selected(old(self)@).0 < old(
                self,
            )@.corpus.len(),
    {
        if self.phase != Phase::Running {
            return Err(EngineError::WrongPhase);
        }
        let seed: EntryId = match self.scheduler.next() {
            Ok(id) => id,
            Err(_) => {
                return Err(EngineError::EmptyCorpus);
            },
        };
        let counted = self.corpus.record_selection(seed);
        assert(counted is Ok);
        Ok(seed)
    }

    /// Draws one mutant of the input of entry `seed_id`; the entry stays as
    /// it is. Where the mutator fails the session ends. Outside the running
    /// loop, and for an identifier that the corpus does not have, nothing
    /// happens.
    pub fn mutant(&mut self, seed_id: EntryId) -> (made: Result<Input, EngineError>)
        requires
            old(self).wf(),
        ensures
            final(self).wf(),
            final(self).config() == old(self).config(),
            final(self).target() == old(self).target(),
            continues(final(self)@, old(self)@),
            old(self)@.phase != Phase::Running ==> made == Err::<Input, EngineError>(
                EngineError::WrongPhase,
            ) && final(self)@ == old(self)@,
            old(self)@.phase == Phase::Running && seed_id.0 >= old(self)@.corpus.len() ==> made
                == Err::<Input, EngineError>(EngineError::NotFound) && final(self)@ == old(self)@,
            old(self)@.phase == Phase::Running && seed_id.0 < old(self)@.corpus.len() ==> {
                &&& final(self)@ == drawn(old(self)@, old(self)@.corpus[seed_id.0 as int].input)
                &&& match next_mutant(
                    old(self)@.source,
                    old(self)@.corpus[seed_id.0 as int].input,
                    inputs_of(old(self)@.corpus),
                ) {
                    Some(bytes) => made is Ok && made->Ok_0@ == bytes,
                    None => made == Err::<Input, EngineError>(EngineError::Mutation),
                }
            },
    {
        if self.phase != Phase::Running {
            return Err(EngineError::WrongPhase);
        }
        let entry = match self.corpus.get(seed_id) {
            Ok(entry) => entry,
            Err(_) => {
                return Err(EngineError::NotFound);
            },
        };
        match self.mutator.mutate(entry.input(), &self.corpus, &mut self.source) {
            Ok(mutant) => Ok(mutant),
            Err(_) => {
                self.phase = Phase::Stopped(StopReason::Failed(EngineError::Mutation));
                Err(EngineError::Mutation)
            },
        }
    }

    /// The mutational stage on the entry `seed_id`: as many attempts as the
    /// configuration gives a stage, each one a mutant of the entry's input
    /// that is run and passed through both gates. The stage belongs to the
    /// running loop and to an entry of the corpus; otherwise it does nothing
    /// and says so.
    pub fn perform(&mut self, seed_id: EntryId) -> (done: Result<StageReport, EngineError>)
        requires
            old(self).wf(),
        ensures
            final(self).wf(),
            final(self).config() == old(self).config(),
            final(self).target() == old(self).target(),
            continues(final(self)@, old(self)@),
            truthful(old(self)@.solutions, old(self).target()) ==> truthful(
                final(self)@.solutions,
                final(self).target(),
            ),
            old(self)@.phase != Phase::Running ==> done == Err::<StageReport, EngineError>(
                EngineError::WrongPhase,
            ) && final(self)@ == old(self)@,
            old(self)@.phase == Phase::Running && seed_id.0 >= old(self)@.corpus.len() ==> done
                == Err::<StageReport, EngineError>(EngineError::NotFound) && final(self)@ == old(
                self,
            )@,
            old(self)@.phase == Phase::Running && seed_id.0 < old(self)@.corpus.len() ==> {
                &&& final(self)@ == performed(
                    old(self)@,
                    old(self).target(),
                    old(self).config().map_size as nat,
                    old(self)@.corpus[seed_id.0 as int].input,
                    old(self).config().mutations_per_seed as nat,
                )
                &&& final(self)@.phase == Phase::Running ==> done == Ok::<
                    StageReport,
                    EngineError,
                >(stage_report(old(self)@, final(self)@, old(self).config().mutations_per_seed))
                &&& final(self)@.phase != Phase::Running ==> done == Err::<
                    StageReport,
                    EngineError,
                >(EngineError::Mutation) && final(self)@.phase == Phase::Stopped(
                    StopReason::Failed(EngineError::Mutation),
                )
            },
    {
        if self.phase != Phase::Running {
            return Err(EngineError::WrongPhase);
        }
        if seed_id.0 >= self.corpus.len() {
            return Err(EngineError::NotFound);
        }
        let budget: usize = self.config.mutations_per_seed;
        let entries: usize = self.corpus.len();
        let found: usize = self.solutions.len();
        let ghost target = self.executor.target();
        let ghost size = self.config.map_size as nat;
        let ghost seed = self@.corpus[seed_id.0 as int].input;
        let mut attempts: usize = 0;
        while attempts < budget
            invariant
                attempts <= budget,
                budget == old(self).config.mutations_per_seed,
                self.wf(),
                self.config == old(self).config,
                self.executor.target() == target,
                target == old(self).executor.target(),
                size == old(self).config.map_size as nat,
                old(self)@.phase == Phase::Running,
                seed_id.0 < old(self)@.corpus.len(),
                seed == old(self)@.corpus[seed_id.0 as int].input,
                self@ == performed(old(self)@, target, size, seed, attempts as nat),
                continues(self@, old(self)@),
                truthful(old(self)@.solutions, target) ==> truthful(self@.solutions, target),
                self@.phase == Phase::Running,
                entries == old(self)@.corpus.len(),
                found == old(self)@.solutions.len(),
            decreases budget - attempts,
        {
            let ghost before = self@;
            assert(before.corpus[seed_id.0 as int].input == seed);
            match self.mutant(seed_id) {
                Ok(mutant) => {
                    self.evaluate_input(mutant, false);
                },
                Err(e) => {
                    proof {
                        assert(self@ == attempted(before, target, size, seed));
                        performed_stays(
                            old(self)@,
                            target,
                            size,
                            seed,
                            (attempts + 1) as nat,
                            budget as nat,
                        );
                    }
                    return Err(e);
                },
            }
            assert(self@ == attempted(before, target, size, seed));
            attempts += 1;
        }
        Ok(
            StageReport {
                attempts: budget,
                new_entries: self.corpus.len() - entries,
                new_solutions: self.solutions.len() - found,
            },
        )
    }

    /// One iteration of the loop: the scheduler names the next entry, at
    /// once, the entry counts one more selection, and a stage runs on it.
    /// Outside the running loop nothing happens.
    pub fn step(&mut self) -> (done: Result<StepReport, EngineError>)
        requires
            old(self).wf(),
        ensures
            final(self).wf(),
            final(self).config() == old(self).config(),
            final(self).target() == old(self).target(),
            continues(final(self)@, old(self)@),
            truthful(old(self)@.solutions, old(self).target()) ==> truthful(
                final(self)@.solutions,
                final(self).target(),
            ),
            old(self)@.phase != Phase::Running ==> done == Err::<StepReport, EngineError>(
                EngineError::WrongPhase,
            ) && final(self)@ == old(self)@,
            old(self)@.phase == Phase::Running ==> {
                &&& final(self)@ == stepped(
                    old(self)@,
                    old(self).target(),
                    old(self).config().map_size as nat,
                    old(self).config().mutations_per_seed as nat,
                )
                &&& final(self)@.phase == Phase::Running ==> done == Ok::<
                    StepReport,
                    EngineError,
                >(
                    StepReport {
                        seed: selected(old(self)@),
                        stage: stage_report(
                            old(self)@,
                            final(self)@,
                            old(self).config().mutations_per_seed,
                        ),
                        stats: stats_of(final(self)@),
                    },
                )
                &&& final(self)@.phase != Phase::Running ==> done == Err::<
                    StepReport,
                    EngineError,
                >(EngineError::Mutation) && final(self)@.phase == Phase::Stopped(
                    StopReason::Failed(EngineError::Mutation),
                )
            },
    {
        if self.phase != Phase::Running {
            return Err(EngineError::WrongPhase);
        }
        let seed: EntryId = match self.schedule() {
            Ok(id) => id,
            Err(e) => {
                return Err(e);
            },
        };
        match self.perform(seed) {
            Ok(stage) => Ok(StepReport { seed, stage, stats: self.stats() }),
            Err(e) => Err(e),
        }
    }

    /// The loop: up to `iterations` iterations, for as long as the session
    /// runs. When the iterations are used up the session ends for that
    /// reason. The report says why the session ended and gives the numbers
    /// at its end. Outside the running loop nothing happens.
    pub fn fuzz_loop(&mut self, iterations: u64) -> (done: Result<LoopReport, EngineError>)
        requires
            old(self).wf(),
        ensures
            final(self).wf(),
            final(self).config() == old(self).config(),
            final(self).target() == old(self).target(),
            continues(final(self)@, old(self)@),
            truthful(old(self)@.solutions, old(self).target()) ==> truthful(
                final(self)@.solutions,
                final(self).target(),
            ),
            old(self)@.phase != Phase::Running ==> done == Err::<LoopReport, EngineError>(
                EngineError::WrongPhase,
            ) && final(self)@ == old(self)@,
            old(self)@.phase == Phase::Running ==> {
                &&& final(self)@ == exhausted(
                    looped(
                        old(self)@,
                        old(self).target(),
                        old(self).config().map_size as nat,
                        old(self).config().mutations_per_seed as nat,
                        iterations as nat,
                    ),
                )
                &&& done is Ok
                &&& final(self)@.phase == Phase::Stopped(done->Ok_0.stop)
                &&& done->Ok_0.stats == stats_of(final(self)@)
            },
    {
        if self.phase != Phase::Running {
            return Err(EngineError::WrongPhase);
        }
        let ghost target = self.executor.target();
        let ghost size = self.config.map_size as nat;
        let ghost budget = self.config.mutations_per_seed as nat;
        let mut round: u64 = 0;
        while round < iterations && self.phase == Phase::Running
            invariant
                round <= iterations,
                self.wf(),
                self.config == old(self).config,
                self.executor.target() == target,
                target == old(self).executor.target(),
                size == old(self).config.map_size as nat,
                budget == old(self).config.mutations_per_seed as nat,
                old(self)@.phase == Phase::Running,
                self@ == looped(old(self)@, target, size, budget, round as nat),
                continues(self@, old(self)@),
                truthful(old(self)@.solutions, target) ==> truthful(self@.solutions, target),
                self@.phase == Phase::Running || self@.phase is Stopped,
            decreases iterations - round,
        {
            let _ = self.step();
            round += 1;
        }
        proof {
            if self@.phase != Phase::Running {
                looped_stays(old(self)@, target, size, budget, round as nat, iterations as nat);
            }
        }
        let stop = match self.phase {
            Phase::Stopped(reason) => reason,
            _ => StopReason::BudgetExhausted,
        };
        self.phase = Phase::Stopped(stop);
        Ok(LoopReport { stop, stats: self.stats() })
    }

    /// Begins seeding. Only a fuzzer that has not started can begin.
    pub fn start_seeding(&mut self) -> (done: Result<(), EngineError>)
        requires
            old(self).wf(),
        ensures
            final(self).wf(),
            final(self).config() == old(self).config(),
            final(self).target() == old(self).target(),
            old(self)@.phase != Phase::Initializing ==> done == Err::<(), EngineError>(
                EngineError::WrongPhase,
            ) && final(self)@ == old(self)@,
            old(self)@.phase == Phase::Initializing ==> done is Ok && final(self)@ == (
            EngineModel { phase: Phase::Seeding, ..old(self)@ }),
    {
        if self.phase != Phase::Initializing {
            return Err(EngineError::WrongPhase);
        }
        self.phase = Phase::Seeding;
        Ok(())
    }

    /// Runs `input` once to seed the corpus. Whether an input that reaches
    /// nothing new is kept all the same is the configuration's choice.
    /// Outside seeding nothing happens.
    pub fn seed_with(&mut self, input: Input) -> (done: Result<Verdict, EngineError>)
        requires
            old(self).wf(),
        ensures
            final(self).wf(),
            final(self).config() == old(self).config(),
            final(self).target() == old(self).target(),
            continues(final(self)@, old(self)@),
            truthful(old(self)@.solutions, old(self).target()) ==> truthful(
                final(self)@.solutions,
                final(self).target(),
            ),
            old(self)@.phase != Phase::Seeding ==> done == Err::<Verdict, EngineError>(
                EngineError::WrongPhase,
            ) && final(self)@ == old(self)@,
            old(self)@.phase == Phase::Seeding ==> final(self)@ == evaluated(
                old(self)@,
                old(self).target(),
                old(self).config().map_size as nat,
                input@,
                old(self).config().force_seeds,
            ) && done == Ok::<Verdict, EngineError>(
                verdict_on(
                    old(self)@,
                    old(self).target(),
                    old(self).config().map_size as nat,
                    input@,
                    old(self).config().force_seeds,
                ),
            ),
    {
        if self.phase != Phase::Seeding {
            return Err(EngineError::WrongPhase);
        }
        let forced = self.config.force_seeds;
        Ok(self.evaluate_input(input, forced))
    }

    /// Seeds the corpus with as many generated inputs as the configuration
    /// asks for, each run once, and says how many of them were kept. Where
    /// the generator fails the session ends. Outside seeding nothing happens.
    pub fn seed_generated(&mut self) -> (done: Result<usize, EngineError>)
        requires
            old(self).wf(),
        ensures
            final(self).wf(),
            final(self).config() == old(self).config(),
            final(self).target() == old(self).target(),
            continues(final(self)@, old(self)@),
            truthful(old(self)@.solutions, old(self).target()) ==> truthful(
                final(self)@.solutions,
                final(self).target(),
            ),
            old(self)@.phase != Phase::Seeding ==> done == Err::<usize, EngineError>(
                EngineError::WrongPhase,
            ) && final(self)@ == old(self)@,
            old(self)@.phase == Phase::Seeding ==> {
                &&& final(self)@ == seeded(
                    old(self)@,
                    old(self).target(),
                    old(self).config().map_size as nat,
                    old(self).config().max_input_len,
                    old(self).config().force_seeds,
                    old(self).config().initial_inputs as nat,
                )
                &&& final(self)@.phase == Phase::Seeding ==> done == Ok::<usize, EngineError>(
                    (final(self)@.corpus.len() - old(self)@.corpus.len()) as usize,
                )
                &&& final(self)@.phase != Phase::Seeding ==> done == Err::<usize, EngineError>(
                    EngineError::Generation,
                ) && final(self)@.phase == Phase::Stopped(
                    StopReason::Failed(EngineError::Generation),
                )
            },
    {
        if self.phase != Phase::Seeding {
            return Err(EngineError::WrongPhase);
        }
        let count: usize = self.config.initial_inputs;
        let forced = self.config.force_seeds;
        let entries: usize = self.corpus.len();
        let ghost target = self.executor.target();
        let ghost size = self.config.map_size as nat;
        let ghost max_len = self.config.max_input_len;
        let mut made: usize = 0;
        while made < count
            invariant
                made <= count,
                count == old(self).config.initial_inputs,
                forced == old(self).config.force_seeds,
                self.wf(),
                self.config == old(self).config,
                self.executor.target() == target,
                target == old(self).executor.target(),
                size == old(self).config.map_size as nat,
                max_len == old(self).config.max_input_len,
                old(self)@.phase == Phase::Seeding,
                self@ == seeded(old(self)@, target, size, max_len, forced, made as nat),
                continues(self@, old(self)@),
                truthful(old(self)@.solutions, target) ==> truthful(self@.solutions, target),
                self@.phase == Phase::Seeding,
                entries == old(self)@.corpus.len(),
                self@.corpus.len() >= entries,
            decreases count - made,
        {
            let ghost before = self@;
            match self.generator.generate(&mut self.source) {
                Ok(input) => {
                    self.evaluate_input(input, forced);
                },
                Err(_) => {
                    self.phase = Phase::Stopped(StopReason::Failed(EngineError::Generation));
                    proof {
                        assert(self@ == seeded_once(before, target, size, max_len, forced));
                        seeded_stays(
                            old(self)@,
                            target,
                            size,
                            max_len,
                            forced,
                            (made + 1) as nat,
                            count as nat,
                        );
                    }
                    return Err(EngineError::Generation);
                },
            }
            assert(self@ == seeded_once(before, target, size, max_len, forced));
            made += 1;
        }
        Ok(self.corpus.len() - entries)
    }

    /// Ends seeding: the loop starts if the corpus has an entry. With an
    /// empty corpus the session ends with `EmptyCorpus`. Outside seeding
    /// nothing happens.
    pub fn finish_seeding(&mut self) -> (done: Result<(), EngineError>)
        requires
            old(self).wf(),
        ensures
            final(self).wf(),
            final(self).config() == old(self).config(),
            final(self).target() == old(self).target(),
            old(self)@.phase != Phase::Seeding ==> done == Err::<(), EngineError>(
                EngineError::WrongPhase,
            ) && final(self)@ == old(self)@,
            old(self)@.phase == Phase::Seeding ==> final(self)@ == seeding_closed(old(self)@),
            old(self)@.phase == Phase::Seeding && old(self)@.corpus.len() > 0 ==> done is Ok,
            old(self)@.phase == Phase::Seeding && old(self)@.corpus.len() == 0 ==> done == Err::<
                (),
                EngineError,
            >(EngineError::EmptyCorpus),
    {
        if self.phase != Phase::Seeding {
            return Err(EngineError::WrongPhase);
        }
        if self.corpus.len() > 0 {
            self.phase = Phase::Running;
            Ok(())
        } else {
            self.phase = Phase::Stopped(StopReason::Failed(EngineError::EmptyCorpus));
            Err(EngineError::EmptyCorpus)
        }
    }

    /// Seeds a fuzzer that has not started: begins seeding, runs the
    /// generated inputs, and ends seeding. The loop runs afterwards, unless
    /// the generator failed or the corpus stayed empty.
    pub fn seed(&mut self) -> (done: Result<usize, EngineError>)
        requires
            old(self).wf(),
        ensures
            final(self).wf(),
            final(self).config() == old(self).config(),
            final(self).target() == old(self).target(),
            continues(final(self)@, old(self)@),
            truthful(old(self)@.solutions, old(self).target()) ==> truthful(
                final(self)@.solutions,
                final(self).target(),
            ),
            old(self)@.phase != Phase::Initializing ==> done == Err::<usize, EngineError>(
                EngineError::WrongPhase,
            ) && final(self)@ == old(self)@,
            old(self)@.phase == Phase::Initializing ==> {
                &&& final(self)@ == seeding_closed(
                    seeded(
                        EngineModel { phase: Phase::Seeding, ..old(self)@ },
                        old(self).target(),
                        old(self).config().map_size as nat,
                        old(self).config().max_input_len,
                        old(self).config().force_seeds,
                        old(self).config().initial_inputs as nat,
                    ),
                )
                &&& final(self)@.phase == Phase::Running ==> done == Ok::<usize, EngineError>(
                    (final(self)@.corpus.len() - old(self)@.corpus.len()) as usize,
                )
                &&& final(self)@.phase != Phase::Running ==> done is Err
                    && final(self)@.phase == Phase::Stopped(StopReason::Failed(done->Err_0))
            },
    {
        match self.start_seeding() {
            Err(e) => {
                return Err(e);
            },
            Ok(_) => {},
        }
        let kept: usize = match self.seed_generated() {
            Err(e) => {
                return Err(e);
            },
            Ok(kept) => kept,
        };
        match self.finish_seeding() {
            Err(e) => Err(e),
            Ok(_) => Ok(kept),
        }
    }

    /// Ends the session on request. A session that has ended stays as it is.
    /// The loop looks for a request between iterations: a caller that must
    /// be able to stop drives `step` itself.
    pub fn stop(&mut self)
        requires
            old(self).wf(),
        ensures
            final(self).wf(),
            final(self).config() == old(self).config(),
            final(self).target() == old(self).target(),
            old(self)@.phase is Stopped ==> final(self)@ == old(self)@,
            !(old(self)@.phase is Stopped) ==> final(self)@ == (EngineModel {
                phase: Phase::Stopped(StopReason::Requested),
                ..old(self)@
            }),
    {
        match self.phase {
            Phase::Stopped(_) => {},
            _ => {
                self.phase = Phase::Stopped(StopReason::Requested);
            },
        }
    }

    /// Ends the session because a solution could not be written to stable
    /// storage: no found crash may be lost without notice. A session that
    /// has ended stays as it is.
    pub fn report_storage_failure(&mut self)
        requires
            old(self).wf(),
        ensures
            final(self).wf(),
            final(self).config() == old(self).config(),
            final(self).target() == old(self).target(),
            old(self)@.phase is Stopped ==> final(self)@ == old(self)@,
            !(old(self)@.phase is Stopped) ==> final(self)@ == failed(
                old(self)@,
                EngineError::Storage,
            ),
    {
        match self.phase {
            Phase::Stopped(_) => {},
            _ => {
                self.phase = Phase::Stopped(StopReason::Failed(EngineError::Storage));
            },
        }
    }
}

} // verus!
