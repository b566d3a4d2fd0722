use baby_fuzzer::corpus::EntryId;
use baby_fuzzer::execution::{ExecutionResult, Executor, Outcome, Target};
use baby_fuzzer::fuzzer::{
    Config, ConfigError, EngineError, Fuzzer, Phase, Stats, StopReason, Verdict,
};
use baby_fuzzer::harness::PrefixTarget;
use baby_fuzzer::input::Input;

fn config() -> Config {
    Config {
        map_size: 16,
        initial_inputs: 8,
        max_input_len: 32,
        mutations_per_seed: 16,
        random_seed: 0x5eed,
        force_seeds: false,
    }
}

fn fuzzer(config: Config) -> Fuzzer<PrefixTarget> {
    Fuzzer::new(config, PrefixTarget::new()).unwrap()
}

fn input(bytes: &[u8]) -> Input {
    Input::new(bytes.to_vec())
}

fn corpus_inputs(fuzzer: &Fuzzer<PrefixTarget>) -> Vec<Vec<u8>> {
    (0..fuzzer.corpus().len())
        .map(|i| fuzzer.corpus().entry_at(i).unwrap().input().to_vec())
        .collect()
}

fn cumulative(cells: &[usize]) -> Vec<u8> {
    let mut map = vec![0u8; 16];
    for &c in cells {
        map[c] = 1;
    }
    map
}

#[test]
fn a_map_without_cells_is_refused() {
    let made = Fuzzer::new(Config { map_size: 0, ..config() }, PrefixTarget::new());
    assert_eq!(made.unwrap_err(), ConfigError::InvalidMapSize);
    let both = Config { map_size: 0, mutations_per_seed: 0, ..config() };
    assert_eq!(both.validate(), Err(ConfigError::InvalidMapSize));
}

#[test]
fn a_stage_without_mutants_is_refused() {
    let made = Fuzzer::new(Config { mutations_per_seed: 0, ..config() }, PrefixTarget::new());
    assert_eq!(made.unwrap_err(), ConfigError::ZeroMutationBudget);
    assert_eq!(config().validate(), Ok(()));
}

#[test]
fn a_new_fuzzer_is_initializing() {
    let fuzzer = fuzzer(config());
    assert_eq!(fuzzer.phase(), Phase::Initializing);
    assert_eq!(fuzzer.stats(), Stats { executions: 0, corpus_size: 0, solutions: 0 });
    assert_eq!(fuzzer.cumulative(), &vec![0u8; 16]);
}

#[test]
fn each_new_prefix_is_kept_and_a_rerun_is_not() {
    let mut fuzzer = fuzzer(Config { initial_inputs: 0, ..config() });
    fuzzer.start_seeding().unwrap();
    let first = fuzzer.seed_with(input(b"")).unwrap();
    assert_eq!(
        first,
        Verdict { novel: true, objective: false, entry: Some(EntryId(0)), solution: None }
    );
    fuzzer.finish_seeding().unwrap();
    assert_eq!(fuzzer.phase(), Phase::Running);
    assert_eq!(fuzzer.evaluate_input(input(b"a"), false).entry, Some(EntryId(1)));
    assert_eq!(fuzzer.evaluate_input(input(b"ab"), false).entry, Some(EntryId(2)));
    let again = fuzzer.evaluate_input(input(b"a"), false);
    assert_eq!(again, Verdict { novel: false, objective: false, entry: None, solution: None });
    assert_eq!(fuzzer.evaluate_input(input(b"abc"), false).entry, Some(EntryId(3)));
    assert_eq!(
        corpus_inputs(&fuzzer),
        vec![b"".to_vec(), b"a".to_vec(), b"ab".to_vec(), b"abc".to_vec()]
    );
    assert_eq!(fuzzer.cumulative(), &cumulative(&[0, 1, 2, 3]));
    assert_eq!(fuzzer.corpus().get(EntryId(0)).unwrap().fingerprint(), &vec![0usize]);
    assert_eq!(fuzzer.corpus().get(EntryId(1)).unwrap().fingerprint(), &vec![1usize]);
    assert_eq!(fuzzer.corpus().get(EntryId(2)).unwrap().fingerprint(), &vec![2usize]);
    assert_eq!(fuzzer.corpus().get(EntryId(3)).unwrap().fingerprint(), &vec![3usize]);
    assert_eq!(fuzzer.stats(), Stats { executions: 5, corpus_size: 4, solutions: 0 });
    for bytes in [&b""[..], b"a", b"ab", b"abc", b"abd", b"zzz"] {
        assert_eq!(fuzzer.evaluate_input(input(bytes), false).entry, None);
    }
    assert_eq!(fuzzer.corpus().len(), 4);
}

#[test]
fn an_input_may_reach_several_new_cells_at_once() {
    let mut fuzzer = fuzzer(config());
    let verdict = fuzzer.evaluate_input(input(b"abc"), false);
    assert_eq!(verdict.entry, Some(EntryId(0)));
    assert_eq!(fuzzer.corpus().get(EntryId(0)).unwrap().fingerprint(), &vec![0usize, 1, 2, 3]);
    assert_eq!(fuzzer.evaluate_input(input(b"ab"), false).entry, None);
}

#[test]
fn a_crash_is_a_solution_and_the_session_goes_on() {
    let mut fuzzer = fuzzer(config());
    fuzzer.start_seeding().unwrap();
    fuzzer.seed_with(input(b"")).unwrap();
    fuzzer.finish_seeding().unwrap();
    let crash = fuzzer.evaluate_input(input(b"abccba"), false);
    assert_eq!(
        crash,
        Verdict { novel: true, objective: true, entry: Some(EntryId(1)), solution: Some(0) }
    );
    let second = fuzzer.evaluate_input(input(b"abc-cba"), false);
    assert_eq!(
        second,
        Verdict { novel: false, objective: true, entry: None, solution: Some(1) }
    );
    let fine = fuzzer.evaluate_input(input(b"ab"), false);
    assert_eq!(fine, Verdict { novel: false, objective: false, entry: None, solution: None });
    assert_eq!(fuzzer.solutions().len(), 2);
    assert_eq!(fuzzer.solutions().get(0).unwrap().input().to_vec(), b"abccba".to_vec());
    assert_eq!(fuzzer.solutions().get(0).unwrap().classification(), Outcome::Crashed);
    assert_eq!(fuzzer.solutions().get(1).unwrap().input().to_vec(), b"abc-cba".to_vec());
    assert_eq!(fuzzer.phase(), Phase::Running);
    assert!(fuzzer.step().is_ok());
}

#[test]
fn both_gates_see_every_result() {
    let mut fuzzer = fuzzer(config());
    let mut map = vec![0u8; 16];
    map[5] = 1;
    let timed_out = ExecutionResult { outcome: Outcome::TimedOut, map: map.clone() };
    let verdict = fuzzer.judge(input(b"slow"), &timed_out, false);
    assert_eq!(
        verdict,
        Verdict { novel: true, objective: false, entry: Some(EntryId(0)), solution: None }
    );
    let crashed = ExecutionResult { outcome: Outcome::Crashed, map };
    let verdict = fuzzer.judge(input(b"boom"), &crashed, false);
    assert_eq!(
        verdict,
        Verdict { novel: false, objective: true, entry: None, solution: Some(0) }
    );
    assert_eq!(fuzzer.stats(), Stats { executions: 2, corpus_size: 1, solutions: 1 });
}

#[test]
fn forced_admission_keeps_an_input_that_is_not_novel() {
    let mut fuzzer = fuzzer(Config { force_seeds: true, ..config() });
    fuzzer.start_seeding().unwrap();
    assert_eq!(fuzzer.seed_with(input(b"x")).unwrap().entry, Some(EntryId(0)));
    let again = fuzzer.seed_with(input(b"y")).unwrap();
    assert_eq!(again, Verdict { novel: false, objective: false, entry: Some(EntryId(1)), solution: None });
    assert_eq!(fuzzer.corpus().get(EntryId(1)).unwrap().fingerprint(), &Vec::<usize>::new());
    let mut strict = self::fuzzer(config());
    strict.start_seeding().unwrap();
    assert_eq!(strict.seed_with(input(b"x")).unwrap().entry, Some(EntryId(0)));
    assert_eq!(strict.seed_with(input(b"y")).unwrap().entry, None);
}

#[test]
fn seeding_fills_the_corpus_and_starts_the_loop() {
    let mut fuzzer = fuzzer(config());
    let kept = fuzzer.seed().unwrap();
    assert!(kept >= 1);
    assert_eq!(fuzzer.phase(), Phase::Running);
    assert_eq!(fuzzer.stats().executions, 8);
    assert_eq!(fuzzer.stats().corpus_size, kept);
    let all = self::fuzzer(Config { force_seeds: true, ..config() }).seed().unwrap();
    assert_eq!(all, 8);
}

#[test]
fn seeding_without_inputs_ends_the_session() {
    let mut fuzzer = fuzzer(Config { initial_inputs: 0, ..config() });
    assert_eq!(fuzzer.seed(), Err(EngineError::EmptyCorpus));
    assert_eq!(fuzzer.phase(), Phase::Stopped(StopReason::Failed(EngineError::EmptyCorpus)));
    assert_eq!(fuzzer.step(), Err(EngineError::WrongPhase));
    assert_eq!(fuzzer.stats(), Stats { executions: 0, corpus_size: 0, solutions: 0 });
}

#[test]
fn operations_keep_to_their_phase() {
    let mut fuzzer = fuzzer(config());
    assert_eq!(fuzzer.step(), Err(EngineError::WrongPhase));
    assert_eq!(fuzzer.fuzz_loop(3), Err(EngineError::WrongPhase));
    assert_eq!(fuzzer.perform(EntryId(0)), Err(EngineError::WrongPhase));
    assert_eq!(fuzzer.seed_with(input(b"a")), Err(EngineError::WrongPhase));
    assert_eq!(fuzzer.seed_generated(), Err(EngineError::WrongPhase));
    assert_eq!(fuzzer.finish_seeding(), Err(EngineError::WrongPhase));
    assert_eq!(fuzzer.phase(), Phase::Initializing);
    assert_eq!(fuzzer.start_seeding(), Ok(()));
    assert_eq!(fuzzer.phase(), Phase::Seeding);
    assert_eq!(fuzzer.start_seeding(), Err(EngineError::WrongPhase));
    assert_eq!(fuzzer.seed(), Err(EngineError::WrongPhase));
    assert_eq!(fuzzer.stats().executions, 0);
}

#[test]
fn a_stage_runs_its_budget() {
    let mut fuzzer = fuzzer(Config { mutations_per_seed: 5, ..config() });
    fuzzer.start_seeding().unwrap();
    fuzzer.seed_with(input(b"hello")).unwrap();
    fuzzer.finish_seeding().unwrap();
    let report = fuzzer.perform(EntryId(0)).unwrap();
    assert_eq!(report.attempts, 5);
    assert_eq!(fuzzer.stats().executions, 6);
    assert_eq!(report.new_entries, fuzzer.corpus().len() - 1);
    assert_eq!(report.new_solutions, fuzzer.solutions().len());
    assert_eq!(fuzzer.perform(EntryId(fuzzer.corpus().len())), Err(EngineError::NotFound));
    assert_eq!(fuzzer.stats().executions, 6);
    assert_eq!(fuzzer.corpus().get(EntryId(0)).unwrap().input().to_vec(), b"hello".to_vec());
}

#[test]
fn a_step_schedules_the_entries_in_turn() {
    let mut fuzzer = fuzzer(Config { mutations_per_seed: 1, force_seeds: true, ..config() });
    fuzzer.start_seeding().unwrap();
    fuzzer.seed_with(input(b"one")).unwrap();
    fuzzer.seed_with(input(b"two")).unwrap();
    fuzzer.finish_seeding().unwrap();
    let first = fuzzer.step().unwrap();
    assert_eq!(first.seed, EntryId(0));
    assert_eq!(first.stats, fuzzer.stats());
    let second = fuzzer.step().unwrap();
    assert_eq!(second.seed, EntryId(1));
    assert_eq!(fuzzer.corpus().get(EntryId(0)).unwrap().times_selected(), 1);
    assert_eq!(fuzzer.corpus().get(EntryId(1)).unwrap().times_selected(), 1);
    assert_eq!(fuzzer.stats().executions, 4);
}

#[test]
fn the_loop_ends_when_its_iterations_are_used_up() {
    let mut fuzzer = fuzzer(config());
    fuzzer.seed().unwrap();
    let report = fuzzer.fuzz_loop(20).unwrap();
    assert_eq!(report.stop, StopReason::BudgetExhausted);
    assert_eq!(fuzzer.phase(), Phase::Stopped(StopReason::BudgetExhausted));
    assert_eq!(report.stats, fuzzer.stats());
    assert_eq!(report.stats.executions, 8 + 20 * 16);
    assert!(report.stats.corpus_size >= 1);
    assert_eq!(fuzzer.fuzz_loop(1), Err(EngineError::WrongPhase));
    for i in 0..fuzzer.solutions().len() {
        let solution = fuzzer.solutions().get(i).unwrap();
        assert_eq!(solution.classification(), Outcome::Crashed);
        assert!(PrefixTarget::would_crash(solution.input()));
    }
    for i in 0..fuzzer.corpus().len() {
        assert!(!fuzzer.corpus().entry_at(i).unwrap().fingerprint().is_empty());
    }
}

#[test]
fn a_session_is_reproducible_from_its_seed() {
    let mut first = fuzzer(config());
    let mut second = fuzzer(config());
    first.seed().unwrap();
    second.seed().unwrap();
    first.fuzz_loop(30).unwrap();
    second.fuzz_loop(30).unwrap();
    assert_eq!(corpus_inputs(&first), corpus_inputs(&second));
    assert_eq!(first.cumulative(), second.cumulative());
    assert_eq!(first.stats(), second.stats());
}

#[test]
fn the_loop_finds_deeper_prefixes() {
    let mut fuzzer = fuzzer(Config { mutations_per_seed: 64, ..config() });
    fuzzer.start_seeding().unwrap();
    fuzzer.seed_with(input(b"a")).unwrap();
    fuzzer.finish_seeding().unwrap();
    let mut before = fuzzer.cumulative().clone();
    for _ in 0..200 {
        fuzzer.step().unwrap();
        let after = fuzzer.cumulative().clone();
        assert!(before.iter().zip(after.iter()).all(|(b, a)| a >= b));
        before = after;
    }
    assert_eq!(fuzzer.phase(), Phase::Running);
    assert!(fuzzer.cumulative()[2] == 1);
}

#[test]
fn a_stop_request_ends_the_session() {
    let mut fuzzer = fuzzer(config());
    fuzzer.seed().unwrap();
    fuzzer.step().unwrap();
    fuzzer.stop();
    assert_eq!(fuzzer.phase(), Phase::Stopped(StopReason::Requested));
    assert_eq!(fuzzer.step(), Err(EngineError::WrongPhase));
    fuzzer.report_storage_failure();
    assert_eq!(fuzzer.phase(), Phase::Stopped(StopReason::Requested));
}

#[test]
fn a_storage_failure_ends_the_session_and_keeps_the_numbers() {
    let mut fuzzer = fuzzer(config());
    fuzzer.seed().unwrap();
    fuzzer.evaluate_input(input(b"abccba"), false);
    let stats = fuzzer.stats();
    fuzzer.report_storage_failure();
    assert_eq!(fuzzer.phase(), Phase::Stopped(StopReason::Failed(EngineError::Storage)));
    assert_eq!(fuzzer.stats(), stats);
    assert_eq!(fuzzer.stats().solutions, 1);
    assert_eq!(fuzzer.fuzz_loop(5), Err(EngineError::WrongPhase));
}

#[test]
fn a_target_can_be_run_outside_the_fuzzer() {
    let mut inside = fuzzer(Config { mutations_per_seed: 8, ..config() });
    let mut outside = fuzzer(Config { mutations_per_seed: 8, ..config() });
    for f in [&mut inside, &mut outside] {
        f.start_seeding().unwrap();
        f.seed_with(input(b"a")).unwrap();
        f.finish_seeding().unwrap();
    }
    let mut executor = Executor::new(PrefixTarget::new(), 16);
    for _ in 0..10 {
        let report = inside.step().unwrap();
        let seed = outside.schedule().unwrap();
        assert_eq!(seed, report.seed);
        for _ in 0..8 {
            let mutant = outside.mutant(seed).unwrap();
            let result = executor.run(&mutant);
            outside.judge(mutant, &result, false);
        }
        assert_eq!(outside.stats(), report.stats);
    }
    assert_eq!(corpus_inputs(&inside), corpus_inputs(&outside));
    assert_eq!(inside.cumulative(), outside.cumulative());
    assert_eq!(outside.mutant(EntryId(usize::MAX)).unwrap_err(), EngineError::NotFound);
    let target = PrefixTarget::new();
    let mut map = baby_fuzzer::coverage::CoverageMap::new(16);
    assert_eq!(target.execute(&input(b"abccba"), &mut map), Outcome::Crashed);
}

#[test]
fn scheduling_belongs_to_the_running_loop() {
    let mut fuzzer = fuzzer(config());
    assert_eq!(fuzzer.schedule(), Err(EngineError::WrongPhase));
    assert_eq!(fuzzer.mutant(EntryId(0)).unwrap_err(), EngineError::WrongPhase);
    fuzzer.seed().unwrap();
    assert_eq!(fuzzer.schedule(), Ok(EntryId(0)));
    assert_eq!(fuzzer.corpus().get(EntryId(0)).unwrap().times_selected(), 1);
}
