use baby_fuzzer::corpus::{Corpus, CorpusError, EntryId};
use baby_fuzzer::execution::Outcome;
use baby_fuzzer::input::Input;
use baby_fuzzer::solutions::{reload, Solutions};

#[test]
fn corpus_starts_empty() {
    let corpus = Corpus::new();
    assert_eq!(corpus.len(), 0);
    assert!(corpus.is_empty());
    assert!(corpus.ids().is_empty());
}

#[test]
fn add_assigns_identifiers_in_order() {
    let mut corpus = Corpus::new();
    assert_eq!(corpus.add(Input::new(b"a".to_vec()), vec![0, 1]), EntryId(0));
    assert_eq!(corpus.add(Input::new(b"ab".to_vec()), vec![2]), EntryId(1));
    assert_eq!(corpus.add(Input::empty(), vec![]), EntryId(2));
    assert_eq!(corpus.len(), 3);
    assert_eq!(corpus.ids(), vec![EntryId(0), EntryId(1), EntryId(2)]);
}

#[test]
fn get_returns_what_was_added() {
    let mut corpus = Corpus::new();
    corpus.add(Input::new(b"first".to_vec()), vec![0]);
    let id = corpus.add(Input::new(b"second".to_vec()), vec![3, 5]);
    let entry = corpus.get(id).unwrap();
    assert_eq!(entry.id(), id);
    assert_eq!(entry.input().to_vec(), b"second".to_vec());
    assert_eq!(entry.fingerprint(), &vec![3usize, 5]);
    assert_eq!(entry.times_selected(), 0);
    assert!(!entry.is_favored());
    assert_eq!(corpus.get(EntryId(0)).unwrap().input().to_vec(), b"first".to_vec());
}

#[test]
fn get_of_an_unknown_identifier_is_not_found() {
    let mut corpus = Corpus::new();
    assert_eq!(corpus.get(EntryId(0)).unwrap_err(), CorpusError::NotFound);
    corpus.add(Input::new(b"x".to_vec()), vec![0]);
    assert!(corpus.get(EntryId(0)).is_ok());
    assert_eq!(corpus.get(EntryId(1)).unwrap_err(), CorpusError::NotFound);
    assert_eq!(corpus.get(EntryId(usize::MAX)).unwrap_err(), CorpusError::NotFound);
}

#[test]
fn entries_come_in_insertion_order() {
    let mut corpus = Corpus::new();
    let inputs: Vec<&[u8]> = vec![b"c", b"a", b"b"];
    for bytes in &inputs {
        corpus.add(Input::new(bytes.to_vec()), vec![]);
    }
    for (position, bytes) in inputs.iter().enumerate() {
        assert_eq!(corpus.entry_at(position).unwrap().input().to_vec(), bytes.to_vec());
    }
    assert!(corpus.entry_at(3).is_none());
}

#[test]
fn selections_are_counted_per_entry() {
    let mut corpus = Corpus::new();
    corpus.add(Input::new(b"a".to_vec()), vec![0]);
    corpus.add(Input::new(b"b".to_vec()), vec![1]);
    assert_eq!(corpus.record_selection(EntryId(1)), Ok(()));
    assert_eq!(corpus.record_selection(EntryId(1)), Ok(()));
    assert_eq!(corpus.record_selection(EntryId(2)), Err(CorpusError::NotFound));
    assert_eq!(corpus.get(EntryId(0)).unwrap().times_selected(), 0);
    assert_eq!(corpus.get(EntryId(1)).unwrap().times_selected(), 2);
    assert_eq!(corpus.get(EntryId(1)).unwrap().input().to_vec(), b"b".to_vec());
}

#[test]
fn favored_flag_can_be_set_and_cleared() {
    let mut corpus = Corpus::new();
    corpus.add(Input::new(b"a".to_vec()), vec![0]);
    assert_eq!(corpus.set_favored(EntryId(0), true), Ok(()));
    assert!(corpus.get(EntryId(0)).unwrap().is_favored());
    assert_eq!(corpus.set_favored(EntryId(0), false), Ok(()));
    assert!(!corpus.get(EntryId(0)).unwrap().is_favored());
    assert_eq!(corpus.set_favored(EntryId(7), true), Err(CorpusError::NotFound));
}

#[test]
fn solutions_are_appended_and_kept() {
    let mut solutions = Solutions::new();
    assert_eq!(solutions.len(), 0);
    assert_eq!(solutions.add(Input::new(b"abccba".to_vec()), Outcome::Crashed), 0);
    assert_eq!(solutions.add(Input::new(b"abc-cba".to_vec()), Outcome::Crashed), 1);
    assert_eq!(solutions.len(), 2);
    let first = solutions.get(0).unwrap();
    assert_eq!(first.input().to_vec(), b"abccba".to_vec());
    assert_eq!(first.classification(), Outcome::Crashed);
    assert_eq!(solutions.get(1).unwrap().input().to_vec(), b"abc-cba".to_vec());
    assert!(solutions.get(2).is_none());
}

#[test]
fn a_solution_round_trips_through_its_file_content() {
    let mut solutions = Solutions::new();
    let bytes: Vec<u8> = vec![0, 255, b'a', b'\n', 0, 128, 7];
    solutions.add(Input::new(bytes.clone()), Outcome::Crashed);
    let content = solutions.get(0).unwrap().file_content();
    assert_eq!(content, bytes);
    assert_eq!(reload(content).to_vec(), bytes);
    let empty = Solutions::new();
    assert!(empty.get(0).is_none());
    let mut with_empty = Solutions::new();
    with_empty.add(Input::empty(), Outcome::Crashed);
    assert_eq!(reload(with_empty.get(0).unwrap().file_content()).to_vec(), Vec::<u8>::new());
}

#[test]
fn input_keeps_its_bytes() {
    let input = Input::new(b"abc".to_vec());
    assert_eq!(input.len(), 3);
    assert!(!input.is_empty());
    assert_eq!(input.bytes(), &b"abc".to_vec());
    assert_eq!(input.clone().to_vec(), b"abc".to_vec());
    assert!(Input::empty().is_empty());
}
