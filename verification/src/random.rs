//! The random source, and what is drawn from it outside this crate: havoc
//! mutation and the generation of printable inputs.
//!
//! The generator and the mutations are those of `libafl`. Nothing in this
//! file is proved: each function states what the outside code is taken to do.

use libafl::corpus::{Corpus as PoolApi, InMemoryCorpus, Testcase};
use libafl::generators::{Generator as GeneratorApi, RandPrintablesGenerator};
use libafl::inputs::{BytesInput, HasBytesVec};
use libafl::mutators::{havoc_mutations, Mutator as MutatorApi, StdScheduledMutator};
use libafl::state::{HasRand, NopState, StdState};
use libafl_bolts::rands::RomuDuoJrRand;
use libafl_bolts::Error;
use vstd::prelude::*;
use crate::corpus::{inputs_of, Corpus};
use crate::input::Input;

verus! {

/// The random number generator of `libafl_bolts`, carried as it is.
#[verifier::external_type_specification]
#[verifier::external_body]
pub struct ExRomuDuoJrRand(RomuDuoJrRand);

/// The error type of `libafl`, carried as it is.
#[verifier::external_type_specification]
#[verifier::external_body]
pub struct ExError(Error);

/// The two words of state that a generator holds, `x` and `y`. Every draw
/// is a function of them.
pub uninterp spec fn generator_words(generator: RomuDuoJrRand) -> (u64, u64);

/// What one round of havoc mutation makes of `seed`, drawing from a
/// generator that holds the words `x` and `y` and splicing from `pool`: the
/// mutant, or nothing where the mutator reports an error, and the words of
/// the generator after the draws.
pub uninterp spec fn havoc_mutation(x: u64, y: u64, seed: Seq<u8>, pool: Seq<Seq<u8>>) -> (
    Option<Seq<u8>>,
    u64,
    u64,
);

/// What the generator of printable inputs makes, drawing from a generator
/// that holds the words `x` and `y`, for the bound `max_len`: the input, or
/// nothing where it reports an error, and the words of the generator after
/// the draws.
pub uninterp spec fn printable_generation(x: u64, y: u64, max_len: usize) -> (
    Option<Seq<u8>>,
    u64,
    u64,
);

/// A byte that the generator of printable inputs may produce: a tab, a line
/// feed, or a character from the space to the tilde.
pub open spec fn is_printable(byte: u8) -> bool {
    byte == 9 || byte == 10 || (32 <= byte <= 126)
}

/// The bytes that an outside call returned, or nothing for its error.
pub open spec fn bytes_or_nothing(out: Result<Vec<u8>, Error>) -> Option<Seq<u8>> {
    match out {
        Ok(bytes) => Some(bytes@),
        Err(_) => None,
    }
}

/// `RomuDuoJrRand::with_seed`: the generator starts with the seed, mixed
/// with one constant for each of its two words.
#[verifier::external_body]
pub(crate) fn generator_with_seed(seed: u64) -> (generator: RomuDuoJrRand)
    ensures
        generator_words(generator) == (seed ^ 0x12345, seed ^ 0x6789A),
{
    RomuDuoJrRand::with_seed(seed)
}

/// `StdScheduledMutator::mutate` with `havoc_mutations()`, once, on a copy of
/// `seed`, in a fresh `StdState` that holds `generator` and the inputs of
/// `corpus` in their order. The mutant and the words of the generator
/// afterwards are a function of the words before, the seed and those inputs.
/// On an error the generator is as before. The corpus must not be empty: the
/// crossover mutations pick an entry of it.
#[verifier::external_body]
pub(crate) fn havoc(generator: &mut RomuDuoJrRand, seed: &Input, corpus: &Corpus) -> (out: Result<
    Vec<u8>,
    Error,
>)
    requires
        corpus@.len() > 0,
    ensures
        (bytes_or_nothing(out), generator_words(*final(generator)).0, generator_words(
            *final(generator),
        ).1) == havoc_mutation(
            generator_words(*old(generator)).0,
            generator_words(*old(generator)).1,
            seed@,
            inputs_of(corpus@),
        ),
{
    let mut pool = InMemoryCorpus::new();
    for entry in corpus.entries.iter() {
        pool.add(Testcase::new(BytesInput::new(entry.input.bytes.clone())))?;
    }
    let mut state = StdState::new(*generator, pool, InMemoryCorpus::new(), &mut (), &mut ())?;
    let mut input = BytesInput::new(seed.bytes.clone());
    StdScheduledMutator::new(havoc_mutations()).mutate(&mut state, &mut input, 0)?;
    *generator = *state.rand();
    Ok(input.bytes().to_vec())
}

/// `RandPrintablesGenerator::new(max_len).generate`, once, in a `NopState`
/// that holds `generator`. The input and the words of the generator
/// afterwards are a function of the words before and `max_len`. The input
/// has at least one byte, and every byte of it is printable.
#[verifier::external_body]
pub(crate) fn printable(generator: &mut RomuDuoJrRand, max_len: usize) -> (out: Result<
    Vec<u8>,
    Error,
>)
    ensures
        (bytes_or_nothing(out), generator_words(*final(generator)).0, generator_words(
            *final(generator),
        ).1) == printable_generation(
            generator_words(*old(generator)).0,
            generator_words(*old(generator)).1,
            max_len,
        ),
        out matches Ok(bytes) ==> bytes@.len() >= 1 && forall|i: int|
            0 <= i < bytes@.len() ==> is_printable(#[trigger] bytes@[i]),
{
    let mut state = NopState::<BytesInput>::new();
    *state.rand_mut() = *generator;
    let input = RandPrintablesGenerator::new(max_len).generate(&mut state)?;
    *generator = *state.rand();
    Ok(input.bytes().to_vec())
}

} // verus!
