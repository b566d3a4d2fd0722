//! Deriving new inputs: the random source, the mutator and the generator of
//! first inputs.

use libafl_bolts::rands::RomuDuoJrRand;
use vstd::prelude::*;
use crate::corpus::{inputs_of, Corpus};
use crate::input::Input;
use crate::random::{
    generator_with_seed,
    generator_words,
    havoc,
    havoc_mutation,
    is_printable,
    printable,
    printable_generation,
};

verus! {

/// The state of a random source: the two words that its generator holds.
pub type SourceState = (u64, u64);

/// The state of the source that `with_seed` makes for `seed`.
pub open spec fn seeded_source(seed: u64) -> SourceState {
    (seed ^ 0x12345, seed ^ 0x6789A)
}

/// The mutant that the next mutation of `seed` yields from a source in the
/// state `source`, with the pool `pool`, or nothing where the mutator fails.
pub open spec fn next_mutant(source: SourceState, seed: Seq<u8>, pool: Seq<Seq<u8>>) -> Option<
    Seq<u8>,
> {
    havoc_mutation(source.0, source.1, seed, pool).0
}

/// The state of the source after that mutation.
pub open spec fn source_after_mutation(
    source: SourceState,
    seed: Seq<u8>,
    pool: Seq<Seq<u8>>,
) -> SourceState {
    (havoc_mutation(source.0, source.1, seed, pool).1, havoc_mutation(
        source.0,
        source.1,
        seed,
        pool,
    ).2)
}

/// The input that the next generation yields from a source in the state
/// `source`, for the bound `max_len`, or nothing where the generator fails.
pub open spec fn next_generated(source: SourceState, max_len: usize) -> Option<Seq<u8>> {
    printable_generation(source.0, source.1, max_len).0
}

/// The state of the source after that generation.
pub open spec fn source_after_generation(source: SourceState, max_len: usize) -> SourceState {
    (printable_generation(source.0, source.1, max_len).1, printable_generation(
        source.0,
        source.1,
        max_len,
    ).2)
}

/// The random source of a session: one generator, drawn from in sequence.
///
/// The model is the state of the generator. What is drawn from a source is
/// determined by its state.
#[derive(Debug)]
pub struct RandomSource {
    generator: RomuDuoJrRand,
}

impl View for RandomSource {
    type V = SourceState;

    closed spec fn view(&self) -> SourceState {
        generator_words(self.generator)
    }
}

impl RandomSource {
    /// A source that is determined by `seed`.
    pub fn with_seed(seed: u64) -> (source: RandomSource)
        ensures
            source@ == seeded_source(seed),
    {
        RandomSource { generator: generator_with_seed(seed) }
    }
}

/// The first `count` mutants of `seed` that a mutator draws from a source
/// that starts in the state `source`, one after the other, with the pool
/// `pool`.
pub open spec fn mutant_sequence(
    source: SourceState,
    seed: Seq<u8>,
    pool: Seq<Seq<u8>>,
    count: nat,
) -> Seq<Option<Seq<u8>>>
    decreases count,
{
    if count == 0 {
        Seq::empty()
    } else {
        seq![next_mutant(source, seed, pool)] + mutant_sequence(
            source_after_mutation(source, seed, pool),
            seed,
            pool,
            (count - 1) as nat,
        )
    }
}

/// Mutation is determined by the seed of the random source: two sources made
/// from one seed give, for the same input and pool, the same mutants in the
/// same order.
pub proof fn mutation_is_deterministic(
    first: RandomSource,
    second: RandomSource,
    random_seed: u64,
    seed: Seq<u8>,
    pool: Seq<Seq<u8>>,
    count: nat,
)
    requires
        first@ == seeded_source(random_seed),
        second@ == seeded_source(random_seed),
    ensures
        mutant_sequence(first@, seed, pool, count) == mutant_sequence(second@, seed, pool, count),
{
}

/// Why no mutant was made.
#[derive(Clone, Copy, Debug, PartialEq, Eq, Structural)]
pub enum MutationError {
    /// The corpus is empty: there is nothing to splice with.
    EmptyPool,
    /// The mutator reported an error.
    Backend,
}

/// What `mutate` returns for what the mutator yielded.
pub open spec fn mutation_result(mutant: Option<Seq<u8>>, out: Result<Input, MutationError>) -> bool {
    match mutant {
        Some(bytes) => out is Ok && out->Ok_0@ == bytes,
        None => out == Err::<Input, MutationError>(MutationError::Backend),
    }
}

/// Derives new inputs from kept ones by stacked random byte-level changes:
/// bit and byte flips, arithmetic, insertion, deletion, copying, and
/// splicing with another entry of the corpus.
#[derive(Debug)]
pub struct Mutator {}

impl Mutator {
    /// The havoc mutator.
    pub fn new() -> (mutator: Mutator) {
        Mutator {  }
    }

    /// A new input made from `seed`; `seed` itself stays as it is. The
    /// result is determined by the random source, the seed and the inputs of
    /// the corpus. With an empty corpus there is no mutant and the source is
    /// not drawn from.
    pub fn mutate(&self, seed: &Input, corpus: &Corpus, source: &mut RandomSource) -> (out: Result<
        Input,
        MutationError,
    >)
        ensures
            corpus@.len() == 0 ==> out == Err::<Input, MutationError>(MutationError::EmptyPool)
                && final(source)@ == old(source)@,
            corpus@.len() > 0 ==> mutation_result(
                next_mutant(old(source)@, seed@, inputs_of(corpus@)),
                out,
            ) && final(source)@ == source_after_mutation(old(source)@, seed@, inputs_of(corpus@)),
    {
        if corpus.len() == 0 {
            return Err(MutationError::EmptyPool);
        }
        match havoc(&mut source.generator, seed, corpus) {
            Ok(bytes) => Ok(Input::new(bytes)),
            Err(_) => Err(MutationError::Backend),
        }
    }
}

/// Why no input was generated.
#[derive(Clone, Copy, Debug, PartialEq, Eq, Structural)]
pub enum GenerationError {
    /// The generator reported an error.
    Backend,
}

/// Makes the first inputs of a session: random printable bytes.
#[derive(Debug)]
pub struct Generator {
    max_len: usize,
}

impl Generator {
    /// A generator of inputs shorter than `max_len`.
    pub fn new(max_len: usize) -> (generator: Generator)
        ensures
            generator.bound() == max_len,
    {
        Generator { max_len }
    }

    /// The bound that the generator was made with.
    pub closed spec fn bound(&self) -> usize {
        self.max_len
    }

    /// A new input, determined by the random source and the bound. It has
    /// at least one byte, and all its bytes are printable.
    pub fn generate(&self, source: &mut RandomSource) -> (out: Result<Input, GenerationError>)
        ensures
            match next_generated(old(source)@, self.bound()) {
                Some(bytes) => out is Ok && out->Ok_0@ == bytes,
                None => out == Err::<Input, GenerationError>(GenerationError::Backend),
            },
            final(source)@ == source_after_generation(old(source)@, self.bound()),
            out matches Ok(input) ==> input@.len() >= 1 && forall|i: int|
                0 <= i < input@.len() ==> is_printable(#[trigger] input@[i]),
    {
        match printable(&mut source.generator, self.max_len) {
            Ok(bytes) => Ok(Input::new(bytes)),
            Err(_) => Err(GenerationError::Backend),
        }
    }
}

} // verus!
