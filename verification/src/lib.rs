//! A coverage-guided greybox fuzzing engine.
//!
//! The engine runs a target on mutated inputs, reads the coverage signal that
//! each run leaves behind, keeps the inputs that reach something new and
//! records the inputs that make the target crash. Every component states its
//! behaviour over a mathematical model, and the statements are proved.

pub mod input;
pub mod coverage;
pub mod execution;
pub mod feedback;
pub mod corpus;
pub mod solutions;
pub mod scheduler;
pub mod random;
pub mod mutator;
pub mod harness;
pub mod fuzzer;
pub mod events;
