//! Test cases: byte strings handed to the target.

use vstd::prelude::*;

verus! {

/// One test case. Its model is the sequence of its bytes.
///
/// An input never changes after it was made: mutation builds a new one.
#[derive(Debug)]
pub struct Input {
    pub(crate) bytes: Vec<u8>,
}

impl View for Input {
    type V = Seq<u8>;

    closed spec fn view(&self) -> Seq<u8> {
        self.bytes@
    }
}

/// A copy of `bytes`, element by element.
pub fn copy_bytes(bytes: &Vec<u8>) -> (copy: Vec<u8>)
    ensures
        copy@ == bytes@,
{
    let mut copy: Vec<u8> = Vec::new();
    let mut i: usize = 0;
    while i < bytes.len()
        invariant
            i <= bytes.len(),
            copy@ == bytes@.take(i as int),
        decreases bytes.len() - i,
    {
        copy.push(bytes[i]);
        i += 1;
        assert(copy@ =~= bytes@.take(i as int));
    }
    assert(bytes@.take(bytes.len() as int) =~= bytes@);
    copy
}

impl Input {
    /// The input that holds exactly `bytes`.
    pub fn new(bytes: Vec<u8>) -> (input: Input)
        ensures
            input@ == bytes@,
    {
        Input { bytes }
    }

    /// The input without any byte.
    pub fn empty() -> (input: Input)
        ensures
            input@ == Seq::<u8>::empty(),
    {
        Input { bytes: Vec::new() }
    }

    /// The bytes of the input.
    pub fn bytes(&self) -> (bytes: &Vec<u8>)
        ensures
            bytes@ == self@,
    {
        &self.bytes
    }

    /// The number of bytes.
    pub fn len(&self) -> (n: usize)
        ensures
            n == self@.len(),
    {
        self.bytes.len()
    }

    /// Whether the input holds no byte.
    pub fn is_empty(&self) -> (e: bool)
        ensures
            e == (self@.len() == 0),
    {
        self.bytes.len() == 0
    }

    /// The bytes of the input, as a vector of the caller's own.
    pub fn to_vec(&self) -> (bytes: Vec<u8>)
        ensures
            bytes@ == self@,
    {
        copy_bytes(&self.bytes)
    }
}

impl Clone for Input {
    fn clone(&self) -> (copy: Input)
        ensures
            copy@ == self@,
    {
        Input { bytes: copy_bytes(&self.bytes) }
    }
}

} // verus!
