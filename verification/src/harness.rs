//! A small target to fuzz: it rewards inputs that begin with `abc` and
//! crashes on those that also end with `cba`.

use vstd::prelude::*;
use crate::coverage::CoverageMap;
use crate::execution::{Outcome, Target};
use crate::input::Input;

verus! {

/// How many of the bytes `a`, `b`, `c` the input begins with, in that order.
pub open spec fn matched_prefix(input: Seq<u8>) -> nat {
    if input.len() > 0 && input[0] == 97u8 {
        if input.len() > 1 && input[1] == 98u8 {
            if input.len() > 2 && input[2] == 99u8 {
                3
            } else {
                2
            }
        } else {
            1
        }
    } else {
        0
    }
}

/// The input ends with the bytes `c`, `b`, `a`.
pub open spec fn ends_with_cba(input: Seq<u8>) -> bool {
    input.len() >= 3 && input[input.len() - 3] == 99u8 && input[input.len() - 2] == 98u8
        && input[input.len() - 1] == 97u8
}

/// The input makes the target crash: it begins with `abc` and ends with `cba`.
pub open spec fn crashes(input: Seq<u8>) -> bool {
    matched_prefix(input) == 3 && ends_with_cba(input)
}

/// The map after a run on `input`: cell 0 is hit always, and cell `k` for
/// each of the first `k` bytes of `abc` that the input begins with. Cells
/// that the map lacks are left out; the others stay as they were.
pub open spec fn signals(input: Seq<u8>, before: Seq<u8>) -> Seq<u8> {
    Seq::new(
        before.len(),
        |i: int|
            if i <= matched_prefix(input) {
                1u8
            } else {
                before[i]
            },
    )
}

/// Marks cell `idx` of the coverage map as hit.
pub fn signals_set(map: &mut CoverageMap, idx: usize)
    requires
        idx < old(map)@.len(),
    ensures
        final(map)@ == old(map)@.update(idx as int, 1u8),
{
    map.set(idx);
}

/// The sample target.
#[derive(Clone, Copy, Debug)]
pub struct PrefixTarget {}

impl PrefixTarget {
    /// The sample target.
    pub fn new() -> (target: PrefixTarget) {
        PrefixTarget {  }
    }

    /// How many of the bytes `a`, `b`, `c` the input begins with.
    pub fn depth(input: &Input) -> (depth: usize)
        ensures
            depth == matched_prefix(input@),
    {
        let bytes = input.bytes();
        if bytes.len() > 0 && bytes[0] == 97u8 {
            if bytes.len() > 1 && bytes[1] == 98u8 {
                if bytes.len() > 2 && bytes[2] == 99u8 {
                    3
                } else {
                    2
                }
            } else {
                1
            }
        } else {
            0
        }
    }

    /// Whether the target crashes on `input`.
    pub fn would_crash(input: &Input) -> (crash: bool)
        ensures
            crash == crashes(input@),
    {
        let bytes = input.bytes();
        let n: usize = bytes.len();
        Self::depth(input) == 3 && bytes[n - 3] == 99u8 && bytes[n - 2] == 98u8 && bytes[n - 1]
            == 97u8
    }
}

impl Target for PrefixTarget {
    open spec fn outcome(&self, input: Seq<u8>) -> Outcome {
        if crashes(input) {
            Outcome::Crashed
        } else {
            Outcome::Completed
        }
    }

    open spec fn coverage(&self, input: Seq<u8>, before: Seq<u8>) -> Seq<u8> {
        signals(input, before)
    }

    fn execute(&self, input: &Input, map: &mut CoverageMap) -> (outcome: Outcome) {
        let depth: usize = Self::depth(input);
        let mut cell: usize = 0;
        while cell <= depth
            invariant
                depth <= 3,
                cell <= depth + 1,
                map@.len() == old(map)@.len(),
                forall|i: int| 0 <= i < map@.len() && i < cell ==> map@[i] == 1u8,
                forall|i: int| cell <= i < map@.len() ==> map@[i] == old(map)@[i],
            decreases depth + 1 - cell,
        {
            if cell < map.len() {
                signals_set(map, cell);
            }
            cell += 1;
        }
        assert(map@ =~= signals(input@, old(map)@));
        if Self::would_crash(input) {
            Outcome::Crashed
        } else {
            Outcome::Completed
        }
    }
}

} // verus!
