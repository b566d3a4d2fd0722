//! What a session tells its monitor: new entries, new solutions, progress.
//!
//! The fuzzer never waits for a monitor and never depends on one. The
//! events are computed from the numbers of the session; whoever shows them
//! may show them, drop them or fail.

use vstd::prelude::*;
use crate::corpus::EntryId;
use crate::fuzzer::Stats;

verus! {

/// One thing to tell the monitor.
#[derive(Clone, Copy, Debug, PartialEq, Eq)]
pub enum Event {
    /// The corpus gained the entry with this identifier.
    NewEntry(EntryId),
    /// The solutions gained an entry at this position.
    NewSolution(usize),
    /// The numbers of the session.
    Progress(Stats),
}

/// One event for each entry from position `from` up to, not including,
/// position `to`, in rising order.
pub open spec fn entry_events(from: usize, to: usize) -> Seq<Event> {
    if to <= from {
        Seq::empty()
    } else {
        Seq::new((to - from) as nat, |i: int| Event::NewEntry(EntryId((from + i) as usize)))
    }
}

/// One event for each solution from position `from` up to, not including,
/// position `to`, in rising order.
pub open spec fn solution_events(from: usize, to: usize) -> Seq<Event> {
    if to <= from {
        Seq::empty()
    } else {
        Seq::new((to - from) as nat, |i: int| Event::NewSolution((from + i) as usize))
    }
}

/// The events for a session that went from the numbers `before` to the
/// numbers `after`: the new entries, then the new solutions, then the
/// progress.
pub open spec fn announced(before: Stats, after: Stats) -> Seq<Event> {
    entry_events(before.corpus_size, after.corpus_size) + solution_events(
        before.solutions,
        after.solutions,
    ) + seq![Event::Progress(after)]
}

/// The events to send for a session that went from `before` to `after`.
pub fn events_between(before: Stats, after: Stats) -> (events: Vec<Event>)
    ensures
        events@ == announced(before, after),
{
    let mut events: Vec<Event> = Vec::new();
    let mut entry: usize = before.corpus_size;
    while entry < after.corpus_size
        invariant
            before.corpus_size <= entry,
            entry <= after.corpus_size || entry == before.corpus_size,
            events@ == entry_events(before.corpus_size, entry),
        decreases after.corpus_size - entry,
    {
        events.push(Event::NewEntry(EntryId(entry)));
        entry += 1;
        assert(events@ =~= entry_events(before.corpus_size, entry));
    }
    assert(events@ =~= entry_events(before.corpus_size, after.corpus_size));
    let ghost entries = events@;
    let mut position: usize = before.solutions;
    while position < after.solutions
        invariant
            before.solutions <= position,
            position <= after.solutions || position == before.solutions,
            events@ == entries + solution_events(before.solutions, position),
        decreases after.solutions - position,
    {
        events.push(Event::NewSolution(position));
        position += 1;
        assert(events@ =~= entries + solution_events(before.solutions, position));
    }
    assert(events@ =~= entries + solution_events(before.solutions, after.solutions));
    events.push(Event::Progress(after));
    events
}

} // verus!
