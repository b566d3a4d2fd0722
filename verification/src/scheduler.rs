//! The queue scheduler: every entry in turn, then from the start again.

use vstd::prelude::*;
use crate::corpus::EntryId;

verus! {

/// Why the scheduler could not name an entry.
#[derive(Clone, Copy, Debug, PartialEq, Eq, Structural)]
pub enum SchedulerError {
    /// The scheduler was told of no entry yet.
    Empty,
}

/// The model of the queue scheduler.
pub ghost struct QueueModel {
    /// The entries that the scheduler was told of, in that order.
    pub queue: Seq<EntryId>,
    /// The position in `queue` that the last call of `next` picked.
    pub last: Option<usize>,
}

impl QueueModel {
    /// The position that was picked last exists, and no entry is queued twice.
    pub open spec fn wf(self) -> bool {
        &&& self.last matches Some(p) ==> p < self.queue.len()
        &&& forall|i: int, j: int|
            0 <= i < j < self.queue.len() ==> self.queue[i] != self.queue[j]
    }

    /// The position that the next call of `next` picks: the one behind the
    /// last pick, or the first where there is none behind it.
    pub open spec fn upcoming(self) -> int {
        match self.last {
            Some(p) => if p + 1 < self.queue.len() {
                p + 1
            } else {
                0
            },
            None => 0,
        }
    }

    /// The scheduler after one call of `next` on a queue that is not empty.
    pub open spec fn advanced(self) -> QueueModel {
        QueueModel { queue: self.queue, last: Some(self.upcoming() as usize) }
    }

    /// The scheduler after `calls` calls of `next`.
    pub open spec fn after(self, calls: nat) -> QueueModel
        decreases calls,
    {
        if calls == 0 {
            self
        } else {
            self.after((calls - 1) as nat).advanced()
        }
    }

    /// The position that call number `call` picks, counting from 0.
    pub open spec fn turn(self, call: nat) -> int {
        self.after(call).upcoming()
    }

    /// One of the next calls of `next`, as many as the queue has entries,
    /// picks `position`.
    pub open spec fn visits(self, position: int) -> bool {
        exists|call: nat| call < self.queue.len() && #[trigger] self.turn(call) == position
    }

    /// The scheduler after it was told of `id`: a new entry goes to the end
    /// of the queue, a known one changes nothing.
    pub open spec fn told(self, id: EntryId) -> QueueModel {
        if self.queue.contains(id) {
            self
        } else {
            QueueModel { queue: self.queue.push(id), last: self.last }
        }
    }
}

/// During the first round the picks walk on from the first pick and wrap
/// once at the end of the queue.
pub proof fn turns_walk_the_queue(model: QueueModel, call: nat)
    requires
        model.wf(),
        call < model.queue.len() <= usize::MAX,
    ensures
        model.after(call).queue == model.queue,
        model.after(call).wf(),
        model.turn(call) == if model.upcoming() + call < model.queue.len() {
            model.upcoming() + call
        } else {
            model.upcoming() + call - model.queue.len()
        },
    decreases call,
{
    if call > 0 {
        turns_walk_the_queue(model, (call - 1) as nat);
    }
}

/// Queue fairness: as many calls of `next` as the queue has entries, with no
/// entry added in between, pick every entry, and none of them twice.
pub proof fn queue_is_fair(model: QueueModel)
    requires
        model.wf(),
        0 < model.queue.len() <= usize::MAX,
    ensures
        forall|position: int| 0 <= position < model.queue.len() ==> #[trigger] model.visits(position),
        forall|a: nat, b: nat|
            a < b < model.queue.len() ==> model.queue[#[trigger] model.turn(a)]
                != model.queue[#[trigger] model.turn(b)],
{
    let n = model.queue.len();
    let first = model.upcoming();
    assert forall|position: int| 0 <= position < n implies #[trigger] model.visits(position) by {
        let call: nat = if position >= first {
            (position - first) as nat
        } else {
            (position + n - first) as nat
        };
        turns_walk_the_queue(model, call);
        assert(model.turn(call) == position);
    }
    assert forall|a: nat, b: nat| a < b < n implies model.queue[#[trigger] model.turn(a)]
        != model.queue[#[trigger] model.turn(b)] by {
        turns_walk_the_queue(model, a);
        turns_walk_the_queue(model, b);
    }
}

/// Hands out the entries of the corpus one after the other, for ever.
///
/// The scheduler knows entries by their identifiers only. Its model says
/// which entries it was told of and where in that queue it stands.
#[derive(Debug)]
pub struct QueueScheduler {
    queue: Vec<EntryId>,
    last: Option<usize>,
}

impl View for QueueScheduler {
    type V = QueueModel;

    closed spec fn view(&self) -> QueueModel {
        QueueModel { queue: self.queue@, last: self.last }
    }
}

impl QueueScheduler {
    /// A scheduler that was told of no entry.
    pub fn new() -> (scheduler: QueueScheduler)
        ensures
            scheduler@.wf(),
            scheduler@ == (QueueModel { queue: Seq::empty(), last: None }),
    {
        QueueScheduler { queue: Vec::new(), last: None }
    }

    /// The number of entries that the scheduler was told of.
    pub fn len(&self) -> (n: usize)
        ensures
            n == self@.queue.len(),
    {
        self.queue.len()
    }

    /// Whether the scheduler was told of entry `id`.
    pub fn knows(&self, id: EntryId) -> (known: bool)
        ensures
            known == self@.queue.contains(id),
    {
        let mut i: usize = 0;
        while i < self.queue.len()
            invariant
                i <= self.queue@.len(),
                forall|j: int| 0 <= j < i ==> self.queue@[j] != id,
            decreases self.queue@.len() - i,
        {
            if self.queue[i] == id {
                return true;
            }
            i += 1;
        }
        false
    }

    /// Tells the scheduler that entry `id` was admitted to the corpus.
    pub fn on_add(&mut self, id: EntryId)
        requires
            old(self)@.wf(),
        ensures
            final(self)@.wf(),
            final(self)@ == old(self)@.told(id),
    {
        if !self.knows(id) {
            self.queue.push(id);
        }
    }

    /// The entry to work on next. On an empty queue the answer is `Empty`
    /// and nothing changes; otherwise the answer is the entry at the upcoming
    /// position, at once, and the scheduler moves on to it.
    pub fn next(&mut self) -> (picked: Result<EntryId, SchedulerError>)
        requires
            old(self)@.wf(),
        ensures
            final(self)@.wf(),
            old(self)@.queue.len() == 0 ==> picked == Err::<EntryId, SchedulerError>(
                SchedulerError::Empty,
            ) && final(self)@ == old(self)@,
            old(self)@.queue.len() > 0 ==> picked == Ok::<EntryId, SchedulerError>(
                old(self)@.queue[old(self)@.upcoming()],
            ) && final(self)@ == old(self)@.advanced(),
    {
        if self.queue.len() == 0 {
            return Err(SchedulerError::Empty);
        }
        let position: usize = match self.last {
            Some(p) => if p + 1 < self.queue.len() {
                p + 1
            } else {
                0
            },
            None => 0,
        };
        self.last = Some(position);
        Ok(self.queue[position])
    }
}

} // verus!
