//! The corpus: the inputs that were kept because they reached something new.

use vstd::prelude::*;
use crate::input::Input;

verus! {

/// The stable identifier of a corpus entry: its position in insertion order.
#[derive(Clone, Copy, Debug, PartialEq, Eq, Structural)]
pub struct EntryId(pub usize);

/// Why the corpus could not answer.
#[derive(Clone, Copy, Debug, PartialEq, Eq, Structural)]
pub enum CorpusError {
    /// No entry has the identifier that was asked for.
    NotFound,
}

/// The model of a corpus entry.
pub ghost struct EntryModel {
    /// The identifier under which the entry was admitted.
    pub id: EntryId,
    /// The bytes of the input.
    pub input: Seq<u8>,
    /// The cells that the input was the first to raise, in rising order.
    pub fingerprint: Seq<usize>,
    /// How often the scheduler has picked the entry.
    pub times_selected: u64,
    /// Whether a scheduling policy prefers the entry.
    pub favored: bool,
}

/// An input that was kept, with what is known about it.
#[derive(Debug)]
pub struct CorpusEntry {
    id: EntryId,
    pub(crate) input: Input,
    fingerprint: Vec<usize>,
    times_selected: u64,
    favored: bool,
}

impl View for CorpusEntry {
    type V = EntryModel;

    closed spec fn view(&self) -> EntryModel {
        EntryModel {
            id: self.id,
            input: self.input@,
            fingerprint: self.fingerprint@,
            times_selected: self.times_selected,
            favored: self.favored,
        }
    }
}

impl CorpusEntry {
    /// The identifier of the entry.
    pub fn id(&self) -> (id: EntryId)
        ensures
            id == self@.id,
    {
        self.id
    }

    /// The input of the entry.
    pub fn input(&self) -> (input: &Input)
        ensures
            input@ == self@.input,
    {
        &self.input
    }

    /// The cells that the input was the first to raise.
    pub fn fingerprint(&self) -> (cells: &Vec<usize>)
        ensures
            cells@ == self@.fingerprint,
    {
        &self.fingerprint
    }

    /// How often the scheduler has picked the entry.
    pub fn times_selected(&self) -> (n: u64)
        ensures
            n == self@.times_selected,
    {
        self.times_selected
    }

    /// Whether a scheduling policy prefers the entry.
    pub fn is_favored(&self) -> (f: bool)
        ensures
            f == self@.favored,
    {
        self.favored
    }
}

/// One more selection, counted up to the largest number that fits.
pub open spec fn counted_once_more(n: u64) -> u64 {
    if n < u64::MAX {
        (n + 1) as u64
    } else {
        n
    }
}

/// The entry that `add` stores for `input` in a corpus of `len` entries.
pub open spec fn fresh_entry(len: nat, input: Seq<u8>, fingerprint: Seq<usize>) -> EntryModel {
    EntryModel {
        id: EntryId(len as usize),
        input,
        fingerprint,
        times_selected: 0,
        favored: false,
    }
}

/// The inputs of the entries `entries`, in their order.
pub open spec fn inputs_of(entries: Seq<EntryModel>) -> Seq<Seq<u8>> {
    Seq::new(entries.len(), |i: int| entries[i].input)
}

/// Every entry carries its position as its identifier.
pub open spec fn ids_are_positions(entries: Seq<EntryModel>) -> bool {
    forall|i: int| 0 <= i < entries.len() ==> (#[trigger] entries[i]).id == EntryId(i as usize)
}

/// `later` continues `earlier`: the entries of `earlier` are still there, in
/// their places, with the same identifier, input and fingerprint. Only the
/// scheduling metadata of an entry may differ.
pub open spec fn extends(later: Seq<EntryModel>, earlier: Seq<EntryModel>) -> bool {
    &&& earlier.len() <= later.len()
    &&& forall|i: int|
        0 <= i < earlier.len() ==> {
            &&& (#[trigger] later[i]).id == earlier[i].id
            &&& later[i].input == earlier[i].input
            &&& later[i].fingerprint == earlier[i].fingerprint
        }
}

/// The inputs that were kept, in the order in which they were admitted.
///
/// The model is the sequence of the entries. Entries are only ever appended;
/// an entry's identifier, input and fingerprint never change.
#[derive(Debug)]
pub struct Corpus {
    pub(crate) entries: Vec<CorpusEntry>,
}

impl View for Corpus {
    type V = Seq<EntryModel>;

    closed spec fn view(&self) -> Seq<EntryModel> {
        Seq::new(self.entries@.len(), |i: int| self.entries@[i]@)
    }
}

impl Corpus {
    /// The invariant of the corpus: identifiers are positions.
    pub open spec fn wf(&self) -> bool {
        ids_are_positions(self@)
    }

    /// The corpus without entries.
    pub fn new() -> (corpus: Corpus)
        ensures
            corpus.wf(),
            corpus@ == Seq::<EntryModel>::empty(),
    {
        let corpus = Corpus { entries: Vec::new() };
        assert(corpus@ =~= Seq::<EntryModel>::empty());
        corpus
    }

    /// The number of entries.
    pub fn len(&self) -> (n: usize)
        ensures
            n == self@.len(),
    {
        self.entries.len()
    }

    /// Whether the corpus has no entry.
    pub fn is_empty(&self) -> (e: bool)
        ensures
            e == (self@.len() == 0),
    {
        self.entries.len() == 0
    }

    /// Appends `input` with its fingerprint and returns the identifier it got:
    /// the number of entries before.
    pub fn add(&mut self, input: Input, fingerprint: Vec<usize>) -> (id: EntryId)
        requires
            old(self).wf(),
        ensures
            final(self).wf(),
            id == EntryId(old(self)@.len() as usize),
            final(self)@ == old(self)@.push(fresh_entry(old(self)@.len(), input@, fingerprint@)),
            extends(final(self)@, old(self)@),
    {
        let id = EntryId(self.entries.len());
        let entry = CorpusEntry { id, input, fingerprint, times_selected: 0, favored: false };
        self.entries.push(entry);
        assert(self@ =~= old(self)@.push(fresh_entry(old(self)@.len(), input@, fingerprint@)));
        id
    }

    /// The entry with identifier `id`, or `NotFound` if there is none.
    pub fn get(&self, id: EntryId) -> (found: Result<&CorpusEntry, CorpusError>)
        ensures
            id.0 < self@.len() ==> found is Ok && found->Ok_0@ == self@[id.0 as int],
            id.0 >= self@.len() ==> found == Err::<&CorpusEntry, CorpusError>(CorpusError::NotFound),
    {
        if id.0 < self.entries.len() {
            Ok(&self.entries[id.0])
        } else {
            Err(CorpusError::NotFound)
        }
    }

    /// The entry at `position` in insertion order, if there is one.
    pub fn entry_at(&self, position: usize) -> (found: Option<&CorpusEntry>)
        ensures
            position < self@.len() ==> found is Some && found->Some_0@ == self@[position as int],
            position >= self@.len() ==> found is None,
    {
        if position < self.entries.len() {
            Some(&self.entries[position])
        } else {
            None
        }
    }

    /// The identifiers of all entries, in insertion order.
    pub fn ids(&self) -> (ids: Vec<EntryId>)
        ensures
            ids@.len() == self@.len(),
            forall|i: int| 0 <= i < ids@.len() ==> ids@[i] == self@[i].id,
    {
        let mut ids: Vec<EntryId> = Vec::new();
        let mut i: usize = 0;
        while i < self.entries.len()
            invariant
                i <= self.entries@.len(),
                ids@.len() == i,
                forall|j: int| 0 <= j < i ==> ids@[j] == self@[j].id,
            decreases self.entries@.len() - i,
        {
            ids.push(self.entries[i].id);
            i += 1;
        }
        ids
    }

    /// Counts one more selection of entry `id`, or says `NotFound`. The count
    /// stops at the largest number that fits.
    pub fn record_selection(&mut self, id: EntryId) -> (done: Result<(), CorpusError>)
        requires
            old(self).wf(),
        ensures
            final(self).wf(),
            extends(final(self)@, old(self)@),
            id.0 >= old(self)@.len() ==> done == Err::<(), CorpusError>(CorpusError::NotFound)
                && final(self)@ == old(self)@,
            id.0 < old(self)@.len() ==> done is Ok && final(self)@ == old(self)@.update(
                id.0 as int,
                EntryModel {
                    times_selected: counted_once_more(old(self)@[id.0 as int].times_selected),
                    ..old(self)@[id.0 as int]
                },
            ),
    {
        if id.0 < self.entries.len() {
            let n: u64 = self.entries[id.0].times_selected;
            if n < u64::MAX {
                self.entries[id.0].times_selected = n + 1;
            }
            assert(self@ =~= old(self)@.update(
                id.0 as int,
                EntryModel {
                    times_selected: counted_once_more(old(self)@[id.0 as int].times_selected),
                    ..old(self)@[id.0 as int]
                },
            ));
            Ok(())
        } else {
            Err(CorpusError::NotFound)
        }
    }

    /// Marks entry `id` as favored or not, or says `NotFound`.
    pub fn set_favored(&mut self, id: EntryId, favored: bool) -> (done: Result<(), CorpusError>)
        requires
            old(self).wf(),
        ensures
            final(self).wf(),
            extends(final(self)@, old(self)@),
            id.0 >= old(self)@.len() ==> done == Err::<(), CorpusError>(CorpusError::NotFound)
                && final(self)@ == old(self)@,
            id.0 < old(self)@.len() ==> done is Ok && final(self)@ == old(self)@.update(
                id.0 as int,
                EntryModel { favored, ..old(self)@[id.0 as int] },
            ),
    {
        if id.0 < self.entries.len() {
            self.entries[id.0].favored = favored;
            assert(self@ =~= old(self)@.update(
                id.0 as int,
                EntryModel { favored, ..old(self)@[id.0 as int] },
            ));
            Ok(())
        } else {
            Err(CorpusError::NotFound)
        }
    }
}

} // verus!
