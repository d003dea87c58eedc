//! The claim store: the map from claims to their ownership records.
//!
//! Claims are kept in a vector of entries in which no claim occurs twice, so
//! that the store stands for a map keyed by the claims' bytes.

use vstd::prelude::*;
use crate::types::{OwnershipRecord, OwnershipRecordView};

verus! {

/// One claim with its record.
struct Entry {
    claim: Vec<u8>,
    record: OwnershipRecord,
}

/// Whether some entry is about `claim`.
spec fn holds(entries: Seq<Entry>, claim: Seq<u8>) -> bool {
    exists|i: int| 0 <= i < entries.len() && entries[i].claim@ == claim
}

/// The place of an entry about `claim`, where there is one.
spec fn slot(entries: Seq<Entry>, claim: Seq<u8>) -> int {
    choose|i: int| 0 <= i < entries.len() && entries[i].claim@ == claim
}

/// No two entries are about the same claim.
spec fn distinct(entries: Seq<Entry>) -> bool {
    forall|i: int, j: int| 0 <= i < j < entries.len() ==> entries[i].claim@ != entries[j].claim@
}

/// The map that the entries stand for.
spec fn contents(entries: Seq<Entry>) -> Map<Seq<u8>, OwnershipRecordView> {
    Map::new(
        |claim: Seq<u8>| holds(entries, claim),
        |claim: Seq<u8>| entries[slot(entries, claim)].record@,
    )
}

/// Among distinct entries, each claim is found at its own place.
proof fn lemma_slot(entries: Seq<Entry>, i: int)
    requires
        distinct(entries),
        0 <= i < entries.len(),
    ensures
        holds(entries, entries[i].claim@),
        slot(entries, entries[i].claim@) == i,
        contents(entries)[entries[i].claim@] == entries[i].record@,
{
    let j = slot(entries, entries[i].claim@);
    assert(0 <= j < entries.len() && entries[j].claim@ == entries[i].claim@);
    if j < i {
        assert(entries[j].claim@ != entries[i].claim@);
    } else if i < j {
        assert(entries[i].claim@ != entries[j].claim@);
    }
}

/// Appending an entry about a claim that is not yet held inserts it.
proof fn lemma_push(entries: Seq<Entry>, entry: Entry)
    requires
        distinct(entries),
        !holds(entries, entry.claim@),
    ensures
        distinct(entries.push(entry)),
        contents(entries.push(entry)) == contents(entries).insert(entry.claim@, entry.record@),
{
    let after = entries.push(entry);
    let last = entries.len() as int;
    assert(after[last] == entry);
    assert forall|i: int, j: int| 0 <= i < j < after.len() implies after[i].claim@
        != after[j].claim@ by {
        assert(after[i] == entries[i]);
        if j < last {
            assert(after[j] == entries[j]);
        }
    }
    assert forall|claim: Seq<u8>| holds(after, claim) <==> (holds(entries, claim) || claim
        == entry.claim@) by {
        if holds(entries, claim) {
            let i = slot(entries, claim);
            assert(after[i] == entries[i]);
        }
        if holds(after, claim) {
            let i = slot(after, claim);
            if i < last {
                assert(after[i] == entries[i]);
            }
        }
    }
    assert forall|claim: Seq<u8>| holds(after, claim) implies #[trigger] contents(after)[claim]
        == contents(entries).insert(entry.claim@, entry.record@)[claim] by {
        let i = slot(after, claim);
        lemma_slot(after, i);
        if i < last {
            assert(after[i] == entries[i]);
            lemma_slot(entries, i);
        }
    }
    assert(contents(after) =~= contents(entries).insert(entry.claim@, entry.record@));
}

/// Replacing the record of a held claim overwrites it.
proof fn lemma_update(entries: Seq<Entry>, i: int, entry: Entry)
    requires
        distinct(entries),
        0 <= i < entries.len(),
        entry.claim@ == entries[i].claim@,
    ensures
        distinct(entries.update(i, entry)),
        contents(entries.update(i, entry)) == contents(entries).insert(
            entry.claim@,
            entry.record@,
        ),
{
    let after = entries.update(i, entry);
    assert forall|a: int, b: int| 0 <= a < b < after.len() implies after[a].claim@
        != after[b].claim@ by {
        assert(after[a].claim@ == entries[a].claim@);
        assert(after[b].claim@ == entries[b].claim@);
    }
    assert forall|claim: Seq<u8>| holds(after, claim) <==> holds(entries, claim) by {
        if holds(entries, claim) {
            let j = slot(entries, claim);
            assert(after[j].claim@ == entries[j].claim@);
        }
        if holds(after, claim) {
            let j = slot(after, claim);
            assert(after[j].claim@ == entries[j].claim@);
        }
    }
    lemma_slot(entries, i);
    assert forall|claim: Seq<u8>| holds(after, claim) implies #[trigger] contents(after)[claim]
        == contents(entries).insert(entry.claim@, entry.record@)[claim] by {
        let j = slot(after, claim);
        lemma_slot(after, j);
        if j != i {
            assert(after[j] == entries[j]);
            lemma_slot(entries, j);
        }
    }
    assert(contents(after) =~= contents(entries).insert(entry.claim@, entry.record@));
}

/// Dropping the entry of a held claim removes the claim.
proof fn lemma_remove(entries: Seq<Entry>, i: int)
    requires
        distinct(entries),
        0 <= i < entries.len(),
    ensures
        distinct(entries.remove(i)),
        contents(entries.remove(i)) == contents(entries).remove(entries[i].claim@),
{
    let after = entries.remove(i);
    let gone = entries[i].claim@;
    assert forall|a: int| 0 <= a < after.len() implies after[a] == entries[if a < i {
        a
    } else {
        a + 1
    }] by {}
    assert forall|a: int, b: int| 0 <= a < b < after.len() implies after[a].claim@
        != after[b].claim@ by {
        let a0 = if a < i { a } else { a + 1 };
        let b0 = if b < i { b } else { b + 1 };
        assert(after[a] == entries[a0]);
        assert(after[b] == entries[b0]);
    }
    assert forall|claim: Seq<u8>| holds(after, claim) <==> (holds(entries, claim) && claim
        != gone) by {
        if holds(entries, claim) && claim != gone {
            let j = slot(entries, claim);
            let j1 = if j < i { j } else { j - 1 };
            assert(after[j1] == entries[j]);
        }
        if holds(after, claim) {
            let j = slot(after, claim);
            let j0 = if j < i { j } else { j + 1 };
            assert(after[j] == entries[j0]);
            lemma_slot(entries, j0);
            lemma_slot(entries, i);
        }
    }
    assert forall|claim: Seq<u8>| holds(after, claim) implies #[trigger] contents(after)[claim]
        == contents(entries).remove(gone)[claim] by {
        let j = slot(after, claim);
        let j0 = if j < i { j } else { j + 1 };
        lemma_slot(after, j);
        assert(after[j] == entries[j0]);
        lemma_slot(entries, j0);
    }
    assert(contents(after) =~= contents(entries).remove(gone));
}

/// A map from claims to ownership records. Its value is a
/// `Map<Seq<u8>, OwnershipRecordView>` keyed by the claims' bytes.
pub struct ClaimStore {
    entries: Vec<Entry>,
}

impl View for ClaimStore {
    type V = Map<Seq<u8>, OwnershipRecordView>;

    closed spec fn view(&self) -> Map<Seq<u8>, OwnershipRecordView> {
        contents(self.entries@)
    }
}

impl ClaimStore {
    #[verifier::type_invariant]
    spec fn well_formed(self) -> bool {
        distinct(self.entries@)
    }

    /// A store that holds no claim.
    pub fn new() -> (store: ClaimStore)
        ensures
            store@ == Map::<Seq<u8>, OwnershipRecordView>::empty(),
    {
        let store = ClaimStore { entries: Vec::new() };
        assert(store@ =~= Map::<Seq<u8>, OwnershipRecordView>::empty());
        store
    }

    /// The place of the entry about `claim`, if the store holds the claim.
    fn position(&self, claim: &Vec<u8>) -> (found: Option<usize>)
        ensures
            (match found {
                Some(i) => i < self.entries@.len() && self.entries@[i as int].claim@ == claim@,
                None => !holds(self.entries@, claim@),
            }),
    {
        let mut i: usize = 0;
        while i < self.entries.len()
            invariant
                i <= self.entries@.len(),
                forall|j: int| 0 <= j < i ==> self.entries@[j].claim@ != claim@,
            decreases self.entries@.len() - i,
        {
            if self.entries[i].claim == *claim {
                assert(self.entries@[i as int].claim@ =~= claim@);
                return Some(i);
            }
            assert(!(self.entries@[i as int].claim@ =~= claim@));
            i += 1;
        }
        None
    }

    /// Whether the store holds `claim`.
    pub fn contains_key(&self, claim: &Vec<u8>) -> (held: bool)
        ensures
            held == self@.contains_key(claim@),
    {
        self.position(claim).is_some()
    }

    /// The record of `claim`, or `None` where the store does not hold it.
    pub fn get(&self, claim: &Vec<u8>) -> (found: Option<&OwnershipRecord>)
        ensures
            (match found {
                Some(record) => self@.contains_key(claim@) && self@[claim@] == record@,
                None => !self@.contains_key(claim@),
            }),
    {
        proof {
            use_type_invariant(self);
        }
        match self.position(claim) {
            Some(i) => {
                proof {
                    lemma_slot(self.entries@, i as int);
                }
                Some(&self.entries[i].record)
            },
            None => None,
        }
    }

    /// Puts `record` under `claim`, in place of the record that the claim
    /// had, if it had one.
    pub fn insert(&mut self, claim: Vec<u8>, record: OwnershipRecord)
        ensures
            final(self)@ == old(self)@.insert(claim@, record@),
    {
        proof {
            use_type_invariant(&*self);
        }
        let found = self.position(&claim);
        let mut entries = Vec::new();
        std::mem::swap(&mut entries, &mut self.entries);
        let entry = Entry { claim, record };
        match found {
            Some(i) => {
                proof {
                    lemma_update(entries@, i as int, entry);
                }
                entries.set(i, entry);
            },
            None => {
                proof {
                    lemma_push(entries@, entry);
                }
                entries.push(entry);
            },
        }
        self.entries = entries;
    }

    /// Takes `claim` and its record out of the store. A claim that the store
    /// does not hold leaves it as it is.
    pub fn remove(&mut self, claim: &Vec<u8>)
        ensures
            final(self)@ == old(self)@.remove(claim@),
    {
        proof {
            use_type_invariant(&*self);
        }
        match self.position(claim) {
            Some(i) => {
                let mut entries = Vec::new();
                std::mem::swap(&mut entries, &mut self.entries);
                proof {
                    lemma_remove(entries@, i as int);
                }
                entries.remove(i);
                self.entries = entries;
            },
            None => {
                assert(old(self)@.remove(claim@) =~= old(self)@);
            },
        }
    }
}

} // verus!
