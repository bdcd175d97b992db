//! A table of records, one to a slot.

use vstd::prelude::*;

use crate::identity::bytes_equal;
use crate::slot::SlotAddress;

verus! {

/// A record together with the slot that it occupies.
struct Entry<R> {
    slot: SlotAddress,
    record: R,
}

/// Entry `i` of `entries` is the one in `slot`.
spec fn holds<R>(entries: Seq<Entry<R>>, slot: Seq<u8>, i: int) -> bool {
    0 <= i < entries.len() && entries[i].slot@ == slot
}

/// No slot occurs twice in `entries`.
spec fn slots_distinct<R>(entries: Seq<Entry<R>>) -> bool {
    forall|i: int, j: int| 0 <= i < j < entries.len() ==> entries[i].slot@ != entries[j].slot@
}

/// The map from occupied slots to their records.
spec fn contents<R: View>(entries: Seq<Entry<R>>) -> Map<Seq<u8>, R::V> {
    Map::new(
        |slot: Seq<u8>| exists|i: int| holds(entries, slot, i),
        |slot: Seq<u8>| entries[choose|i: int| holds(entries, slot, i)].record@,
    )
}

/// Putting an entry where its slot already is, or at the end where its slot is
/// new, keeps the slots distinct and maps the slot to the new record.
proof fn lemma_put<R: View>(before: Seq<Entry<R>>, after: Seq<Entry<R>>, entry: Entry<R>)
    requires
        slots_distinct(before),
        (exists|i: int| holds(before, entry.slot@, i) && after == before.update(i, entry)) || ((
        forall|i: int| !holds(before, entry.slot@, i)) && after == before.push(entry)),
    ensures
        slots_distinct(after),
        contents(after) == contents(before).insert(entry.slot@, entry.record@),
{
    let slot = entry.slot@;
    let at: int = if exists|i: int| holds(before, slot, i) {
        choose|i: int| holds(before, slot, i) && after == before.update(i, entry)
    } else {
        before.len() as int
    };
    assert(holds(after, slot, at));
    assert forall|k: int| 0 <= k < after.len() && k != at implies after[k] == before[k]
        && holds(before, after[k].slot@, k) && after[k].slot@ != slot by {
        if at < before.len() {
            if k < at {
                assert(before[k].slot@ != before[at].slot@);
            } else {
                assert(before[at].slot@ != before[k].slot@);
            }
        } else {
            assert(!holds(before, slot, k));
        }
    }
    assert forall|s: Seq<u8>| #[trigger]
        contents(after).contains_key(s) == contents(before).insert(slot, entry.record@).contains_key(
            s,
        ) by {
        if s != slot {
            if exists|k: int| holds(before, s, k) {
                let k = choose|k: int| holds(before, s, k);
                assert(holds(after, s, k));
            }
            if exists|k: int| holds(after, s, k) {
                let k = choose|k: int| holds(after, s, k);
                assert(holds(before, s, k));
            }
        }
    }
    assert forall|s: Seq<u8>| #[trigger] contents(after).contains_key(s) implies contents(after)[s]
        == contents(before).insert(slot, entry.record@)[s] by {
        let k = choose|k: int| holds(after, s, k);
        if s != slot {
            assert(holds(before, s, k));
            let k0 = choose|k0: int| holds(before, s, k0);
            assert(k0 == k);
        } else {
            assert(k == at);
        }
    }
    assert(contents(after) =~= contents(before).insert(slot, entry.record@));
}

/// The records of one kind, each in its own slot.
///
/// As a mathematical object a table is a map from slot addresses to records.
pub struct SlotTable<R> {
    entries: Vec<Entry<R>>,
}

impl<R: View> View for SlotTable<R> {
    type V = Map<Seq<u8>, R::V>;

    closed spec fn view(&self) -> Map<Seq<u8>, R::V> {
        contents(self.entries@)
    }
}

impl<R> SlotTable<R> {
    /// No slot is occupied twice.
    #[verifier::type_invariant]
    spec fn well_formed(self) -> bool {
        slots_distinct(self.entries@)
    }
}

impl<R: View> SlotTable<R> {
    /// A table with every slot vacant.
    pub fn new() -> (table: Self)
        ensures
            table@ == Map::<Seq<u8>, R::V>::empty(),
    {
        let table = SlotTable { entries: Vec::new() };
        assert(table@ =~= Map::<Seq<u8>, R::V>::empty());
        table
    }

    /// Where in `entries` the record of `slot` is.
    fn position(&self, slot: &SlotAddress) -> (found: Option<usize>)
        ensures
            match found {
                Some(i) => holds(self.entries@, slot@, i as int),
                None => forall|i: int| !holds(self.entries@, slot@, i),
            },
    {
        let mut i: usize = 0;
        while i < self.entries.len()
            invariant
                0 <= i <= self.entries@.len(),
                forall|j: int| 0 <= j < i ==> self.entries@[j].slot@ != slot@,
            decreases self.entries@.len() - i,
        {
            if bytes_equal(&self.entries[i].slot.bytes, &slot.bytes) {
                return Some(i);
            }
            i += 1;
        }
        None
    }

    /// Whether `slot` is occupied.
    pub fn contains(&self, slot: &SlotAddress) -> (occupied: bool)
        ensures
            occupied == self@.contains_key(slot@),
    {
        self.position(slot).is_some()
    }

    /// The record in `slot`, if it is occupied.
    pub fn get(&self, slot: &SlotAddress) -> (found: Option<&R>)
        ensures
            match found {
                Some(record) => self@.contains_key(slot@) && record@ == self@[slot@],
                None => !self@.contains_key(slot@),
            },
    {
        proof {
            use_type_invariant(self);
        }
        match self.position(slot) {
            Some(i) => {
                proof {
                    let k = choose|k: int| holds(self.entries@, slot@, k);
                    assert(k == i);
                }
                Some(&self.entries[i].record)
            },
            None => None,
        }
    }

    /// Puts `record` in `slot`, in place of what was there.
    pub fn put(&mut self, slot: SlotAddress, record: R)
        ensures
            final(self)@ == old(self)@.insert(slot@, record@),
    {
        proof {
            use_type_invariant(&*self);
        }
        let found = self.position(&slot);
        let ghost before = self.entries@;
        let entry = Entry { slot, record };
        let ghost added = entry;
        let mut entries: Vec<Entry<R>> = Vec::new();
        std::mem::swap(&mut entries, &mut self.entries);
        match found {
            Some(i) => {
                entries.set(i, entry);
            },
            None => {
                entries.push(entry);
            },
        }
        proof {
            lemma_put(before, entries@, added);
        }
        self.entries = entries;
    }
}

} // verus!
