//! The watcher's record of the newest modification time seen per source.

use vstd::prelude::*;

verus! {

/// One line of the ledger.
struct Entry {
    id: String,
    stamp: u64,
}

/// Maps a source identifier to the newest modification time (in whole
/// seconds) that the watcher has seen for it.
///
/// The ledger starts empty and only grows: an identifier, once recorded, is
/// never removed, and its time never goes back.
pub struct ModificationLedger {
    entries: Vec<Entry>,
}

/// Whether `id` stands at index `i` of `entries`.
spec fn holds_at(entries: Seq<Entry>, id: Seq<char>, i: int) -> bool {
    0 <= i < entries.len() && entries[i].id@ == id
}

/// No identifier occurs twice.
spec fn distinct(entries: Seq<Entry>) -> bool {
    forall|i: int, j: int|
        0 <= i < j < entries.len() ==> #[trigger] entries[i].id@ != #[trigger] entries[j].id@
}

/// The map that a list of entries with distinct identifiers stands for.
spec fn as_map(entries: Seq<Entry>) -> Map<Seq<char>, u64> {
    Map::new(
        |id: Seq<char>| exists|i: int| holds_at(entries, id, i),
        |id: Seq<char>| entries[choose|i: int| holds_at(entries, id, i)].stamp,
    )
}

/// With distinct identifiers, the entry at `i` is what the map holds for its
/// identifier.
proof fn lemma_entry_in_map(entries: Seq<Entry>, i: int)
    requires
        distinct(entries),
        0 <= i < entries.len(),
    ensures
        as_map(entries).contains_key(entries[i].id@),
        as_map(entries)[entries[i].id@] == entries[i].stamp,
{
    let id = entries[i].id@;
    assert(holds_at(entries, id, i));
    let k = choose|k: int| holds_at(entries, id, k);
    assert(holds_at(entries, id, k));
    if k < i {
        assert(entries[k].id@ != entries[i].id@);
    } else if i < k {
        assert(entries[i].id@ != entries[k].id@);
    }
}

impl View for ModificationLedger {
    type V = Map<Seq<char>, u64>;

    closed spec fn view(&self) -> Map<Seq<char>, u64> {
        as_map(self.entries@)
    }
}

impl ModificationLedger {
    #[verifier::type_invariant]
    spec fn well_formed(self) -> bool {
        distinct(self.entries@)
    }

    /// The empty ledger.
    pub fn new() -> (ledger: ModificationLedger)
        ensures
            ledger@ == Map::<Seq<char>, u64>::empty(),
    {
        let ledger = ModificationLedger { entries: Vec::new() };
        assert(ledger@ =~= Map::<Seq<char>, u64>::empty());
        ledger
    }

    /// Where `id` stands in the list, if it is recorded.
    fn position(&self, id: &String) -> (found: Option<usize>)
        ensures
            match found {
                Some(i) => holds_at(self.entries@, id@, i as int),
                None => !self@.contains_key(id@),
            },
    {
        let mut i: usize = 0;
        while i < self.entries.len()
            invariant
                i <= self.entries.len(),
                forall|k: int| 0 <= k < i ==> !holds_at(self.entries@, id@, k),
            decreases self.entries.len() - i,
        {
            if self.entries[i].id == *id {
                return Some(i);
            }
            i += 1;
        }
        None
    }

    /// The modification time recorded for `id`.
    pub fn last_seen(&self, id: &String) -> (stamp: Option<u64>)
        ensures
            stamp == (if self@.contains_key(id@) {
                Some(self@[id@])
            } else {
                None
            }),
    {
        proof {
            use_type_invariant(self);
        }
        match self.position(id) {
            Some(i) => {
                proof {
                    lemma_entry_in_map(self.entries@, i as int);
                }
                Some(self.entries[i].stamp)
            },
            None => None,
        }
    }

    /// The number of identifiers on record.
    pub fn len(&self) -> (n: usize)
        ensures
            n == self@.dom().len(),
            self@.dom().finite(),
    {
        proof {
            use_type_invariant(self);
            lemma_domain_size(self.entries@);
        }
        self.entries.len()
    }

    /// Takes note of a file's modification time, and says whether that is
    /// news: the identifier was not on record yet, or its recorded time is
    /// strictly older. Only then does the ledger change.
    pub fn record(&mut self, id: &String, modified: u64) -> (advanced: bool)
        ensures
            advanced == is_news(old(self)@, id@, modified),
            final(self)@ == noted(old(self)@, id@, modified),
    {
        proof {
            use_type_invariant(&*self);
        }
        let found = self.position(id);
        let mut entries: Vec<Entry> = Vec::new();
        std::mem::swap(&mut entries, &mut self.entries);
        let ghost before = entries@;
        let advanced = match found {
            Some(i) => {
                proof {
                    lemma_entry_in_map(before, i as int);
                }
                if entries[i].stamp < modified {
                    entries.set(i, Entry { id: id.clone(), stamp: modified });
                    proof {
                        lemma_update_is_insert(before, entries@, i as int);
                    }
                    true
                } else {
                    false
                }
            },
            None => {
                entries.push(Entry { id: id.clone(), stamp: modified });
                proof {
                    lemma_append_is_insert(before, entries@);
                }
                true
            },
        };
        self.entries = entries;
        advanced
    }
}

/// Whether a file seen with modification time `modified` is news to a ledger:
/// the ledger has no entry for `id`, or a strictly older one.
pub open spec fn is_news(ledger: Map<Seq<char>, u64>, id: Seq<char>, modified: u64) -> bool {
    !ledger.contains_key(id) || ledger[id] < modified
}

/// The ledger after it has taken note of `modified` for `id`.
pub open spec fn noted(ledger: Map<Seq<char>, u64>, id: Seq<char>, modified: u64) -> Map<
    Seq<char>,
    u64,
> {
    if is_news(ledger, id, modified) {
        ledger.insert(id, modified)
    } else {
        ledger
    }
}

/// Replacing the stamp at `i` is an insert under the same identifier.
proof fn lemma_update_is_insert(before: Seq<Entry>, after: Seq<Entry>, i: int)
    requires
        distinct(before),
        0 <= i < before.len(),
        after.len() == before.len(),
        after[i].id@ == before[i].id@,
        forall|k: int| 0 <= k < before.len() && k != i ==> after[k] == before[k],
    ensures
        distinct(after),
        as_map(after) == as_map(before).insert(before[i].id@, after[i].stamp),
{
    assert forall|a: int, b: int| 0 <= a < b < after.len() implies #[trigger] after[a].id@
        != #[trigger] after[b].id@ by {
        assert(before[a].id@ != before[b].id@);
    }
    let target = as_map(before).insert(before[i].id@, after[i].stamp);
    assert forall|id: Seq<char>| as_map(after).contains_key(id) <==> target.contains_key(id) by {
        if as_map(after).contains_key(id) {
            let k = choose|k: int| holds_at(after, id, k);
            assert(holds_at(before, id, k));
        }
        if target.contains_key(id) {
            if id == before[i].id@ {
                assert(holds_at(after, id, i));
            } else {
                let k = choose|k: int| holds_at(before, id, k);
                assert(holds_at(after, id, k));
            }
        }
    }
    assert forall|id: Seq<char>| as_map(after).contains_key(id) implies as_map(after)[id]
        == target[id] by {
        let k = choose|k: int| holds_at(after, id, k);
        lemma_entry_in_map(after, k);
        if k != i {
            lemma_entry_in_map(before, k);
        }
    }
    assert(as_map(after) =~= target);
}

/// Appending an entry under a fresh identifier is an insert.
proof fn lemma_append_is_insert(before: Seq<Entry>, after: Seq<Entry>)
    requires
        distinct(before),
        after.len() == before.len() + 1,
        forall|k: int| 0 <= k < before.len() ==> after[k] == before[k],
        !as_map(before).contains_key(after[before.len() as int].id@),
    ensures
        distinct(after),
        as_map(after) == as_map(before).insert(
            after[before.len() as int].id@,
            after[before.len() as int].stamp,
        ),
{
    let n = before.len() as int;
    assert forall|a: int, b: int| 0 <= a < b < after.len() implies #[trigger] after[a].id@
        != #[trigger] after[b].id@ by {
        if b < n {
            assert(before[a].id@ != before[b].id@);
        } else {
            assert(!holds_at(before, after[n].id@, a));
        }
    }
    let target = as_map(before).insert(after[n].id@, after[n].stamp);
    assert forall|id: Seq<char>| as_map(after).contains_key(id) <==> target.contains_key(id) by {
        if as_map(after).contains_key(id) {
            let k = choose|k: int| holds_at(after, id, k);
            if k < n {
                assert(holds_at(before, id, k));
            }
        }
        if target.contains_key(id) {
            if id == after[n].id@ {
                assert(holds_at(after, id, n));
            } else {
                let k = choose|k: int| holds_at(before, id, k);
                assert(holds_at(after, id, k));
            }
        }
    }
    assert forall|id: Seq<char>| as_map(after).contains_key(id) implies as_map(after)[id]
        == target[id] by {
        let k = choose|k: int| holds_at(after, id, k);
        lemma_entry_in_map(after, k);
        if k < n {
            lemma_entry_in_map(before, k);
        }
    }
    assert(as_map(after) =~= target);
}

/// A list of entries with distinct identifiers stands for a map of as many
/// keys.
proof fn lemma_domain_size(entries: Seq<Entry>)
    requires
        distinct(entries),
    ensures
        as_map(entries).dom().finite(),
        as_map(entries).dom().len() == entries.len(),
    decreases entries.len(),
{
    if entries.len() == 0 {
        assert(as_map(entries).dom() =~= Set::<Seq<char>>::empty());
    } else {
        let shorter = entries.drop_last();
        let last = entries.last();
        assert forall|i: int, j: int| 0 <= i < j < shorter.len() implies #[trigger] shorter[i].id@
            != #[trigger] shorter[j].id@ by {
            assert(entries[i].id@ != entries[j].id@);
        }
        lemma_domain_size(shorter);
        assert(!as_map(shorter).contains_key(last.id@)) by {
            if as_map(shorter).contains_key(last.id@) {
                let k = choose|k: int| holds_at(shorter, last.id@, k);
                assert(entries[k].id@ != entries[entries.len() - 1].id@);
            }
        }
        lemma_append_is_insert(shorter, entries);
        assert(as_map(entries).dom() =~= as_map(shorter).dom().insert(last.id@));
    }
}

} // verus!
