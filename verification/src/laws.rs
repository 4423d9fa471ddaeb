//! What holds of the model for every state and every input.

use vstd::prelude::*;

use crate::record::{Submission, WorkRecordView};
use crate::store::RecordStore;

verus! {

/// Before the first record is added the total is 0, and no identifier names a record.
pub proof fn lemma_empty_store()
    ensures
        RecordStore::empty().total() == 0,
        RecordStore::empty().consistent(),
        forall|id: u64| !RecordStore::empty().has_record(id),
{
}

/// Adding a record raises the total by one, stores the record unverified under the new total,
/// and leaves every other identifier as it was. In a consistent state the new identifier was
/// free, so every record that existed is still there, unchanged, and the state stays
/// consistent.
pub proof fn lemma_add(store: RecordStore, entry: Submission)
    requires
        store.total() < u64::MAX,
    ensures
        store.add(entry).total() == store.total() + 1,
        store.add(entry).view(store.next_id() as u64) == WorkRecordView::fresh(
            store.next_id() as u64,
            entry,
        ),
        forall|id: u64|
            id != store.next_id() ==> store.add(entry).view(id) == store.view(id),
        store.consistent() ==> store.add(entry).consistent(),
        store.consistent() ==> forall|id: u64| #[trigger]
            store.has_record(id) ==> store.add(entry).has_record(id)
                && store.add(entry).view(id) == store.view(id),
{
}

/// Starting from any state, the adds of a sequence of entries return consecutive identifiers in
/// call order, the first one above the total at the start, and raise the total by the number of
/// entries.
pub proof fn lemma_adds_from(start: RecordStore, entries: Seq<Submission>)
    requires
        start.total() + entries.len() <= u64::MAX,
    ensures
        start.add_all(entries).total() == start.total() + entries.len(),
        start.consistent() ==> start.add_all(entries).consistent(),
        forall|i: int|
            0 <= i < entries.len() ==> #[trigger] start.issued(entries, i) == start.total() + i
                + 1,
    decreases entries.len(),
{
    if entries.len() > 0 {
        let before = entries.drop_last();
        lemma_adds_from(start, before);
        lemma_add(start.add_all(before), entries.last());
        assert forall|i: int| 0 <= i < entries.len() implies #[trigger] start.issued(entries, i)
            == start.total() + i + 1 by {
            if i < before.len() {
                assert(entries.take(i) =~= before.take(i));
                assert(start.issued(before, i) == start.total() + i + 1);
            } else {
                assert(entries.take(i) =~= before);
            }
        }
    }
}

/// On a state in which no record was added yet, the adds of `n` entries return exactly
/// `1, 2, ..., n` in call order, and the total is `n` afterwards.
pub proof fn lemma_sequential_ids(start: RecordStore, entries: Seq<Submission>)
    requires
        start.counter is None,
        entries.len() <= u64::MAX,
    ensures
        forall|i: int| 0 <= i < entries.len() ==> #[trigger] start.issued(entries, i) == i + 1,
        start.add_all(entries).total() == entries.len(),
{
    lemma_adds_from(start, entries);
}

/// Verifying an existing record changes nothing but its flag: a lookup afterwards shows the
/// record as it was, with `verified` set; every other record, and the total, are as before, so
/// no record is lost and none that was verified ceases to be; a consistent state stays
/// consistent. Verifying a second time leaves the state as the first time left it.
pub proof fn lemma_verify(store: RecordStore, id: u64)
    requires
        store.has_record(id),
    ensures
        store.verify(id).view(id) == store.view(id).verified(),
        store.verify(id).view(id).verified,
        forall|other: u64| other != id ==> store.verify(id).view(other) == store.view(other),
        forall|other: u64|
            store.has_record(other) <==> #[trigger] store.verify(id).has_record(other),
        forall|other: u64|
            store.has_record(other) && store.view(other).verified ==> #[trigger] store.verify(
                id,
            ).view(other).verified,
        store.verify(id).total() == store.total(),
        store.consistent() ==> store.verify(id).consistent(),
        store.verify(id).has_record(id),
        store.verify(id).verify(id) == store.verify(id),
{
    let once = store.verify(id);
    let twice = once.verify(id);
    assert(once.records[id].verified() == once.records[id]);
    assert(twice.records =~= once.records);
}

/// In a consistent state an identifier that was not issued yet, 0 or one above the total, names
/// no record: a read of its key finds nothing, and a lookup shows the placeholder.
pub proof fn lemma_unissued(store: RecordStore, id: u64)
    requires
        store.consistent(),
        id == 0 || id > store.total(),
    ensures
        !store.has_record(id),
        store.lookup(id) is None,
        store.view(id) == WorkRecordView::not_found(),
{
}

/// In a consistent state every identifier from 1 to the total names a record, and that record
/// carries the identifier.
pub proof fn lemma_issued(store: RecordStore, id: u64)
    requires
        store.consistent(),
        1 <= id <= store.total(),
    ensures
        store.has_record(id),
        store.lookup(id) is Some,
        store.view(id).record_id == id,
{
}

} // verus!
