//! The mathematical model of the stored state, and what each operation does to it.

use vstd::prelude::*;

use crate::record::{Submission, WorkRecordView};
use crate::tracker::Update;

verus! {

/// The number of ledgers for which every write asks the host to keep the stored state alive.
pub const RETENTION: u32 = 5000;

/// The state that the contract keeps in the storage.
pub struct RecordStore {
    /// The number of records created so far; `None` until the first one.
    pub counter: Option<u64>,
    /// The records by identifier.
    pub records: Map<u64, WorkRecordView>,
}

/// The total that a counter stands for: its value, 0 while it was never written.
pub open spec fn total_of(counter: Option<u64>) -> u64 {
    match counter {
        Some(count) => count,
        None => 0,
    }
}

impl RecordStore {
    /// The state before anything was written.
    pub open spec fn empty() -> RecordStore {
        RecordStore { counter: None, records: Map::empty() }
    }

    /// The number of records created so far, which is also the highest identifier issued.
    pub open spec fn total(self) -> u64 {
        total_of(self.counter)
    }

    /// The identifier that the next record gets.
    pub open spec fn next_id(self) -> int {
        self.total() + 1
    }

    /// Whether a record is stored under `id`.
    pub open spec fn has_record(self, id: u64) -> bool {
        self.records.contains_key(id)
    }

    /// What a read of the key of `id` gives: the record stored there, if any.
    pub open spec fn lookup(self, id: u64) -> Option<WorkRecordView> {
        if self.has_record(id) {
            Some(self.records[id])
        } else {
            None
        }
    }

    /// The identifiers are exactly `1..=total()`, and each record carries its own.
    pub open spec fn consistent(self) -> bool {
        &&& forall|id: u64| self.records.contains_key(id) <==> 1 <= id <= self.total()
        &&& forall|id: u64| #[trigger]
            self.records.contains_key(id) ==> self.records[id].record_id == id
    }

    /// The state after the submitted record was added under the next identifier.
    pub open spec fn add(self, entry: Submission) -> RecordStore
        recommends
            self.total() < u64::MAX,
    {
        let id = self.next_id() as u64;
        RecordStore {
            counter: Some(id),
            records: self.records.insert(id, WorkRecordView::fresh(id, entry)),
        }
    }

    /// The state after the entries were added one by one, in order.
    pub open spec fn add_all(self, entries: Seq<Submission>) -> RecordStore
        decreases entries.len(),
    {
        if entries.len() == 0 {
            self
        } else {
            self.add_all(entries.drop_last()).add(entries.last())
        }
    }

    /// The identifier that the add of `entries[i]` returns when the entries are added one by
    /// one, in order.
    pub open spec fn issued(self, entries: Seq<Submission>, i: int) -> int
        recommends
            0 <= i < entries.len(),
    {
        self.add_all(entries.take(i)).next_id()
    }

    /// The state after the record under `id` was marked as verified.
    pub open spec fn verify(self, id: u64) -> RecordStore
        recommends
            self.has_record(id),
    {
        RecordStore { records: self.records.insert(id, self.records[id].verified()), ..self }
    }

    /// What a lookup of `id` shows: the record stored there, or the placeholder.
    pub open spec fn view(self, id: u64) -> WorkRecordView {
        if self.has_record(id) {
            self.records[id]
        } else {
            WorkRecordView::not_found()
        }
    }

    /// The state after the caller has written what `update` holds: the record under its key
    /// and, where the update has one, the counter.
    pub open spec fn apply(self, update: Update) -> RecordStore {
        RecordStore {
            counter: match update.counter {
                Some(count) => Some(count),
                None => self.counter,
            },
            records: self.records.insert(update.key.record_id(), update.record@),
        }
    }
}

} // verus!
