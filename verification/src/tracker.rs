//! The four operations on the stored records.
//!
//! None of them touches the storage. A caller reads the counter or the record that the
//! operation needs, hands it over, and writes the [`Update`] that comes back.

use vstd::prelude::*;

use crate::record::{Submission, TrackerError, WorkLog, WorkRecord, WorkRecordView};
use crate::store::{total_of, RecordStore, RETENTION};

verus! {

/// What the caller is to do to the storage after an operation that changes the state: store
/// the record under its key, store the counter where the update has one, and then ask the host
/// to extend the life of the stored state.
#[derive(Debug, PartialEq, Eq)]
pub struct Update {
    /// The key under which `record` is to be stored.
    pub key: WorkLog,
    /// The record to store.
    pub record: WorkRecord,
    /// The new value of the counter; `None` where the counter stays.
    pub counter: Option<u64>,
    /// The number of ledgers left to the stored state at or below which the host is to extend
    /// its life.
    pub threshold: u32,
    /// The number of ledgers that the stored state is to have left after the extension.
    pub extend_to: u32,
}

impl Update {
    /// Whether the update asks for [`RETENTION`] ledgers, with the same threshold.
    pub open spec fn asks_retention(self) -> bool {
        self.threshold == RETENTION && self.extend_to == RETENTION
    }
}

/// The ledger of work-history records.
pub struct WorkHistoryTracker;

impl WorkHistoryTracker {
    /// Makes a new, unverified record under the next identifier. `counter` is the counter as
    /// read from the storage, `None` where it was never written; it must be below `u64::MAX`.
    /// Returns the new identifier, and the update that stores the record and the raised counter.
    pub fn add_work_record(
        counter: Option<u64>,
        employee_name: Vec<u8>,
        organization: Vec<u8>,
        role: Vec<u8>,
        start_date: u64,
        end_date: u64,
    ) -> (added: (u64, Update))
        requires
            total_of(counter) < u64::MAX,
        ensures
            added.0 == total_of(counter) + 1,
            added.1.key == WorkLog::Record(added.0),
            added.1.record@ == WorkRecordView::fresh(
                added.0,
                Submission::of(employee_name@, organization@, role@, start_date, end_date),
            ),
            added.1.counter == Some(added.0),
            added.1.asks_retention(),
            forall|store: RecordStore|
                store.counter == counter ==> #[trigger] store.apply(added.1) == store.add(
                    Submission::of(employee_name@, organization@, role@, start_date, end_date),
                ),
    {
        let record_id: u64 = Self::total_records(counter) + 1;
        let record = WorkRecord {
            record_id,
            employee_name,
            organization,
            role,
            start_date,
            end_date,
            verified: false,
        };
        let update = Update {
            key: WorkLog::Record(record_id),
            record,
            counter: Some(record_id),
            threshold: RETENTION,
            extend_to: RETENTION,
        };
        (record_id, update)
    }

    /// Marks a record as verified. `found` is what the storage holds under the key of
    /// `record_id`. Where it holds nothing, there is nothing to write and the error says so;
    /// else the update stores the record again, with its flag set and nothing else changed.
    pub fn verify_work_record(found: Option<WorkRecord>, record_id: u64) -> (outcome: Result<
        Update,
        TrackerError,
    >)
        ensures
            outcome is Ok <==> found is Some,
            outcome is Err ==> outcome->Err_0 == TrackerError::RecordNotFound,
            outcome is Ok ==> {
                let update = outcome->Ok_0;
                &&& update.key == WorkLog::Record(record_id)
                &&& update.record@ == found->Some_0@.verified()
                &&& update.counter is None
                &&& update.asks_retention()
            },
            outcome is Ok ==> forall|store: RecordStore|
                store.lookup(record_id) == Some(found->Some_0@) ==> #[trigger] store.apply(
                    outcome->Ok_0,
                ) == store.verify(record_id),
    {
        match found {
            Some(stored) => {
                let mut record = stored;
                record.verified = true;
                Ok(
                    Update {
                        key: WorkLog::Record(record_id),
                        record,
                        counter: None,
                        threshold: RETENTION,
                        extend_to: RETENTION,
                    },
                )
            },
            None => Err(TrackerError::RecordNotFound),
        }
    }

    /// What a lookup shows. `found` is what the storage holds under the key of the identifier
    /// asked for: the record itself, or the placeholder where the storage holds nothing.
    pub fn view_work_record(found: Option<WorkRecord>) -> (record: WorkRecord)
        ensures
            record@ == match found {
                Some(stored) => stored@,
                None => WorkRecordView::not_found(),
            },
            forall|store: RecordStore, id: u64|
                store.lookup(id) == (match found {
                    Some(stored) => Some(stored@),
                    None => None,
                }) ==> record@ == #[trigger] store.view(id),
    {
        match found {
            Some(stored) => stored,
            None => WorkRecord::not_found(),
        }
    }

    /// The number of records created so far. `counter` is the counter as read from the
    /// storage, `None` where it was never written, which stands for 0.
    pub fn total_records(counter: Option<u64>) -> (count: u64)
        ensures
            count == total_of(counter),
            forall|store: RecordStore| store.counter == counter ==> count == #[trigger] store.total(),
    {
        match counter {
            Some(count) => count,
            None => 0,
        }
    }
}

} // verus!
