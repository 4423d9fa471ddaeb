//! The stored data: a work-history record, its mathematical view and its storage key.

use vstd::prelude::*;
use vstd::slice::slice_to_vec;
use vstd::string::StringSliceAdditionalSpecFns;

verus! {

/// One employment attestation. The host keeps a text as a string of bytes and asks nothing of
/// them, so each text field holds the bytes as they are.
#[derive(Debug, PartialEq, Eq)]
pub struct WorkRecord {
    /// Sequential identifier, 1 for the first record. 0 marks the placeholder record.
    pub record_id: u64,
    pub employee_name: Vec<u8>,
    pub organization: Vec<u8>,
    pub role: Vec<u8>,
    /// Opaque ordinal; nothing relates it to `end_date`.
    pub start_date: u64,
    pub end_date: u64,
    /// Starts out `false`; once `true` it stays `true`.
    pub verified: bool,
}

/// What a [`WorkRecord`] holds.
pub struct WorkRecordView {
    pub record_id: u64,
    pub employee_name: Seq<u8>,
    pub organization: Seq<u8>,
    pub role: Seq<u8>,
    pub start_date: u64,
    pub end_date: u64,
    pub verified: bool,
}

impl View for WorkRecord {
    type V = WorkRecordView;

    open spec fn view(&self) -> WorkRecordView {
        WorkRecordView {
            record_id: self.record_id,
            employee_name: self.employee_name@,
            organization: self.organization@,
            role: self.role@,
            start_date: self.start_date,
            end_date: self.end_date,
            verified: self.verified,
        }
    }
}

impl Clone for WorkRecord {
    fn clone(&self) -> (copy: Self)
        ensures
            copy@ == self@,
    {
        let copy = WorkRecord {
            record_id: self.record_id,
            employee_name: self.employee_name.clone(),
            organization: self.organization.clone(),
            role: self.role.clone(),
            start_date: self.start_date,
            end_date: self.end_date,
            verified: self.verified,
        };
        assert(copy.employee_name@ =~= self.employee_name@);
        assert(copy.organization@ =~= self.organization@);
        assert(copy.role@ =~= self.role@);
        copy
    }
}

impl WorkRecord {
    /// The placeholder that a lookup returns where no record is stored.
    pub fn not_found() -> (record: WorkRecord)
        ensures
            record@ == WorkRecordView::not_found(),
    {
        WorkRecord {
            record_id: 0,
            employee_name: slice_to_vec("Not_Found".as_bytes()),
            organization: slice_to_vec("Not_Found".as_bytes()),
            role: slice_to_vec("Not_Found".as_bytes()),
            start_date: 0,
            end_date: 0,
            verified: false,
        }
    }
}

/// The fields that a caller submits for a new record.
pub struct Submission {
    pub employee_name: Seq<u8>,
    pub organization: Seq<u8>,
    pub role: Seq<u8>,
    pub start_date: u64,
    pub end_date: u64,
}

impl Submission {
    /// The submission made of the given fields.
    pub open spec fn of(
        employee_name: Seq<u8>,
        organization: Seq<u8>,
        role: Seq<u8>,
        start_date: u64,
        end_date: u64,
    ) -> Submission {
        Submission { employee_name, organization, role, start_date, end_date }
    }
}

impl WorkRecordView {
    /// The same record, marked as verified.
    pub open spec fn verified(self) -> WorkRecordView {
        WorkRecordView { verified: true, ..self }
    }

    /// The record as it is first stored: the submitted fields under the given identifier, not
    /// yet verified.
    pub open spec fn fresh(record_id: u64, entry: Submission) -> WorkRecordView {
        WorkRecordView {
            record_id,
            employee_name: entry.employee_name,
            organization: entry.organization,
            role: entry.role,
            start_date: entry.start_date,
            end_date: entry.end_date,
            verified: false,
        }
    }

    /// The placeholder that stands for a record that does not exist: identifier 0, the bytes
    /// of the text `Not_Found` in every text field, both dates 0, not verified.
    pub open spec fn not_found() -> WorkRecordView {
        WorkRecordView {
            record_id: 0,
            employee_name: "Not_Found".spec_bytes(),
            organization: "Not_Found".spec_bytes(),
            role: "Not_Found".spec_bytes(),
            start_date: 0,
            end_date: 0,
            verified: false,
        }
    }
}

/// Key under which a record is stored.
#[derive(Clone, Copy, Debug, PartialEq, Eq, Structural)]
pub enum WorkLog {
    /// The record with the given identifier.
    Record(u64),
}

impl WorkLog {
    /// The identifier of the record that the key names.
    pub open spec fn record_id(self) -> u64 {
        match self {
            WorkLog::Record(id) => id,
        }
    }
}

/// Why an operation on the records failed.
#[derive(Clone, Copy, Debug, PartialEq, Eq, Structural)]
pub enum TrackerError {
    /// No record is stored under the identifier.
    RecordNotFound,
}

impl TrackerError {
    /// The message that goes with the error.
    pub fn message(&self) -> (text: &'static str)
        ensures
            text@ == "Record not found"@,
    {
        match self {
            TrackerError::RecordNotFound => "Record not found",
        }
    }
}

} // verus!
