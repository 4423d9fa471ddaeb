//! A ledger of work-history records for a contract that keeps its state in a host's key-value
//! storage.
//!
//! Every record gets the next sequential identifier, starting at 1. A record can be marked as
//! verified, which is never undone, and looked up by its identifier. The library decides; the
//! caller talks to the storage. Each operation takes what the caller has read from the storage
//! and returns its result together with what the caller is to write. The operations are proved
//! against a mathematical model of the stored state.

pub mod laws;
pub mod record;
pub mod store;
pub mod tracker;

pub use record::{Submission, TrackerError, WorkLog, WorkRecord, WorkRecordView};
pub use store::{RecordStore, RETENTION};
pub use tracker::{Update, WorkHistoryTracker};
