//! A wrapper that lets a blocking-only object be driven safely from an
//! asynchronous caller.
//!
//! The wrapped object is held behind an exclusive, poison-aware lock and is
//! only ever touched on a worker thread: a driver schedules the blocking
//! work and reports back what happened, and the wrapper accounts for that
//! report — serializing access, containing panics as recoverable poison, and
//! recovering the object at teardown whatever state the lock is in.

pub mod error;
pub mod laws;
pub mod wrapper;

pub use error::InteractError;
pub use wrapper::classify_report;
pub use wrapper::classified;
pub use wrapper::report_of;
pub use wrapper::state_after;
pub use wrapper::InteractOutcome;
pub use wrapper::SyncWrapper;
pub use wrapper::TaskReport;
pub use wrapper::WrapperView;
