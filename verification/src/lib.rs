//! Daily digest pipeline: selects one calendar day's worth of archived chat
//! messages, hands them to a summarization capability, records the resulting
//! summary, and schedules the whole cycle once per day.
//!
//! The archive and the summarizer are collaborators reached by the driver
//! binary; this crate holds the verified core: calendar dates, the JSON
//! encoding of a day's message batch, the report generator's decisions, and
//! the scheduler's state machine.

pub mod clock;
pub mod codec;
pub mod date;
pub mod report;
pub mod scheduler;
pub mod store;
