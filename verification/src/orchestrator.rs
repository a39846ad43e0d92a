//! Boot orchestrator: its events and effects, the update-request latch, the
//! supervision of the update service, and the run loop's decisions.

pub mod latch;
pub mod notify;
pub mod sm;
pub mod supervisor;
pub mod timer;
