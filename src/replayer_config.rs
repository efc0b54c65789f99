//! The replayer's settings: where to send, where the recordings are, and the
//! schedule of replay steps.

use vstd::prelude::*;

verus! {

pub struct Settings {
    pub target: Target,
    pub storage: Storage,
    pub schedule: Schedule,
}

/// The ingest endpoint the recordings are sent to.
pub struct Target {
    pub url: String,
}

/// Where the recordings are read from.
pub struct Storage {
    pub path: String,
}

pub struct Schedule {
    pub steps: Vec<ScheduleStep>,
}

/// One step: replay `stream` on `parallel` connections, after an optional
/// pause, for an optional time (else each segment once).
pub struct ScheduleStep {
    pub duration_ms: Option<u64>,
    pub delay_ms: Option<u64>,
    pub stream: String,
    pub parallel: u32,
}

} // verus!
