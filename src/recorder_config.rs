//! The recorder's settings.

use vstd::prelude::*;

verus! {

pub struct Settings {
    pub http: HttpServer,
    pub storage: Storage,
    pub stream: StreamSettings,
}

/// Where the recorder listens.
pub struct HttpServer {
    pub addr: String,
}

impl HttpServer {
    /// The address used when the settings name none.
    pub fn default_addr() -> (r: String)
        ensures
            r@ == "0.0.0.0:9091"@,
    {
        "0.0.0.0:9091".to_owned()
    }
}

/// Where recorded files are written.
pub struct Storage {
    pub path: String,
}

pub struct StreamSettings {
    /// Milliseconds without a chunk after which a stream counts as finished.
    pub inactive_timeout_ms: u64,
}

pub const DEFAULT_INACTIVE_TIMEOUT_SECS: u64 = 5;

impl StreamSettings {
    /// A stream is finished after five seconds without a chunk.
    pub fn default() -> (r: StreamSettings)
        ensures
            r.inactive_timeout_ms == DEFAULT_INACTIVE_TIMEOUT_SECS * 1000,
    {
        StreamSettings::from_secs(DEFAULT_INACTIVE_TIMEOUT_SECS)
    }

    /// The settings for a timeout given in whole seconds; a timeout too long
    /// to count in milliseconds is held at the largest count.
    pub fn from_secs(secs: u64) -> (r: StreamSettings)
        ensures
            r.inactive_timeout_ms == if secs * 1000 <= u64::MAX {
                secs * 1000
            } else {
                u64::MAX as int
            },
    {
        let ms = if secs <= u64::MAX / 1000 {
            secs * 1000
        } else {
            u64::MAX
        };
        StreamSettings { inactive_timeout_ms: ms }
    }
}

} // verus!
