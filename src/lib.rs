//! An in-memory relay cache for low-latency CMAF/DASH delivery: an ingester
//! appends the chunks of a segment to a cell while any number of readers drain
//! the same cell, either chunk by chunk (list cells) or as the newly appended
//! suffix of one growing buffer (map cells).

pub mod payload;
pub mod list_cache;
pub mod list_downstream;
pub mod map_cache;
pub mod map_downstream;
pub mod coalesce;
pub mod cache_map;
pub mod text;
pub mod request;
pub mod metadata;
pub mod stream;
pub mod relay;
pub mod recorder;
pub mod errors;
pub mod server_config;
pub mod recorder_config;
pub mod replayer_config;
pub mod dash;
pub mod transcoder;
pub mod replay;
pub mod static_cache;
