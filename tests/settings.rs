use dash_relay::errors::{RecorderError, ReplayerError, ServerError};
use dash_relay::recorder_config::{HttpServer, StreamSettings};
use dash_relay::server_config::{expand_address, Cache, CacheConfig, ListCache, MapCache, StaticCache};

fn caches() -> Cache {
    Cache {
        map: vec![MapCache { name: "m".to_string(), preallocate: 64 }],
        list: vec![
            ListCache { name: "zero".to_string(), copy: false },
            ListCache { name: "copy".to_string(), copy: true },
        ],
        statics: vec![StaticCache {
            name: "s".to_string(),
            file_path: "/tmp/seg".to_string(),
            shards: 4,
            streams: 1,
            tracks: 2,
            segments: 3,
        }],
    }
}

#[test]
fn cache_selection_by_kind_and_name() {
    let c = caches();
    assert!(matches!(c.config("list:copy"), CacheConfig::List(l) if l.copy && l.name == "copy"));
    assert!(matches!(c.config("list:zero"), CacheConfig::List(l) if !l.copy));
    assert!(matches!(c.config("map:m"), CacheConfig::Coalescing(m) if m.preallocate == 64));
    assert!(matches!(c.config("static:s"), CacheConfig::Static(s) if s.shards == 4 && s.file_path == "/tmp/seg"));
    assert!(matches!(c.config("map:zero"), CacheConfig::NotFound));
    assert!(matches!(c.config("list"), CacheConfig::NotFound));
    assert!(matches!(c.config("list:copy:x"), CacheConfig::NotFound));
    assert!(matches!(c.config("tree:m"), CacheConfig::NotFound));
}

#[test]
fn address_expansion() {
    assert_eq!(expand_address(":8080"), "0.0.0.0:8080");
    assert_eq!(expand_address("127.0.0.1:80"), "127.0.0.1:80");
}

#[test]
fn recorder_defaults() {
    assert_eq!(HttpServer::default_addr(), "0.0.0.0:9091");
    assert_eq!(StreamSettings::default().inactive_timeout_ms, 5000);
    assert_eq!(StreamSettings::from_secs(u64::MAX).inactive_timeout_ms, u64::MAX);
}

#[test]
fn error_messages() {
    assert_eq!(ServerError::ConfigError("x".to_string()).message(), "Configuration error: x");
    assert_eq!(RecorderError::NetworkError("y".to_string()).message(), "Network error: y");
    assert_eq!(ReplayerError::StorageError("z".to_string()).message(), "Storage error: z");
    assert_eq!(ReplayerError::RequestError("w".to_string()).message(), "Request error: w");
}
