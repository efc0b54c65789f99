use dash_relay::request::{init_path, segment_path, RequestParams};

#[test]
fn from_path_valid_three_parts() {
    let path = "/stream-1/1/00005.m4s";
    let result = RequestParams::from_path(path).unwrap();
    assert_eq!(result.stream_name, "stream-1");
    assert_eq!(result.quality_idx, Some(1));
    assert_eq!(result.segment, Some(5));
    assert_eq!(result.is_manifest, false);
    assert_eq!(result.is_init, false);
}

#[test]
fn from_path_valid_without_leading_slash() {
    let path = "stream-1/2/00004.m4s";
    let result = RequestParams::from_path(path).unwrap();
    assert_eq!(result.stream_name, "stream-1");
    assert_eq!(result.quality_idx, Some(2));
    assert_eq!(result.segment, Some(4));
    assert_eq!(result.is_manifest, false);
    assert_eq!(result.is_init, false);
}

#[test]
fn from_path_valid_two_parts() {
    let path = "/stream-1/index.mpd";
    let result = RequestParams::from_path(path).unwrap();
    assert_eq!(result.stream_name, "stream-1");
    assert_eq!(result.quality_idx, None);
    assert_eq!(result.segment, None);
    assert_eq!(result.is_manifest, true);
    assert_eq!(result.is_init, false);
}

#[test]
fn from_path_invalid_too_many_parts() {
    let path = "/stream1/1/00001.m4s/extra";
    let result = RequestParams::from_path(path);
    assert!(result.is_err());
}

#[test]
fn from_path_invalid_too_few_parts() {
    let path = "/stream-1";
    let result = RequestParams::from_path(path);
    assert!(result.is_err());
}

#[test]
fn from_path_init_segment() {
    let result = RequestParams::from_path("/live/3/init.m4s").unwrap();
    assert_eq!(result.stream_name, "live");
    assert_eq!(result.quality_idx, Some(3));
    assert_eq!(result.segment, None);
    assert!(!result.is_manifest);
    assert!(result.is_init);
}

#[test]
fn from_path_error_messages() {
    assert_eq!(
        RequestParams::from_path("/s/1/0.mp4").err().unwrap(),
        "Invalid filename: must end with .m4s"
    );
    assert_eq!(
        RequestParams::from_path("/s/x/0.m4s").err().unwrap(),
        "Invalid quality index: x"
    );
    assert_eq!(
        RequestParams::from_path("/s/1/abc.m4s").err().unwrap(),
        "Invalid segment number: abc"
    );
    assert_eq!(
        RequestParams::from_path("/a/b/c/d/e").err().unwrap(),
        "Invalid path: expected 2-3 parts, got 5"
    );
    assert_eq!(
        RequestParams::from_path("/s/4294967296/1.m4s").err().unwrap(),
        "Invalid quality index: 4294967296"
    );
}

#[test]
fn from_path_reads_numbers_like_std() {
    let result = RequestParams::from_path("/s/+7/4294967295.m4s").unwrap();
    assert_eq!(result.quality_idx, Some(7));
    assert_eq!(result.segment, Some(4294967295));
    assert!(RequestParams::from_path("/s/1/+.m4s").is_err());
    assert!(RequestParams::from_path("/s//1.m4s").is_err());
}

#[test]
fn format_filename_of_each_kind() {
    let manifest = RequestParams::from_path("/s/index.mpd").unwrap();
    assert_eq!(manifest.format_filename(3), "s/manifests/3_index.mpd");
    let init = RequestParams::from_path("/s/2/init.m4s").unwrap();
    assert_eq!(init.format_filename(0), "s/2/0_init.m4s");
    let segment = RequestParams::from_path("/s/2/00017.m4s").unwrap();
    assert_eq!(segment.format_filename(41), "s/2/41_17.m4s");
    let bare = RequestParams {
        stream_name: "s".to_string(),
        quality_idx: None,
        segment: None,
        is_manifest: false,
        is_init: false,
    };
    assert_eq!(bare.format_filename(12), "s/none/12_none");
}

#[test]
fn segment_and_init_paths() {
    assert_eq!(segment_path("/live", 1, 120), "/live/1/120.m4s");
    assert_eq!(init_path("/live", 0), "/live/0/init.m4s");
}

#[test]
fn segment_path_round_trip() {
    for (stream, quality, segment) in [("s", 0u32, 0u32), ("stream-7", 12, 4294967295), ("x", 4294967295, 10)] {
        let base = format!("/{}", stream);
        let path = segment_path(&base, quality, segment);
        let parsed = RequestParams::from_path(&path).unwrap();
        assert_eq!(parsed.stream_name, stream);
        assert_eq!(parsed.quality_idx, Some(quality));
        assert_eq!(parsed.segment, Some(segment));
        assert!(!parsed.is_manifest && !parsed.is_init);
    }
}
