use dash_relay::dash::{FragType, SegmentType};
use dash_relay::transcoder::{filter_complex, AudioProfile, Encoding, Http, PlaylistType, Preset, Tune, VideoProfile, VideoProfileLevel};

#[test]
fn option_names() {
    assert_eq!(FragType::EveryFrame.to_string(), "every_frame");
    assert_eq!(FragType::default().to_string(), "auto");
    assert_eq!(SegmentType::WebM.to_string(), "webm");
    assert_eq!(Preset::VeryFast.to_string(), "veryfast");
    assert_eq!(Tune::ZeroLatency.to_string(), "zerolatency");
    assert_eq!(VideoProfileLevel::High422.to_string(), "high422");
    assert_eq!(PlaylistType::Unset.to_string(), "none");
    assert_eq!(dash_relay::transcoder::SegmentType::Fmp4.to_string(), "fmp4");
}

#[test]
fn encoding_arguments() {
    let e = Encoding {
        preset: Preset::VeryFast,
        tune: Tune::Unset,
        keyframe_interval: 48,
        sc_threshold: 0,
        video_codec: "libx264".to_string(),
        audio_codec: "aac".to_string(),
        native_rate: false,
    };
    assert_eq!(
        e.args(1),
        vec!["-c:v:1", "libx264", "-g:v:1", "48", "-preset:v:1", "veryfast", "-c:a:1", "aac", "-sc_threshold", "0"]
    );
}

#[test]
fn profile_and_http_arguments() {
    let v = VideoProfile {
        name: "720p".to_string(),
        scale: "1280:720".to_string(),
        setsar: String::new(),
        bitrate: "3000k".to_string(),
        maxrate: String::new(),
        bufsize: "6000k".to_string(),
        profile: VideoProfileLevel::Main,
    };
    assert_eq!(v.args(0), vec!["-profile:v:0", "main", "-b:v:0", "3000k", "-bufsize:v:0", "6000k"]);
    let a = AudioProfile { bitrate: "128k".to_string(), sampling: 48000, channels: 2 };
    assert_eq!(a.args(0), vec!["-ar:a:0", "48000", "-b:a:0", "128k"]);
    let h = Http { base_url: String::new(), persistent: true, method: "PUT".to_string() };
    assert_eq!(h.args(), vec!["-method", "PUT", "-http_persistent", "1"]);
}

#[test]
fn filter_graph() {
    let profile = |name: &str, scale: &str, setsar: &str| VideoProfile {
        name: name.to_string(),
        scale: scale.to_string(),
        setsar: setsar.to_string(),
        bitrate: String::new(),
        maxrate: String::new(),
        bufsize: String::new(),
        profile: VideoProfileLevel::Unset,
    };
    let videos = vec![profile("hd", "1280:720", "1"), profile("src", "", "")];
    assert_eq!(
        filter_complex(&videos),
        "[v:0]split=2[v0][v1];[v0]setsar=1,scale=1280:720[hd_out];[v1]copy[src_out]"
    );
}
