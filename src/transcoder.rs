//! The encoder choices and the encoder arguments built from them.

use vstd::prelude::*;
use crate::text::{append_decimal, decimal};

verus! {

/// The H.264 profile of a video stream.
#[derive(PartialEq, Eq, Structural, Clone, Copy, Debug)]
pub enum VideoProfileLevel {
    Unset,
    Baseline,
    Main,
    High,
    High10,
    High422,
    High444,
}

impl VideoProfileLevel {
    pub open spec fn name_spec(&self) -> Seq<char> {
        match self {
            VideoProfileLevel::Unset => "none"@,
            VideoProfileLevel::Baseline => "baseline"@,
            VideoProfileLevel::Main => "main"@,
            VideoProfileLevel::High => "high"@,
            VideoProfileLevel::High10 => "high10"@,
            VideoProfileLevel::High422 => "high422"@,
            VideoProfileLevel::High444 => "high444"@,
        }
    }

    /// The option value that names this choice.
    pub fn as_str(&self) -> (r: &'static str)
        ensures
            r@ == self.name_spec(),
    {
        match self {
            VideoProfileLevel::Unset => "none",
            VideoProfileLevel::Baseline => "baseline",
            VideoProfileLevel::Main => "main",
            VideoProfileLevel::High => "high",
            VideoProfileLevel::High10 => "high10",
            VideoProfileLevel::High422 => "high422",
            VideoProfileLevel::High444 => "high444",
        }
    }

    pub fn to_string(&self) -> (r: String)
        ensures
            r@ == self.name_spec(),
    {
        self.as_str().to_owned()
    }

    pub fn default() -> (r: VideoProfileLevel)
        ensures
            r == VideoProfileLevel::Unset,
    {
        VideoProfileLevel::Unset
    }
}

/// The encoder's speed against compression trade-off.
#[derive(PartialEq, Eq, Structural, Clone, Copy, Debug)]
pub enum Preset {
    Unset,
    UltraFast,
    SuperFast,
    VeryFast,
    Faster,
    Fast,
    Medium,
    Slow,
    Slower,
    VerySlow,
    Placebo,
}

impl Preset {
    pub open spec fn name_spec(&self) -> Seq<char> {
        match self {
            Preset::Unset => "none"@,
            Preset::UltraFast => "ultrafast"@,
            Preset::SuperFast => "superfast"@,
            Preset::VeryFast => "veryfast"@,
            Preset::Faster => "faster"@,
            Preset::Fast => "fast"@,
            Preset::Medium => "medium"@,
            Preset::Slow => "slow"@,
            Preset::Slower => "slower"@,
            Preset::VerySlow => "veryslow"@,
            Preset::Placebo => "placebo"@,
        }
    }

    /// The option value that names this choice.
    pub fn as_str(&self) -> (r: &'static str)
        ensures
            r@ == self.name_spec(),
    {
        match self {
            Preset::Unset => "none",
            Preset::UltraFast => "ultrafast",
            Preset::SuperFast => "superfast",
            Preset::VeryFast => "veryfast",
            Preset::Faster => "faster",
            Preset::Fast => "fast",
            Preset::Medium => "medium",
            Preset::Slow => "slow",
            Preset::Slower => "slower",
            Preset::VerySlow => "veryslow",
            Preset::Placebo => "placebo",
        }
    }

    pub fn to_string(&self) -> (r: String)
        ensures
            r@ == self.name_spec(),
    {
        self.as_str().to_owned()
    }

    pub fn default() -> (r: Preset)
        ensures
            r == Preset::Unset,
    {
        Preset::Unset
    }
}

/// Tuning of the encoder for a kind of content.
#[derive(PartialEq, Eq, Structural, Clone, Copy, Debug)]
pub enum Tune {
    ZeroLatency,
    Film,
    Animation,
    Grain,
    Screen,
    Unset,
}

impl Tune {
    pub open spec fn name_spec(&self) -> Seq<char> {
        match self {
            Tune::ZeroLatency => "zerolatency"@,
            Tune::Film => "film"@,
            Tune::Animation => "animation"@,
            Tune::Grain => "grain"@,
            Tune::Screen => "screen"@,
            Tune::Unset => "none"@,
        }
    }

    /// The option value that names this choice.
    pub fn as_str(&self) -> (r: &'static str)
        ensures
            r@ == self.name_spec(),
    {
        match self {
            Tune::ZeroLatency => "zerolatency",
            Tune::Film => "film",
            Tune::Animation => "animation",
            Tune::Grain => "grain",
            Tune::Screen => "screen",
            Tune::Unset => "none",
        }
    }

    pub fn to_string(&self) -> (r: String)
        ensures
            r@ == self.name_spec(),
    {
        self.as_str().to_owned()
    }

    pub fn default() -> (r: Tune)
        ensures
            r == Tune::Unset,
    {
        Tune::Unset
    }
}

/// The container format of HLS segments.
#[derive(PartialEq, Eq, Structural, Clone, Copy, Debug)]
pub enum SegmentType {
    Mpegts,
    Fmp4,
}

impl SegmentType {
    pub open spec fn name_spec(&self) -> Seq<char> {
        match self {
            SegmentType::Mpegts => "mpegts"@,
            SegmentType::Fmp4 => "fmp4"@,
        }
    }

    /// The option value that names this choice.
    pub fn as_str(&self) -> (r: &'static str)
        ensures
            r@ == self.name_spec(),
    {
        match self {
            SegmentType::Mpegts => "mpegts",
            SegmentType::Fmp4 => "fmp4",
        }
    }

    pub fn to_string(&self) -> (r: String)
        ensures
            r@ == self.name_spec(),
    {
        self.as_str().to_owned()
    }
}

/// How an HLS playlist is updated.
#[derive(PartialEq, Eq, Structural, Clone, Copy, Debug)]
pub enum PlaylistType {
    Vod,
    Event,
    Unset,
}

impl PlaylistType {
    pub open spec fn name_spec(&self) -> Seq<char> {
        match self {
            PlaylistType::Vod => "vod"@,
            PlaylistType::Event => "event"@,
            PlaylistType::Unset => "none"@,
        }
    }

    /// The option value that names this choice.
    pub fn as_str(&self) -> (r: &'static str)
        ensures
            r@ == self.name_spec(),
    {
        match self {
            PlaylistType::Vod => "vod",
            PlaylistType::Event => "event",
            PlaylistType::Unset => "none",
        }
    }

    pub fn to_string(&self) -> (r: String)
        ensures
            r@ == self.name_spec(),
    {
        self.as_str().to_owned()
    }
}


pub open spec fn strings_view(v: Seq<String>) -> Seq<Seq<char>> {
    v.map_values(|s: String| s@)
}

/// `prefix` followed by the decimal digits of `n`.
pub open spec fn numbered(prefix: Seq<char>, n: nat) -> Seq<char> {
    prefix + decimal(n)
}

fn push_owned(args: &mut Vec<String>, s: String)
    ensures
        strings_view(final(args)@) == strings_view(old(args)@).push(s@),
{
    let ghost before = args@;
    args.push(s);
    assert(strings_view(args@) =~= strings_view(before).push(s@));
}

fn push_numbered(args: &mut Vec<String>, prefix: &str, n: u64)
    ensures
        strings_view(final(args)@) == strings_view(old(args)@).push(numbered(prefix@, n as nat)),
{
    let mut s = prefix.to_owned();
    append_decimal(&mut s, n);
    push_owned(args, s);
}

/// Settings shared by the encoding of every quality.
pub struct Encoding {
    pub preset: Preset,
    pub tune: Tune,
    /// Frames between key frames.
    pub keyframe_interval: u32,
    /// Scene-cut threshold; 0 turns adaptive key frames off.
    pub sc_threshold: u32,
    pub video_codec: String,
    pub audio_codec: String,
    /// Read the input at its native frame rate.
    pub native_rate: bool,
}

impl Encoding {
    pub open spec fn args_spec(&self, idx: nat) -> Seq<Seq<char>> {
        let head = seq![
            numbered("-c:v:"@, idx),
            self.video_codec@,
            numbered("-g:v:"@, idx),
            decimal(self.keyframe_interval as nat),
        ];
        let preset = if self.preset != Preset::Unset {
            seq![numbered("-preset:v:"@, idx), self.preset.name_spec()]
        } else {
            Seq::empty()
        };
        let tune = if self.tune != Tune::Unset {
            seq![numbered("-tune:v:"@, idx), self.tune.name_spec()]
        } else {
            Seq::empty()
        };
        head + preset + tune + seq![
            numbered("-c:a:"@, idx),
            self.audio_codec@,
            "-sc_threshold"@,
            decimal(self.sc_threshold as nat),
        ]
    }

    /// The encoder arguments for output stream `idx`.
    pub fn args(&self, idx: u64) -> (r: Vec<String>)
        ensures
            strings_view(r@) == self.args_spec(idx as nat),
    {
        let mut args: Vec<String> = Vec::new();
        push_numbered(&mut args, "-c:v:", idx);
        push_owned(&mut args, self.video_codec.clone());
        push_numbered(&mut args, "-g:v:", idx);
        push_owned(&mut args, crate::text::decimal_string(self.keyframe_interval as u64));
        if self.preset != Preset::Unset {
            push_numbered(&mut args, "-preset:v:", idx);
            push_owned(&mut args, self.preset.to_string());
        }
        if self.tune != Tune::Unset {
            push_numbered(&mut args, "-tune:v:", idx);
            push_owned(&mut args, self.tune.to_string());
        }
        push_numbered(&mut args, "-c:a:", idx);
        push_owned(&mut args, self.audio_codec.clone());
        push_owned(&mut args, "-sc_threshold".to_owned());
        push_owned(&mut args, crate::text::decimal_string(self.sc_threshold as u64));
        assert(strings_view(args@) =~= self.args_spec(idx as nat));
        args
    }
}

/// How segments are delivered to the HTTP server.
pub struct Http {
    pub base_url: String,
    /// Keep connections open between uploads.
    pub persistent: bool,
    /// The upload method, such as `PUT`.
    pub method: String,
}

impl Http {
    pub open spec fn args_spec(&self) -> Seq<Seq<char>> {
        (if self.method@.len() > 0 {
            seq!["-method"@, self.method@]
        } else {
            Seq::empty()
        }) + (if self.persistent {
            seq!["-http_persistent"@, "1"@]
        } else {
            Seq::empty()
        })
    }

    /// The muxer arguments for the upload connection.
    pub fn args(&self) -> (r: Vec<String>)
        ensures
            strings_view(r@) == self.args_spec(),
    {
        let mut args: Vec<String> = Vec::new();
        if self.method.as_str().unicode_len() > 0 {
            push_owned(&mut args, "-method".to_owned());
            push_owned(&mut args, self.method.clone());
        }
        if self.persistent {
            push_owned(&mut args, "-http_persistent".to_owned());
            push_owned(&mut args, "1".to_owned());
        }
        assert(strings_view(args@) =~= self.args_spec());
        args
    }
}

/// One quality of the output.
pub struct VideoProfile {
    pub name: String,
    /// The scale filter argument; empty for none.
    pub scale: String,
    /// The sample aspect ratio filter argument; empty for none.
    pub setsar: String,
    pub bitrate: String,
    pub maxrate: String,
    pub bufsize: String,
    pub profile: VideoProfileLevel,
}

impl VideoProfile {
    pub open spec fn args_spec(&self, idx: nat) -> Seq<Seq<char>> {
        (if self.profile != VideoProfileLevel::Unset {
            seq![numbered("-profile:v:"@, idx), self.profile.name_spec()]
        } else {
            Seq::empty()
        }) + (if self.bitrate@.len() > 0 {
            seq![numbered("-b:v:"@, idx), self.bitrate@]
        } else {
            Seq::empty()
        }) + (if self.maxrate@.len() > 0 {
            seq![numbered("-maxrate:v:"@, idx), self.maxrate@]
        } else {
            Seq::empty()
        }) + (if self.bufsize@.len() > 0 {
            seq![numbered("-bufsize:v:"@, idx), self.bufsize@]
        } else {
            Seq::empty()
        })
    }

    /// The encoder arguments for output stream `idx`.
    pub fn args(&self, idx: u64) -> (r: Vec<String>)
        ensures
            strings_view(r@) == self.args_spec(idx as nat),
    {
        let mut args: Vec<String> = Vec::new();
        if self.profile != VideoProfileLevel::Unset {
            push_numbered(&mut args, "-profile:v:", idx);
            push_owned(&mut args, self.profile.to_string());
        }
        if self.bitrate.as_str().unicode_len() > 0 {
            push_numbered(&mut args, "-b:v:", idx);
            push_owned(&mut args, self.bitrate.clone());
        }
        if self.maxrate.as_str().unicode_len() > 0 {
            push_numbered(&mut args, "-maxrate:v:", idx);
            push_owned(&mut args, self.maxrate.clone());
        }
        if self.bufsize.as_str().unicode_len() > 0 {
            push_numbered(&mut args, "-bufsize:v:", idx);
            push_owned(&mut args, self.bufsize.clone());
        }
        assert(strings_view(args@) =~= self.args_spec(idx as nat));
        args
    }
}

/// The audio output.
pub struct AudioProfile {
    pub bitrate: String,
    /// Sampling rate in Hz.
    pub sampling: u32,
    pub channels: u16,
}

impl AudioProfile {
    pub open spec fn args_spec(&self, idx: nat) -> Seq<Seq<char>> {
        seq![
            numbered("-ar:a:"@, idx),
            decimal(self.sampling as nat),
            numbered("-b:a:"@, idx),
            self.bitrate@,
        ]
    }

    /// The encoder arguments for audio stream `idx`.
    pub fn args(&self, idx: u64) -> (r: Vec<String>)
        ensures
            strings_view(r@) == self.args_spec(idx as nat),
    {
        let mut args: Vec<String> = Vec::new();
        push_numbered(&mut args, "-ar:a:", idx);
        push_owned(&mut args, crate::text::decimal_string(self.sampling as u64));
        push_numbered(&mut args, "-b:a:", idx);
        push_owned(&mut args, self.bitrate.clone());
        assert(strings_view(args@) =~= self.args_spec(idx as nat));
        args
    }
}

/// The labels `[v0][v1]...` of the first `n` split outputs.
pub open spec fn split_labels(n: nat) -> Seq<char>
    decreases n,
{
    if n == 0 {
        Seq::empty()
    } else {
        split_labels((n - 1) as nat) + "[v"@ + decimal((n - 1) as nat) + "]"@
    }
}

/// The filter chain that turns split output `i` into quality `v`.
pub open spec fn profile_filter(i: nat, v: VideoProfile) -> Seq<char> {
    let body = if v.setsar@.len() > 0 && v.scale@.len() > 0 {
        "setsar="@ + v.setsar@ + ","@ + "scale="@ + v.scale@
    } else if v.setsar@.len() > 0 {
        "setsar="@ + v.setsar@
    } else if v.scale@.len() > 0 {
        "scale="@ + v.scale@
    } else {
        "copy"@
    };
    "[v"@ + decimal(i) + "]"@ + body + "["@ + v.name@ + "_out]"@
}

/// The chains of the first `k` qualities, each after a `;`.
pub open spec fn profile_filters(videos: Seq<VideoProfile>, k: nat) -> Seq<char>
    decreases k,
{
    if k == 0 {
        Seq::empty()
    } else {
        profile_filters(videos, (k - 1) as nat) + ";"@ + profile_filter((k - 1) as nat, videos[k - 1])
    }
}

pub open spec fn filter_complex_spec(videos: Seq<VideoProfile>) -> Seq<char> {
    "[v:0]split="@ + decimal(videos.len()) + split_labels(videos.len()) + profile_filters(
        videos,
        videos.len(),
    )
}

fn append_profile_filter(out: &mut String, i: u64, v: &VideoProfile)
    ensures
        final(out)@ == old(out)@ + profile_filter(i as nat, *v),
{
    out.append("[v");
    append_decimal(out, i);
    out.append("]");
    let has_setsar = v.setsar.as_str().unicode_len() > 0;
    let has_scale = v.scale.as_str().unicode_len() > 0;
    if has_setsar {
        out.append("setsar=");
        out.append(v.setsar.as_str());
    }
    if has_setsar && has_scale {
        out.append(",");
    }
    if has_scale {
        out.append("scale=");
        out.append(v.scale.as_str());
    }
    if !has_setsar && !has_scale {
        out.append("copy");
    }
    out.append("[");
    out.append(v.name.as_str());
    out.append("_out]");
    assert(out@ =~= old(out)@ + profile_filter(i as nat, *v));
}

/// The filter graph that splits the input video once per quality and scales
/// each copy as its profile asks.
pub fn filter_complex(videos: &Vec<VideoProfile>) -> (r: String)
    ensures
        r@ == filter_complex_spec(videos@),
{
    let mut out = "[v:0]split=".to_owned();
    append_decimal(&mut out, videos.len() as u64);
    let ghost head = out@;
    let mut i: usize = 0;
    while i < videos.len()
        invariant
            i <= videos@.len(),
            out@ == head + split_labels(i as nat),
        decreases videos@.len() - i,
    {
        out.append("[v");
        append_decimal(&mut out, i as u64);
        out.append("]");
        i = i + 1;
        assert(out@ =~= head + split_labels(i as nat));
    }
    let ghost labelled = out@;
    let mut k: usize = 0;
    while k < videos.len()
        invariant
            k <= videos@.len(),
            out@ == labelled + profile_filters(videos@, k as nat),
        decreases videos@.len() - k,
    {
        out.append(";");
        append_profile_filter(&mut out, k as u64, &videos[k]);
        k = k + 1;
        assert(out@ =~= labelled + profile_filters(videos@, k as nat));
    }
    assert(out@ =~= filter_complex_spec(videos@));
    out
}

} // verus!
