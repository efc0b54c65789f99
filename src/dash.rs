//! The DASH muxer choices that the transcoder passes on.

use vstd::prelude::*;

verus! {

/// How segments are cut into fragments.
#[derive(PartialEq, Eq, Structural, Clone, Copy, Debug)]
pub enum FragType {
    Auto,
    EveryFrame,
    Duration,
    PFrames,
}

impl FragType {
    pub open spec fn name_spec(&self) -> Seq<char> {
        match self {
            FragType::Auto => "auto"@,
            FragType::EveryFrame => "every_frame"@,
            FragType::Duration => "duration"@,
            FragType::PFrames => "pframes"@,
        }
    }

    /// The option value that names this choice.
    pub fn as_str(&self) -> (r: &'static str)
        ensures
            r@ == self.name_spec(),
    {
        match self {
            FragType::Auto => "auto",
            FragType::EveryFrame => "every_frame",
            FragType::Duration => "duration",
            FragType::PFrames => "pframes",
        }
    }

    pub fn to_string(&self) -> (r: String)
        ensures
            r@ == self.name_spec(),
    {
        self.as_str().to_owned()
    }

    pub fn default() -> (r: FragType)
        ensures
            r == FragType::Auto,
    {
        FragType::Auto
    }
}

/// The container format of DASH segment files.
#[derive(PartialEq, Eq, Structural, Clone, Copy, Debug)]
pub enum SegmentType {
    Auto,
    MP4,
    WebM,
}

impl SegmentType {
    pub open spec fn name_spec(&self) -> Seq<char> {
        match self {
            SegmentType::Auto => "auto"@,
            SegmentType::MP4 => "mp4"@,
            SegmentType::WebM => "webm"@,
        }
    }

    /// The option value that names this choice.
    pub fn as_str(&self) -> (r: &'static str)
        ensures
            r@ == self.name_spec(),
    {
        match self {
            SegmentType::Auto => "auto",
            SegmentType::MP4 => "mp4",
            SegmentType::WebM => "webm",
        }
    }

    pub fn to_string(&self) -> (r: String)
        ensures
            r@ == self.name_spec(),
    {
        self.as_str().to_owned()
    }

    pub fn default() -> (r: SegmentType)
        ensures
            r == SegmentType::Auto,
    {
        SegmentType::Auto
    }
}

} // verus!
