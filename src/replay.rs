//! The replayer's pacing: which recorded segment to send next and how long to
//! wait before it, and how the chunks of one file are cut and spaced, so that
//! a recording is played back with the timing it was captured with.

use vstd::prelude::*;
use crate::metadata::{ChunkRecord, FileMetadata};

verus! {

/// Pauses this short or shorter are skipped.
pub const MIN_PAUSE_MS: u32 = 2;

/// The wait between two recorded instants; an instant before the previous
/// one counts as no wait.
pub open spec fn gap_spec(from: u32, to: u32) -> u32 {
    if to > from {
        (to - from) as u32
    } else {
        0
    }
}

pub fn gap(from: u32, to: u32) -> (r: u32)
    ensures
        r == gap_spec(from, to),
{
    if to > from {
        to - from
    } else {
        0
    }
}

/// The offset from the stream's start at which the last chunk of a recorded
/// file arrived; a file without chunks ends where it starts.
pub open spec fn end_offset_spec(time_offset: u32, chunks: Seq<ChunkRecord>) -> u32 {
    if chunks.len() == 0 {
        time_offset
    } else if time_offset + chunks.last().0 <= u32::MAX {
        (time_offset + chunks.last().0) as u32
    } else {
        u32::MAX
    }
}

pub fn end_offset(file: &FileMetadata) -> (r: u32)
    ensures
        r == end_offset_spec(file.time_offset, file.chunks@),
{
    let n = file.chunks.len();
    if n == 0 {
        file.time_offset
    } else {
        file.time_offset.saturating_add(file.chunks[n - 1].0)
    }
}

/// What the replay loop does next.
pub enum ReplayStep {
    /// Wait `pause_ms` (when it is non-zero), then send segment `index`.
    Send { index: usize, pause_ms: u32 },
    Stop,
}

/// Where the replay of one quality stands.
pub struct ReplayState {
    /// The segment to send next.
    pub next: usize,
    /// When, from the stream's start, the previous file's last chunk was sent.
    pub last_time_offset: u32,
}

impl ReplayState {
    /// The state after the initialization segment `init`, if any, was sent.
    pub fn new(init: &Option<FileMetadata>) -> (r: ReplayState)
        ensures
            r.next == 0,
            r.last_time_offset == match init {
                Some(f) => end_offset_spec(f.time_offset, f.chunks@),
                None => 0,
            },
    {
        let last = match init {
            Some(f) => end_offset(f),
            None => 0,
        };
        ReplayState { next: 0, last_time_offset: last }
    }

    /// Picks the next segment. Once every segment was sent the replay stops,
    /// or with `looping` starts over from the first one; `time_up` stops it.
    pub fn step(&mut self, segments: &Vec<FileMetadata>, looping: bool, time_up: bool) -> (r:
        ReplayStep)
        ensures
            time_up || segments@.len() == 0 || (old(self).next >= segments@.len() && !looping)
                ==> r is Stop && *final(self) == *old(self),
            !time_up && segments@.len() > 0 && (old(self).next < segments@.len() || looping) ==> {
                let index = if old(self).next < segments@.len() {
                    old(self).next as int
                } else {
                    0
                };
                let last = if old(self).next < segments@.len() {
                    old(self).last_time_offset
                } else {
                    0
                };
                let seg = segments@[index];
                let wait = gap_spec(last, seg.time_offset);
                &&& r == (ReplayStep::Send {
                    index: index as usize,
                    pause_ms: if wait > MIN_PAUSE_MS {
                        wait
                    } else {
                        0
                    },
                })
                &&& final(self).next == index + 1
                &&& final(self).last_time_offset == end_offset_spec(seg.time_offset, seg.chunks@)
            },
    {
        if time_up || segments.len() == 0 {
            return ReplayStep::Stop;
        }
        if self.next >= segments.len() {
            if !looping {
                return ReplayStep::Stop;
            }
            self.next = 0;
            self.last_time_offset = 0;
        }
        let index = self.next;
        let seg = &segments[index];
        let wait = gap(self.last_time_offset, seg.time_offset);
        let pause_ms = if wait > MIN_PAUSE_MS {
            wait
        } else {
            0
        };
        self.next = index + 1;
        self.last_time_offset = end_offset(seg);
        ReplayStep::Send { index, pause_ms }
    }
}

/// How one chunk of a recorded file is sent.
pub enum ChunkPlan {
    /// Send bytes `begin..end` of the file, then wait `pause_ms` (when non-zero).
    Send { begin: usize, end: usize, pause_ms: u32 },
    /// Every chunk was sent.
    Done,
    /// The record places the chunk outside the `len` bytes of the file.
    OutOfRange,
}

/// The plan for chunk `idx` of `chunks` in a file of `len` bytes: the pause
/// after it is the recorded gap to the next chunk.
pub fn chunk_plan(chunks: &Vec<ChunkRecord>, idx: usize, len: usize) -> (r: ChunkPlan)
    ensures
        idx >= chunks@.len() ==> r is Done,
        idx < chunks@.len() ==> {
            let (ts, offset, size) = chunks@[idx as int];
            if offset + size > len {
                r is OutOfRange
            } else {
                let wait = if idx + 1 < chunks@.len() {
                    gap_spec(ts, chunks@[idx + 1].0)
                } else {
                    0
                };
                r == (ChunkPlan::Send {
                    begin: offset,
                    end: (offset + size) as usize,
                    pause_ms: if wait > MIN_PAUSE_MS {
                        wait
                    } else {
                        0
                    },
                })
            }
        },
{
    if idx >= chunks.len() {
        return ChunkPlan::Done;
    }
    let (ts, offset, size) = chunks[idx];
    if size > len || offset > len - size {
        return ChunkPlan::OutOfRange;
    }
    let wait = if idx + 1 < chunks.len() {
        gap(ts, chunks[idx + 1].0)
    } else {
        0
    };
    let pause_ms = if wait > MIN_PAUSE_MS {
        wait
    } else {
        0
    };
    ChunkPlan::Send { begin: offset, end: offset + size, pause_ms }
}

} // verus!
