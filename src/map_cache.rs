//! The map cell: one segment held as a single buffer that the producer
//! republishes, grown, on every chunk, with a flag that pins the last one.

use vstd::prelude::*;
use crate::payload::{bytes_content, bytes_share};

verus! {

/// What a published buffer slot holds.
pub open spec fn data_view(v: Option<bytes::Bytes>) -> Option<Seq<u8>> {
    match v {
        Some(b) => Some(bytes_content(b)),
        None => None,
    }
}

/// One cache entry of the map shape. The wake-up primitive that readers park
/// on lives beside it, with the code that shares the cell between tasks.
pub struct Cell {
    data: Option<bytes::Bytes>,
    completed: bool,
}

impl Cell {
    /// The buffer published last, if any.
    pub closed spec fn data_spec(&self) -> Option<Seq<u8>> {
        data_view(self.data)
    }

    /// Whether the final buffer has been published.
    pub closed spec fn completed_spec(&self) -> bool {
        self.completed
    }

    /// An empty cell: nothing published, not completed.
    pub fn new() -> (r: Cell)
        ensures
            r.data_spec() is None,
            !r.completed_spec(),
    {
        Cell { data: None, completed: false }
    }

    /// A handle on the buffer published last.
    pub fn data(&self) -> (r: Option<bytes::Bytes>)
        ensures
            data_view(r) == self.data_spec(),
    {
        match &self.data {
            Some(b) => Some(bytes_share(b)),
            None => None,
        }
    }

    /// Replaces the published buffer; `completed` marks it as the final one.
    pub fn set_data(&mut self, data: bytes::Bytes, completed: bool)
        ensures
            final(self).data_spec() == Some(bytes_content(data)),
            final(self).completed_spec() == completed,
    {
        self.data = Some(data);
        self.completed = completed;
    }

    pub fn completed(&self) -> (r: bool)
        ensures
            r == self.completed_spec(),
    {
        self.completed
    }
}

} // verus!
