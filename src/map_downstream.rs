//! A reader of a map cell: it remembers how many bytes it has sent and on each
//! poll emits the suffix that was published since.

use vstd::prelude::*;
use crate::payload::{bytes_content, bytes_len, bytes_slice};
use crate::map_cache::Cell;
use crate::coalesce::concat;

verus! {

/// The outcome of one poll of a map reader.
pub enum MapPoll {
    /// The bytes published since the previous frame.
    Frame(bytes::Bytes),
    /// The final buffer has been sent in full.
    End,
    /// The published buffer is shorter than what was already sent: the
    /// producer broke the growth rule and the stream ends.
    Truncated,
    /// Nothing new was published; wait for the next publication.
    Pending,
}

/// `a` is a prefix of `b`.
pub open spec fn is_prefix(a: Seq<u8>, b: Seq<u8>) -> bool {
    a.len() <= b.len() && b.subrange(0, a.len() as int) == a
}

pub struct CellDownstream {
    bytes_sent: usize,
    emitted: Ghost<Seq<u8>>,
}

impl CellDownstream {
    pub closed spec fn sent(&self) -> int {
        self.bytes_sent as int
    }

    /// All bytes emitted so far, frames concatenated.
    pub closed spec fn emitted(&self) -> Seq<u8> {
        self.emitted@
    }

    /// What the reader emitted is the start of the buffer `data`.
    pub open spec fn follows(&self, data: Option<Seq<u8>>) -> bool {
        match data {
            None => self.sent() == 0 && self.emitted() == Seq::<u8>::empty(),
            Some(d) => self.sent() <= d.len() && self.emitted() == d.subrange(0, self.sent()),
        }
    }

    /// The reader has sent all of the final buffer of `cell`.
    pub open spec fn ended_on(&self, cell: &Cell) -> bool {
        cell.completed_spec() && match cell.data_spec() {
            None => true,
            Some(d) => d.len() == self.sent(),
        }
    }

    /// A reader that has sent nothing yet.
    pub fn new() -> (r: CellDownstream)
        ensures
            r.sent() == 0,
            r.emitted() == Seq::<u8>::empty(),
            forall|data: Option<Seq<u8>>| #[trigger] r.follows(data),
    {
        let r = CellDownstream { bytes_sent: 0, emitted: Ghost(Seq::empty()) };
        assert forall|data: Option<Seq<u8>>| #[trigger] r.follows(data) by {
            if let Some(d) = data {
                assert(d.subrange(0, 0) =~= Seq::<u8>::empty());
            }
        }
        r
    }

    pub fn bytes_sent(&self) -> (r: usize)
        ensures
            r == self.sent(),
    {
        self.bytes_sent
    }

    /// Looks at the buffer `cell` published last and emits what is new in it.
    pub fn poll_next(&mut self, cell: &Cell) -> (r: MapPoll)
        ensures
            match cell.data_spec() {
                None => *final(self) == *old(self) && if cell.completed_spec() {
                    r is End
                } else {
                    r is Pending
                },
                Some(d) => if d.len() < old(self).sent() {
                    r is Truncated && *final(self) == *old(self)
                } else if d.len() == old(self).sent() {
                    *final(self) == *old(self) && if cell.completed_spec() {
                        r is End
                    } else {
                        r is Pending
                    }
                } else {
                    &&& r matches MapPoll::Frame(b) && bytes_content(b) == d.subrange(
                        old(self).sent(),
                        d.len() as int,
                    )
                    &&& final(self).sent() == d.len()
                    &&& final(self).emitted() == old(self).emitted() + d.subrange(
                        old(self).sent(),
                        d.len() as int,
                    )
                },
            },
            old(self).follows(cell.data_spec()) ==> final(self).follows(cell.data_spec()),
    {
        let completed = cell.completed();
        match cell.data() {
            None => {
                if completed {
                    MapPoll::End
                } else {
                    MapPoll::Pending
                }
            },
            Some(data) => {
                let size = bytes_len(&data);
                if size < self.bytes_sent {
                    MapPoll::Truncated
                } else if size == self.bytes_sent {
                    if completed {
                        MapPoll::End
                    } else {
                        MapPoll::Pending
                    }
                } else {
                    let ghost d = bytes_content(data);
                    let ghost was_following = self.follows(cell.data_spec());
                    let chunk = bytes_slice(&data, self.bytes_sent, size);
                    proof {
                        if was_following {
                            assert(self.emitted@ + d.subrange(self.sent(), d.len() as int)
                                =~= d.subrange(0, d.len() as int));
                        }
                    }
                    self.emitted = Ghost(self.emitted@ + bytes_content(chunk));
                    self.bytes_sent = size;
                    MapPoll::Frame(chunk)
                }
            },
        }
    }
}

/// A publication that extends the previous buffer never invalidates what a
/// reader has emitted.
pub proof fn lemma_growth_keeps_readers(
    reader: CellDownstream,
    before: Option<Seq<u8>>,
    after: Seq<u8>,
)
    requires
        reader.follows(before),
        match before {
            None => true,
            Some(b) => is_prefix(b, after),
        },
    ensures
        reader.follows(Some(after)),
{
    match before {
        None => {
            assert(after.subrange(0, 0) =~= Seq::<u8>::empty());
        },
        Some(b) => {
            assert(after.subrange(0, reader.sent()) =~= b.subrange(0, reader.sent()));
        },
    }
}

/// A reader that reached the end of a completed cell has emitted exactly the
/// final buffer.
pub proof fn lemma_ended_reader_has_buffer(reader: CellDownstream, cell: &Cell)
    requires
        reader.follows(cell.data_spec()),
        reader.ended_on(cell),
    ensures
        reader.emitted() == match cell.data_spec() {
            None => Seq::<u8>::empty(),
            Some(d) => d,
        },
{
    if let Some(d) = cell.data_spec() {
        assert(d.subrange(0, d.len() as int) =~= d);
    }
}

/// Readers of the same completed cell that both reached its end emitted the
/// same bytes, wherever each one joined.
pub proof fn lemma_map_readers_agree(first: CellDownstream, second: CellDownstream, cell: &Cell)
    requires
        first.follows(cell.data_spec()),
        second.follows(cell.data_spec()),
        first.ended_on(cell),
        second.ended_on(cell),
    ensures
        first.emitted() == second.emitted(),
{
    lemma_ended_reader_has_buffer(first, cell);
    lemma_ended_reader_has_buffer(second, cell);
}

/// A reader that reached the end of a completed cell whose final buffer is
/// the ingested chunks laid end to end has emitted exactly those chunks.
pub proof fn lemma_ended_reader_has_all_chunks(
    reader: CellDownstream,
    cell: &Cell,
    chunks: Seq<Seq<u8>>,
)
    requires
        reader.follows(cell.data_spec()),
        reader.ended_on(cell),
        cell.data_spec() == Some(concat(chunks)),
    ensures
        reader.emitted() == concat(chunks),
{
    lemma_ended_reader_has_buffer(reader, cell);
}

} // verus!
