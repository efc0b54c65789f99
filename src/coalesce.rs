//! The producer side of a map cell: chunks are appended to one growing buffer
//! and each publication is a snapshot of it, so every published buffer
//! extends the one before.

use vstd::prelude::*;
use crate::payload::{bytes_as_slice, bytes_content, bytes_copy_from_slice};
use crate::map_downstream::is_prefix;

verus! {

/// The chunks laid end to end.
pub open spec fn concat(chunks: Seq<Seq<u8>>) -> Seq<u8>
    decreases chunks.len(),
{
    if chunks.len() == 0 {
        Seq::empty()
    } else {
        concat(chunks.drop_last()) + chunks.last()
    }
}

pub struct Coalescer {
    buffer: Vec<u8>,
}

impl Coalescer {
    /// The bytes gathered so far.
    pub closed spec fn buffer(&self) -> Seq<u8> {
        self.buffer@
    }

    /// An empty buffer with room for `preallocate` bytes before it grows.
    pub fn new(preallocate: usize) -> (r: Coalescer)
        ensures
            r.buffer() == Seq::<u8>::empty(),
    {
        Coalescer { buffer: Vec::with_capacity(preallocate) }
    }

    /// Appends `chunk` and returns the grown buffer to publish.
    pub fn push(&mut self, chunk: &bytes::Bytes) -> (r: bytes::Bytes)
        ensures
            final(self).buffer() == old(self).buffer() + bytes_content(*chunk),
            bytes_content(r) == final(self).buffer(),
    {
        let slice = bytes_as_slice(chunk);
        self.buffer.extend_from_slice(slice);
        assert(self.buffer@ =~= old(self).buffer@ + bytes_content(*chunk));
        bytes_copy_from_slice(self.buffer.as_slice())
    }

    /// The whole buffer, for the final publication.
    pub fn snapshot(&self) -> (r: bytes::Bytes)
        ensures
            bytes_content(r) == self.buffer(),
    {
        bytes_copy_from_slice(self.buffer.as_slice())
    }
}

/// After chunks are pushed one by one onto an empty buffer, the buffer holds
/// them end to end: pushing one more chunk extends the concatenation by it.
pub proof fn lemma_push_concatenates(chunks: Seq<Seq<u8>>, chunk: Seq<u8>)
    ensures
        concat(chunks.push(chunk)) == concat(chunks) + chunk,
{
    assert(chunks.push(chunk).drop_last() =~= chunks);
}

/// Every published buffer extends every buffer published before it: the
/// publication after `i` chunks is a prefix of the one after `j >= i` chunks.
pub proof fn lemma_publications_grow(chunks: Seq<Seq<u8>>, i: int, j: int)
    requires
        0 <= i <= j <= chunks.len(),
    ensures
        is_prefix(concat(chunks.take(i)), concat(chunks.take(j))),
    decreases j - i,
{
    if i == j {
        let c = concat(chunks.take(i));
        assert(c.subrange(0, c.len() as int) =~= c);
    } else {
        lemma_publications_grow(chunks, i, j - 1);
        assert(chunks.take(j).drop_last() =~= chunks.take(j - 1));
        let a = concat(chunks.take(i));
        let b = concat(chunks.take(j - 1));
        let c = concat(chunks.take(j));
        assert(c == b + chunks.take(j).last());
        assert(c.subrange(0, a.len() as int) =~= b.subrange(0, a.len() as int));
    }
}

} // verus!
