//! A reader of a list cell: it walks the nodes from the first one, yields each
//! chunk once and in append order, and parks when it has caught up with the
//! producer.

use vstd::prelude::*;
use crate::payload::{bytes_content, bytes_share};
use crate::list_cache::{
    Cell, all_chunks_before, chunks_upto, finished_with, starts_with_chunks, value_view,
};

verus! {

/// The outcome of one poll of a reader.
pub enum ListPoll {
    /// The next chunk of the segment.
    Frame(bytes::Bytes),
    /// The reader met the sentinel: the segment is complete.
    End,
    /// The reader has caught up with the producer and must wait for an append.
    Pending,
}

pub struct ListDownstream {
    /// The node the reader stands on; `None` before the first node.
    cursor: Option<usize>,
    /// The chunks handed out so far, in order.
    yielded: Ghost<Seq<Seq<u8>>>,
}

impl ListDownstream {
    /// The number of nodes the reader has passed over, the one it stands on included.
    pub closed spec fn consumed(&self) -> int {
        match self.cursor {
            Some(i) => i + 1,
            None => 0,
        }
    }

    /// The chunks this reader has yielded, in order.
    pub closed spec fn yielded(&self) -> Seq<Seq<u8>> {
        self.yielded@
    }

    /// The reader stands on the sentinel of `nodes`.
    pub open spec fn ended_on(&self, nodes: Seq<Option<Seq<u8>>>) -> bool {
        0 < self.consumed() <= nodes.len() && nodes[self.consumed() - 1] is None
    }

    /// What the reader has yielded is exactly the chunks of the nodes it passed.
    pub open spec fn follows(&self, nodes: Seq<Option<Seq<u8>>>) -> bool {
        &&& self.consumed() <= nodes.len()
        &&& if self.ended_on(nodes) {
            all_chunks_before(nodes, self.consumed() - 1) && self.yielded() == chunks_upto(
                nodes,
                self.consumed() - 1,
            )
        } else {
            all_chunks_before(nodes, self.consumed()) && self.yielded() == chunks_upto(
                nodes,
                self.consumed(),
            )
        }
    }

    /// A reader positioned before the first node.
    pub fn new() -> (r: ListDownstream)
        ensures
            r.consumed() == 0,
            r.yielded() == Seq::<Seq<u8>>::empty(),
            forall|nodes: Seq<Option<Seq<u8>>>| #[trigger] r.follows(nodes),
    {
        let r = ListDownstream { cursor: None, yielded: Ghost(Seq::empty()) };
        assert forall|nodes: Seq<Option<Seq<u8>>>| #[trigger] r.follows(nodes) by {
            assert(chunks_upto(nodes, 0) =~= Seq::<Seq<u8>>::empty());
        }
        r
    }

    /// Advances the reader by at most one node of `cell`.
    pub fn poll_next(&mut self, cell: &Cell) -> (r: ListPoll)
        ensures
            old(self).ended_on(cell@) ==> r is End && *final(self) == *old(self),
            !old(self).ended_on(cell@) && old(self).consumed() >= cell@.len() ==> r is Pending
                && *final(self) == *old(self),
            !old(self).ended_on(cell@) && old(self).consumed() < cell@.len() ==> {
                &&& final(self).consumed() == old(self).consumed() + 1
                &&& match cell@[old(self).consumed()] {
                    Some(c) => r matches ListPoll::Frame(b) && bytes_content(b) == c
                        && final(self).yielded() == old(self).yielded().push(c),
                    None => r is End && final(self).yielded() == old(self).yielded(),
                }
            },
            old(self).follows(cell@) ==> final(self).follows(cell@),
    {
        let list = cell.list();
        let len = list.len();
        let next_index: usize = match self.cursor {
            None => 0,
            Some(i) => {
                if i >= len {
                    return ListPoll::Pending;
                }
                if let Some(node) = list.node(i) {
                    if node.value.is_none() {
                        return ListPoll::End;
                    }
                }
                i + 1
            },
        };
        match list.node(next_index) {
            None => ListPoll::Pending,
            Some(node) => {
                let ghost nodes = cell@;
                let ghost was_following = self.follows(nodes);
                self.cursor = Some(next_index);
                match &node.value {
                    Some(b) => {
                        self.yielded = Ghost(self.yielded@.push(bytes_content(*b)));
                        proof {
                            if was_following {
                                assert(self.yielded() =~= chunks_upto(nodes, self.consumed()));
                            }
                        }
                        ListPoll::Frame(bytes_share(b))
                    },
                    None => ListPoll::End,
                }
            },
        }
    }
}

/// The chunks a reader yields are the chunks the producer appended, in append
/// order: they are the first nodes of the list.
pub proof fn lemma_yields_in_append_order(reader: ListDownstream, nodes: Seq<Option<Seq<u8>>>)
    requires
        reader.follows(nodes),
    ensures
        starts_with_chunks(nodes, reader.yielded()),
{
}

/// Appending to the list never invalidates what a reader has yielded.
pub proof fn lemma_append_keeps_readers(
    reader: ListDownstream,
    nodes: Seq<Option<Seq<u8>>>,
    more: Seq<Option<Seq<u8>>>,
)
    requires
        reader.follows(nodes),
    ensures
        reader.follows(nodes + more),
{
    let all = nodes + more;
    if reader.ended_on(nodes) {
        assert(chunks_upto(all, reader.consumed() - 1) =~= chunks_upto(nodes, reader.consumed() - 1));
    } else {
        assert(chunks_upto(all, reader.consumed()) =~= chunks_upto(nodes, reader.consumed()));
    }
}

/// A reader that reached the end of a finished list has yielded every chunk
/// the producer appended, in order.
pub proof fn lemma_ended_reader_is_complete(
    reader: ListDownstream,
    nodes: Seq<Option<Seq<u8>>>,
    chunks: Seq<Seq<u8>>,
)
    requires
        reader.follows(nodes),
        reader.ended_on(nodes),
        finished_with(nodes, chunks),
    ensures
        reader.yielded() == chunks,
{
    let k = reader.consumed() - 1;
    if k < chunks.len() {
        assert(nodes[k] == Some(chunks[k]));
    }
    if k > chunks.len() {
        assert(nodes[chunks.len() as int] is Some);
    }
    assert(reader.yielded() =~= chunks);
}

/// On a finished list a reader that has not ended always has a node to move
/// to: it never parks, so draining it reaches the end.
pub proof fn lemma_finished_list_never_parks(
    reader: ListDownstream,
    nodes: Seq<Option<Seq<u8>>>,
    chunks: Seq<Seq<u8>>,
)
    requires
        reader.follows(nodes),
        !reader.ended_on(nodes),
        finished_with(nodes, chunks),
    ensures
        reader.consumed() <= chunks.len() < nodes.len(),
{
    if reader.consumed() > chunks.len() {
        assert(nodes[chunks.len() as int] is Some);
    }
}

/// Readers of the same finished list that both reached its end yielded the
/// same chunks, wherever each one joined.
pub proof fn lemma_readers_agree(
    first: ListDownstream,
    second: ListDownstream,
    nodes: Seq<Option<Seq<u8>>>,
    chunks: Seq<Seq<u8>>,
)
    requires
        first.follows(nodes),
        second.follows(nodes),
        first.ended_on(nodes),
        second.ended_on(nodes),
        finished_with(nodes, chunks),
    ensures
        first.yielded() == second.yielded(),
{
    lemma_ended_reader_is_complete(first, nodes, chunks);
    lemma_ended_reader_is_complete(second, nodes, chunks);
}

} // verus!
