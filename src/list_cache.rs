//! The list cell: one segment held as an append-only sequence of chunk nodes,
//! ended by a sentinel node without a value, and the per-reader cursor that
//! walks it.

use vstd::prelude::*;
use crate::payload::{bytes_content, bytes_share};

verus! {

/// What a node holds: a chunk, or `None` for the sentinel that ends the stream.
pub open spec fn value_view(v: Option<bytes::Bytes>) -> Option<Seq<u8>> {
    match v {
        Some(b) => Some(bytes_content(b)),
        None => None,
    }
}

/// The first `k` nodes, all of which must hold chunks, as the chunks they hold.
pub open spec fn chunks_upto(nodes: Seq<Option<Seq<u8>>>, k: int) -> Seq<Seq<u8>> {
    Seq::new(k as nat, |i: int| nodes[i]->Some_0)
}

/// The first `k` nodes all hold chunks.
pub open spec fn all_chunks_before(nodes: Seq<Option<Seq<u8>>>, k: int) -> bool {
    0 <= k <= nodes.len() && forall|i: int| 0 <= i < k ==> (#[trigger] nodes[i]) is Some
}

/// `chunks` were appended in this order, each as one node from the start.
pub open spec fn starts_with_chunks(nodes: Seq<Option<Seq<u8>>>, chunks: Seq<Seq<u8>>) -> bool {
    chunks.len() <= nodes.len() && forall|i: int|
        0 <= i < chunks.len() ==> #[trigger] nodes[i] == Some(chunks[i])
}

/// The producer appended exactly `chunks`, in this order, then the sentinel.
pub open spec fn finished_with(nodes: Seq<Option<Seq<u8>>>, chunks: Seq<Seq<u8>>) -> bool {
    starts_with_chunks(nodes, chunks) && chunks.len() < nodes.len() && nodes[chunks.len() as int] is None
}

/// The nodes of a segment whose producer appended `chunks` and then ended it.
pub open spec fn ingested(chunks: Seq<Seq<u8>>) -> Seq<Option<Seq<u8>>> {
    chunks.map_values(|c: Seq<u8>| Some(c)).push(None)
}

/// An ingest that appended `chunks` and then the sentinel leaves a list that
/// is finished with exactly those chunks.
pub proof fn lemma_ingest_finishes(chunks: Seq<Seq<u8>>)
    ensures
        finished_with(ingested(chunks), chunks),
{
}

/// One link of the list: a chunk, or the sentinel.
pub struct Node {
    pub value: Option<bytes::Bytes>,
}

impl Node {
    pub fn new(value: Option<bytes::Bytes>) -> (r: Node)
        ensures
            r.value == value,
    {
        Node { value }
    }
}

/// The nodes of one segment in the order the producer appended them. Nodes are
/// never removed or changed, so a reader positioned on a node stays valid.
pub struct LinkedList {
    nodes: Vec<Node>,
}

impl View for LinkedList {
    type V = Seq<Option<Seq<u8>>>;

    closed spec fn view(&self) -> Seq<Option<Seq<u8>>> {
        self.nodes@.map_values(|n: Node| value_view(n.value))
    }
}

impl LinkedList {
    pub fn new() -> (r: LinkedList)
        ensures
            r@ == Seq::<Option<Seq<u8>>>::empty(),
    {
        LinkedList { nodes: Vec::new() }
    }

    /// The number of nodes appended so far.
    pub fn len(&self) -> (r: usize)
        ensures
            r == self@.len(),
    {
        self.nodes.len()
    }

    /// The first node, if any was appended.
    pub fn tail(&self) -> (r: Option<&Node>)
        ensures
            match r {
                Some(n) => self@.len() > 0 && value_view(n.value) == self@[0],
                None => self@.len() == 0,
            },
    {
        if self.nodes.len() == 0 {
            None
        } else {
            Some(&self.nodes[0])
        }
    }

    /// The node at position `i`, if it was appended.
    pub fn node(&self, i: usize) -> (r: Option<&Node>)
        ensures
            match r {
                Some(n) => i < self@.len() && value_view(n.value) == self@[i as int],
                None => i >= self@.len(),
            },
    {
        if i < self.nodes.len() {
            Some(&self.nodes[i])
        } else {
            None
        }
    }

    /// Appends a node after the current head.
    pub fn insert(&mut self, value: Option<bytes::Bytes>)
        ensures
            final(self)@ == old(self)@.push(value_view(value)),
    {
        self.nodes.push(Node::new(value));
        proof {
            assert(self@ =~= old(self)@.push(value_view(value)));
        }
    }
}

/// One cache entry of the list shape. The wake-up primitive that readers park
/// on lives beside it, with the code that shares the cell between tasks.
pub struct Cell {
    data: LinkedList,
}

impl View for Cell {
    type V = Seq<Option<Seq<u8>>>;

    closed spec fn view(&self) -> Seq<Option<Seq<u8>>> {
        self.data@
    }
}

impl Cell {
    pub fn new() -> (r: Cell)
        ensures
            r@ == Seq::<Option<Seq<u8>>>::empty(),
    {
        Cell { data: LinkedList::new() }
    }

    /// The first node of the segment, if any was appended.
    pub fn tail(&self) -> (r: Option<&Node>)
        ensures
            match r {
                Some(n) => self@.len() > 0 && value_view(n.value) == self@[0],
                None => self@.len() == 0,
            },
    {
        self.data.tail()
    }

    pub fn list(&self) -> (r: &LinkedList)
        ensures
            r@ == self@,
    {
        &self.data
    }

    /// Appends a chunk, or with `None` the sentinel that ends the segment.
    pub fn append(&mut self, value: Option<bytes::Bytes>)
        ensures
            final(self)@ == old(self)@.push(value_view(value)),
    {
        self.data.insert(value);
    }
}

} // verus!
