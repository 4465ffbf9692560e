//! A walk over a forward-linked list of metadata nodes.
//!
//! Vendor metadata libraries hand lists over as chains of nodes, each holding
//! a datum and a link to its successor. Here such a chain is held in an
//! arena: a node is an index into a vector, and a link is the index of the
//! successor. Links point strictly forward, so every walk terminates.

use vstd::prelude::*;

verus! {

/// One node of the chain: a datum and the index of the successor node, if
/// there is one.
pub struct GListNode<T> {
    pub data: T,
    pub next: Option<usize>,
}

/// Arena well-formedness: every link points forward, to a node inside the
/// arena.
pub open spec fn wf_nodes<T>(nodes: Seq<GListNode<T>>) -> bool {
    forall|i: int|
        0 <= i < nodes.len() ==> match (#[trigger] nodes[i]).next {
            Some(j) => i < j < nodes.len(),
            None => true,
        }
}

/// The data of the nodes reached from `cur` by following the links, in walk
/// order.
pub open spec fn remaining_data<T>(nodes: Seq<GListNode<T>>, cur: Option<usize>) -> Seq<T>
    decreases
            (match cur {
                Some(i) => nodes.len() - i,
                None => 0,
            }),
{
    match cur {
        None => Seq::empty(),
        Some(i) => if 0 <= i < nodes.len() {
            match nodes[i as int].next {
                Some(j) => if i < j < nodes.len() {
                    seq![nodes[i as int].data] + remaining_data(nodes, Some(j))
                } else {
                    seq![nodes[i as int].data]
                },
                None => seq![nodes[i as int].data],
            }
        } else {
            Seq::empty()
        },
    }
}

/// An iterator over the chain, yielding each node's datum in walk order.
pub struct GListIter<T> {
    pub nodes: Vec<GListNode<T>>,
    pub cur: Option<usize>,
}

impl<T: Copy> GListIter<T> {
    /// The iterator's arena is well formed and its cursor is inside it.
    pub open spec fn wf(self) -> bool {
        &&& wf_nodes(self.nodes@)
        &&& match self.cur {
            Some(i) => i < self.nodes@.len(),
            None => true,
        }
    }

    /// The data still to be yielded.
    pub open spec fn remaining(self) -> Seq<T> {
        remaining_data(self.nodes@, self.cur)
    }

    /// Begin a walk of `nodes` at `start`.
    pub fn new(nodes: Vec<GListNode<T>>, start: Option<usize>) -> (r: Self)
        requires
            wf_nodes(nodes@),
            start matches Some(i) ==> i < nodes@.len(),
        ensures
            r.wf(),
            r.remaining() == remaining_data(nodes@, start),
    {
        GListIter { nodes, cur: start }
    }

    /// Yield the current node's datum and advance past it, or yield nothing
    /// at the end of the chain.
    pub fn next(&mut self) -> (r: Option<T>)
        requires
            old(self).wf(),
        ensures
            final(self).wf(),
            match r {
                Some(v) => old(self).remaining().len() > 0 && v == old(self).remaining()[0]
                    && final(self).remaining() == old(self).remaining().skip(1),
                None => old(self).remaining().len() == 0
                    && final(self).remaining() == old(self).remaining(),
            },
    {
        match self.cur {
            None => None,
            Some(i) => {
                let ghost pre = *self;
                let node_data = self.nodes[i].data;
                let node_next = self.nodes[i].next;
                self.cur = node_next;
                proof {
                    assert(pre.remaining() == seq![node_data] + remaining_data(
                        pre.nodes@,
                        node_next,
                    ));
                    assert(pre.remaining().skip(1) =~= self.remaining());
                }
                Some(node_data)
            },
        }
    }
}

} // verus!
