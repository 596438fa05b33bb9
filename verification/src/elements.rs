//! Selected graph elements: a set of node indices and a set of edge
//! indices, as the network widgets pass them around.
//!
//! Indices are plain integers; each collection holds every index at most
//! once, in insertion order.

use vstd::prelude::*;
use vstd::seq_lib::lemma_seq_contains_after_push;

verus! {

broadcast use lemma_seq_contains_after_push;

/// No index occurs twice in `s`.
pub open spec fn no_dups(s: Seq<u64>) -> bool {
    forall|i: int, j: int| 0 <= i < j < s.len() ==> s[i] != s[j]
}

/// A selection of nodes and edges of a graph, each held at most once.
#[derive(Clone, Debug, PartialEq, Eq)]
pub struct Elements {
    /// Selected node indices, in insertion order, without duplicates.
    pub nodes: Vec<u64>,
    /// Selected edge indices, in insertion order, without duplicates.
    pub edges: Vec<u64>,
}

impl Elements {
    /// Both collections are duplicate-free.
    pub open spec fn wf(self) -> bool {
        no_dups(self.nodes@) && no_dups(self.edges@)
    }

    /// The selected nodes, as a set.
    pub open spec fn spec_nodes(self) -> Set<u64> {
        self.nodes@.to_set()
    }

    /// The selected edges, as a set.
    pub open spec fn spec_edges(self) -> Set<u64> {
        self.edges@.to_set()
    }

    /// A selection holding exactly the given indices.
    pub fn new(nodes: Vec<u64>, edges: Vec<u64>) -> (r: Elements)
        requires
            no_dups(nodes@),
            no_dups(edges@),
        ensures
            r.wf(),
            r.nodes == nodes,
            r.edges == edges,
    {
        Elements { nodes, edges }
    }

    /// An empty selection.
    pub fn empty() -> (r: Elements)
        ensures
            r.wf(),
            r.spec_nodes() =~= Set::<u64>::empty(),
            r.spec_edges() =~= Set::<u64>::empty(),
    {
        Elements { nodes: Vec::new(), edges: Vec::new() }
    }

    /// Adds one node; reports whether it was new.
    pub fn add_node(&mut self, n: u64) -> (r: bool)
        requires
            old(self).wf(),
        ensures
            final(self).wf(),
            r == !old(self).spec_nodes().contains(n),
            final(self).spec_nodes() == old(self).spec_nodes().insert(n),
            final(self).edges == old(self).edges,
    {
        let r = push_unique(&mut self.nodes, n);
        proof {
            assert(self.nodes@.to_set() =~= old(self).nodes@.to_set().insert(n));
        }
        r
    }

    /// Adds one edge; reports whether it was new.
    pub fn add_edge(&mut self, e: u64) -> (r: bool)
        requires
            old(self).wf(),
        ensures
            final(self).wf(),
            r == !old(self).spec_edges().contains(e),
            final(self).spec_edges() == old(self).spec_edges().insert(e),
            final(self).nodes == old(self).nodes,
    {
        let r = push_unique(&mut self.edges, e);
        proof {
            assert(self.edges@.to_set() =~= old(self).edges@.to_set().insert(e));
        }
        r
    }

    /// True when nothing is selected.
    pub fn is_empty(&self) -> (r: bool)
        ensures
            r == (self.nodes@.len() == 0 && self.edges@.len() == 0),
    {
        self.nodes.len() == 0 && self.edges.len() == 0
    }

    /// Merges another selection into this one: afterwards this selection
    /// holds the union of both node sets and of both edge sets.
    pub fn union(&mut self, other: &Elements)
        requires
            old(self).wf(),
            other.wf(),
        ensures
            final(self).wf(),
            final(self).spec_nodes() == old(self).spec_nodes().union(other.spec_nodes()),
            final(self).spec_edges() == old(self).spec_edges().union(other.spec_edges()),
    {
        merge_unique(&mut self.nodes, &other.nodes);
        merge_unique(&mut self.edges, &other.edges);
    }

    /// The selected node indices, in insertion order.
    pub fn nodes(&self) -> (r: Vec<u64>)
        ensures
            r@ == self.nodes@,
    {
        copy_indices(&self.nodes)
    }

    /// The selected edge indices, in insertion order.
    pub fn edges(&self) -> (r: Vec<u64>)
        ensures
            r@ == self.edges@,
    {
        copy_indices(&self.edges)
    }
}

/// Whether `x` occurs in `v`.
fn contains_index(v: &Vec<u64>, x: u64) -> (r: bool)
    ensures
        r == v@.contains(x),
{
    let mut i: usize = 0;
    while i < v.len()
        invariant
            i <= v.len(),
            forall|j: int| 0 <= j < i ==> v@[j] != x,
        decreases v.len() - i,
    {
        if v[i] == x {
            return true;
        }
        i = i + 1;
    }
    false
}

/// Appends `x` unless it is already present; reports whether it was new.
fn push_unique(v: &mut Vec<u64>, x: u64) -> (r: bool)
    requires
        no_dups(old(v)@),
    ensures
        no_dups(final(v)@),
        r == !old(v)@.contains(x),
        final(v)@ == (if old(v)@.contains(x) {
            old(v)@
        } else {
            old(v)@.push(x)
        }),
{
    if contains_index(v, x) {
        false
    } else {
        v.push(x);
        true
    }
}

/// Appends every index of `from` that `v` does not hold yet.
fn merge_unique(v: &mut Vec<u64>, from: &Vec<u64>)
    requires
        no_dups(old(v)@),
    ensures
        no_dups(final(v)@),
        final(v)@.to_set() == old(v)@.to_set().union(from@.to_set()),
{
    let mut i: usize = 0;
    while i < from.len()
        invariant
            i <= from.len(),
            no_dups(v@),
            forall|x: u64|
                v@.contains(x) <==> (old(v)@.contains(x) || from@.subrange(0, i as int).contains(
                    x,
                )),
        decreases from.len() - i,
    {
        let ghost prev = v@;
        push_unique(v, from[i]);
        proof {
            let sub_next = from@.subrange(0, i + 1 as int);
            assert(sub_next.drop_last() =~= from@.subrange(0, i as int));
            assert(sub_next.last() == from@[i as int]);
            assert forall|x: u64|
                v@.contains(x) <==> (old(v)@.contains(x) || sub_next.contains(x)) by {
                assert(sub_next.contains(x) <==> (sub_next.drop_last().contains(x) || x
                    == sub_next.last()));
                if prev.contains(x) {
                    assert(v@.contains(x));
                }
            }
        }
        i = i + 1;
    }
    proof {
        assert(from@.subrange(0, from@.len() as int) =~= from@);
        assert(v@.to_set() =~= old(v)@.to_set().union(from@.to_set()));
    }
}

/// A fresh vector holding the same indices in the same order.
fn copy_indices(v: &Vec<u64>) -> (r: Vec<u64>)
    ensures
        r@ == v@,
{
    let mut r: Vec<u64> = Vec::new();
    let mut i: usize = 0;
    while i < v.len()
        invariant
            i <= v.len(),
            r@ == v@.subrange(0, i as int),
        decreases v.len() - i,
    {
        r.push(v[i]);
        i = i + 1;
    }
    proof {
        assert(v@.subrange(0, v@.len() as int) =~= v@);
    }
    r
}

} // verus!
