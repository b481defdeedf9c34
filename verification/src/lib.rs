//! A small in-memory graph library for learning purposes.
//!
//! A [`Graph`] owns a capacity-bounded sequence of [`Node`]s; each node owns
//! its outgoing adjacency list, a map from neighbor index to the [`Edge`]
//! reaching that neighbor. Edges are directed records even when the owning
//! graph is flagged as undirected; the flag is stored for callers to
//! interpret and is not acted on by the edge operations themselves.
//!
//! The edge weight is an arbitrary payload type `W`: the graph carries it
//! but never computes with it, so callers may attach any weight type they
//! like (for example a floating-point number).
use vstd::prelude::*;

use std::collections::HashMap;

pub mod errors;

use errors::GraphError;

verus! {

broadcast use vstd::std_specs::hash::group_hash_axioms;

/// A weighted edge in a graph between two nodes, directed from `from_node`
/// to `to_node`.
pub struct Edge<W> {
    pub from_node: u32,
    pub to_node: u32,
    pub weight: W,
}

impl<W> Edge<W> {
    /// Creates a new edge with the given weight between two nodes.
    ///
    /// A pure constructor: the indices are not checked against any graph,
    /// since an edge has no awareness of a containing graph.
    pub fn new(from_node: u32, to_node: u32, weight: W) -> (e: Edge<W>)
        ensures
            e == (Edge { from_node, to_node, weight }),
    {
        Edge { from_node, to_node, weight }
    }
}

/// A node or vertex in a graph with an index number.
/// Its edges are represented as an adjacency list, implemented as a hash map.
/// Each key of the hash map is the index number of the node it connects to;
/// the value contains the [`Edge`] object.
pub struct Node<T, W> {
    pub idx: u32,
    pub edges: HashMap<u32, Edge<W>>,
    pub label: Option<T>,
}

impl<T, W> Node<T, W> {
    /// The adjacency map is consistent with this node: every stored edge
    /// leaves this node and reaches exactly the neighbor it is keyed under.
    pub open spec fn wf(self) -> bool {
        forall|n: u32| self.edges@.contains_key(n) ==> {
            &&& (#[trigger] self.edges@[n]).from_node == self.idx
            &&& self.edges@[n].to_node == n
        }
    }

    /// Creates a new node without a label.
    pub fn new(idx: u32) -> (node: Node<T, W>)
        ensures
            node.idx == idx,
            node.edges@ == Map::<u32, Edge<W>>::empty(),
            node.label is None,
            node.wf(),
    {
        Node { idx, edges: HashMap::new(), label: None }
    }

    /// Creates a new node with a label.
    pub fn with_label(idx: u32, label: T) -> (node: Node<T, W>)
        ensures
            node.idx == idx,
            node.edges@ == Map::<u32, Edge<W>>::empty(),
            node.label == Some(label),
            node.wf(),
    {
        Node { idx, edges: HashMap::new(), label: Some(label) }
    }

    /// Gets the number of outgoing edges.
    pub fn number_of_edges(&self) -> (n: usize)
        ensures
            n == self.edges@.len(),
    {
        self.edges.len()
    }

    /// Returns a reference to the edge object that connects this node with
    /// the `neighbor` node, if such an edge exists.
    pub fn get_edge(&self, neighbor: u32) -> (r: Option<&Edge<W>>)
        ensures
            match r {
                Some(e) => self.edges@.contains_key(neighbor) && *e == self.edges@[neighbor],
                None => !self.edges@.contains_key(neighbor),
            },
    {
        self.edges.get(&neighbor)
    }

    /// Connects an edge between this node and the `neighbor` node.
    /// If this node already has an edge to the neighbor, updates the edge
    /// data and returns the old edge value; otherwise returns `None`.
    pub fn add_edge(&mut self, neighbor: u32, weight: W) -> (prev: Option<Edge<W>>)
        ensures
            final(self).idx == old(self).idx,
            final(self).label == old(self).label,
            final(self).edges@ == old(self).edges@.insert(
                neighbor,
                (Edge { from_node: old(self).idx, to_node: neighbor, weight }),
            ),
            prev == (if old(self).edges@.contains_key(neighbor) {
                Some(old(self).edges@[neighbor])
            } else {
                None::<Edge<W>>
            }),
            old(self).wf() ==> final(self).wf(),
    {
        let new_edge = Edge::new(self.idx, neighbor, weight);
        self.edges.insert(neighbor, new_edge)
    }

    /// Removes the edge between this node and the `neighbor` node.
    /// Returns the index of the neighbor node and the edge value if the edge
    /// existed, and `None` otherwise: removal of an absent edge is not an
    /// error and leaves the node unchanged.
    pub fn remove_edge(&mut self, neighbor: u32) -> (r: Option<(u32, Edge<W>)>)
        ensures
            final(self).idx == old(self).idx,
            final(self).label == old(self).label,
            final(self).edges@ == old(self).edges@.remove(neighbor),
            r == (if old(self).edges@.contains_key(neighbor) {
                Some((neighbor, old(self).edges@[neighbor]))
            } else {
                None::<(u32, Edge<W>)>
            }),
            old(self).wf() ==> final(self).wf(),
    {
        match self.edges.remove(&neighbor) {
            Some(e) => Some((neighbor, e)),
            None => None,
        }
    }
}

/// A graph with a fixed node capacity and a directionality flag.
///
/// The flag is stored for callers to interpret: edge operations keep edges
/// strictly directional regardless of it.
pub struct Graph<T, W> {
    pub capacity: usize,
    pub nodes: Vec<Node<T, W>>,
    pub undirected: bool,
}

impl<T, W> Graph<T, W> {
    /// The graph respects its capacity bound and every node's adjacency map
    /// is consistent.
    pub open spec fn wf(self) -> bool {
        &&& self.nodes@.len() <= self.capacity
        &&& forall|i: int| 0 <= i < self.nodes@.len() ==> (#[trigger] self.nodes@[i]).wf()
    }

    /// Whether some node in the graph has index `idx`.
    pub open spec fn spec_has_node(self, idx: u32) -> bool {
        exists|i: int| 0 <= i < self.nodes@.len() && (#[trigger] self.nodes@[i]).idx == idx
    }

    /// `i` is the position of the first node with index `idx`. Lookups
    /// resolve node indices to this position, so with duplicate indices the
    /// earliest inserted node shadows the later ones.
    pub open spec fn is_first_node_with_idx(self, idx: u32, i: int) -> bool {
        &&& 0 <= i < self.nodes@.len()
        &&& self.nodes@[i].idx == idx
        &&& forall|j: int| 0 <= j < i ==> (#[trigger] self.nodes@[j]).idx != idx
    }

    /// Whether the first node with index `from` has an edge to `to`.
    pub open spec fn spec_has_edge(self, from: u32, to: u32) -> bool {
        exists|i: int|
            #[trigger] self.is_first_node_with_idx(from, i)
                && self.nodes@[i].edges@.contains_key(to)
    }

    /// If some node has index `idx`, then a first such node exists.
    ///
    /// The contracts of [`Graph::insert_edge`] and [`Graph::get_edge`] are
    /// stated over the first matching position; this lemma supplies that
    /// position to a caller who only knows that the index is present.
    pub proof fn lemma_first_node_exists(self, idx: u32)
        requires
            self.spec_has_node(idx),
        ensures
            exists|i: int| self.is_first_node_with_idx(idx, i),
    {
        let k = choose|k: int| 0 <= k < self.nodes@.len() && (#[trigger] self.nodes@[k]).idx == idx;
        self.lemma_first_node_below(idx, k);
    }

    proof fn lemma_first_node_below(self, idx: u32, k: int)
        requires
            0 <= k < self.nodes@.len(),
            self.nodes@[k].idx == idx,
        ensures
            exists|i: int| self.is_first_node_with_idx(idx, i),
        decreases k,
    {
        if forall|j: int| 0 <= j < k ==> (#[trigger] self.nodes@[j]).idx != idx {
            assert(self.is_first_node_with_idx(idx, k));
        } else {
            let j = choose|j: int| 0 <= j < k && (#[trigger] self.nodes@[j]).idx == idx;
            self.lemma_first_node_below(idx, j);
        }
    }

    /// Creates a new graph with the given capacity and directionality flag.
    pub fn new(capacity: usize, undirected: bool) -> (g: Graph<T, W>)
        ensures
            g.capacity == capacity,
            g.undirected == undirected,
            g.nodes@ == Seq::<Node<T, W>>::empty(),
            g.wf(),
    {
        Graph { capacity, nodes: Vec::with_capacity(capacity), undirected }
    }

    /// Position of the first node with the given index, if any.
    fn find_node(&self, idx: u32) -> (r: Option<usize>)
        ensures
            match r {
                Some(i) => self.is_first_node_with_idx(idx, i as int),
                None => !self.spec_has_node(idx),
            },
    {
        let mut i: usize = 0;
        while i < self.nodes.len()
            invariant
                i <= self.nodes@.len(),
                forall|j: int| 0 <= j < i ==> (#[trigger] self.nodes@[j]).idx != idx,
            decreases self.nodes@.len() - i,
        {
            if self.nodes[i].idx == idx {
                return Some(i);
            }
            i = i + 1;
        }
        None
    }

    /// Inserts a node in the graph. Returns `true` on success and `false`
    /// when the graph is full, in which case the graph is unchanged.
    pub fn insert_node(&mut self, node: Node<T, W>) -> (ok: bool)
        ensures
            final(self).capacity == old(self).capacity,
            final(self).undirected == old(self).undirected,
            ok == (old(self).nodes@.len() != old(self).capacity),
            old(self).wf() ==> ok == (old(self).nodes@.len() < old(self).capacity),
            ok ==> final(self).nodes@ == old(self).nodes@.push(node),
            !ok ==> final(self).nodes@ == old(self).nodes@,
            old(self).wf() && node.wf() ==> final(self).wf(),
    {
        if self.nodes.len() == self.capacity {
            false
        } else {
            self.nodes.push(node);
            true
        }
    }

    /// Inserts an edge between two nodes in the graph, delegating to the
    /// source node's [`Node::add_edge`]. If the edge already exists, updates
    /// the edge details and returns the old value; otherwise returns
    /// `Ok(None)`. Fails with [`GraphError::MissingNode`] exactly when no
    /// node has index `from`; the target index is not checked, so an edge
    /// may point at a node that is not in the graph.
    pub fn insert_edge(&mut self, from: u32, to: u32, weight: W) -> (r: Result<
        Option<Edge<W>>,
        GraphError,
    >)
        ensures
            final(self).capacity == old(self).capacity,
            final(self).undirected == old(self).undirected,
            final(self).nodes@.len() == old(self).nodes@.len(),
            !old(self).spec_has_node(from) ==> {
                &&& r == Err::<Option<Edge<W>>, GraphError>(GraphError::MissingNode)
                &&& final(self).nodes@ == old(self).nodes@
            },
            old(self).spec_has_node(from) ==> r is Ok,
            forall|j: int| 0 <= j < old(self).nodes@.len() ==> {
                &&& (#[trigger] final(self).nodes@[j]).idx == old(self).nodes@[j].idx
                &&& final(self).nodes@[j].label == old(self).nodes@[j].label
            },
            forall|x: u32| final(self).spec_has_node(x) == old(self).spec_has_node(x),
            old(self).spec_has_node(from) ==> final(self).spec_has_edge(from, to),
            forall|i: int| #[trigger] old(self).is_first_node_with_idx(from, i) ==> {
                &&& forall|j: int|
                    0 <= j < old(self).nodes@.len() && j != i ==> final(self).nodes@[j] == old(
                        self,
                    ).nodes@[j]
                &&& final(self).nodes@[i].idx == old(self).nodes@[i].idx
                &&& final(self).nodes@[i].label == old(self).nodes@[i].label
                &&& final(self).nodes@[i].edges@ == old(self).nodes@[i].edges@.insert(
                    to,
                    (Edge { from_node: from, to_node: to, weight }),
                )
                &&& r == Ok::<Option<Edge<W>>, GraphError>(
                    if old(self).nodes@[i].edges@.contains_key(to) {
                        Some(old(self).nodes@[i].edges@[to])
                    } else {
                        None
                    },
                )
            },
            old(self).wf() ==> final(self).wf(),
    {
        match self.find_node(from) {
            Some(i) => {
                let mut node = self.nodes.remove(i);
                let prev = node.add_edge(to, weight);
                self.nodes.insert(i, node);
                proof {
                    assert(self.nodes@ =~= old(self).nodes@.update(
                        i as int,
                        self.nodes@[i as int],
                    ));
                    assert(self.is_first_node_with_idx(from, i as int));
                    assert(self.nodes@[i as int].edges@.contains_key(to));
                    assert forall|x: u32|
                        self.spec_has_node(x) == old(self).spec_has_node(x) by {
                        if self.spec_has_node(x) {
                            let k = choose|k: int|
                                0 <= k < self.nodes@.len() && (#[trigger] self.nodes@[k]).idx
                                    == x;
                            assert(old(self).nodes@[k].idx == x);
                        }
                        if old(self).spec_has_node(x) {
                            let k = choose|k: int|
                                0 <= k < old(self).nodes@.len() && (#[trigger] old(
                                    self,
                                ).nodes@[k]).idx == x;
                            assert(self.nodes@[k].idx == x);
                        }
                    }
                }
                Ok(prev)
            },
            None => Err(GraphError::MissingNode),
        }
    }

    /// Check if a node exists in the graph by its index number.
    pub fn has_node(&self, idx: u32) -> (r: bool)
        ensures
            r == self.spec_has_node(idx),
    {
        self.find_node(idx).is_some()
    }

    /// Checks if an edge exists between two nodes.
    pub fn has_edge(&self, from: u32, to: u32) -> (r: bool)
        ensures
            r == self.spec_has_edge(from, to),
    {
        self.get_edge(from, to).is_some()
    }

    /// Returns a reference to the [`Edge`] object if it exists between the
    /// two nodes in the graph. A missing source node yields `None`, not an
    /// error: graph-level edge lookup treats it as "no such edge".
    pub fn get_edge(&self, from: u32, to: u32) -> (r: Option<&Edge<W>>)
        ensures
            (r is Some) == self.spec_has_edge(from, to),
            forall|i: int| #[trigger] self.is_first_node_with_idx(from, i) ==> match r {
                Some(e) => self.nodes@[i].edges@.contains_key(to) && *e
                    == self.nodes@[i].edges@[to],
                None => !self.nodes@[i].edges@.contains_key(to),
            },
    {
        match self.find_node(from) {
            Some(i) => {
                let r = self.nodes[i].get_edge(to);
                proof {
                    if r is Some {
                        assert(self.spec_has_edge(from, to));
                    }
                }
                r
            },
            None => None,
        }
    }
}

/// Adding an edge for a neighbor not previously present — the effect
/// [`Node::add_edge`] guarantees in that case — increases the node's edge
/// count by exactly one.
pub proof fn lemma_add_edge_new_neighbor_count<T, W>(
    pre: Node<T, W>,
    post: Node<T, W>,
    neighbor: u32,
    e: Edge<W>,
)
    requires
        !pre.edges@.contains_key(neighbor),
        post.edges@ == pre.edges@.insert(neighbor, e),
    ensures
        post.edges@.len() == pre.edges@.len() + 1,
{
    assert(post.edges@.dom() =~= pre.edges@.dom().insert(neighbor));
    vstd::set::axiom_set_insert_len(pre.edges@.dom(), neighbor);
}

/// Re-adding an edge to a neighbor already present — an update, under which
/// [`Node::add_edge`] returns the prior edge value — leaves the node's edge
/// count unchanged.
pub proof fn lemma_add_edge_existing_neighbor_count<T, W>(
    pre: Node<T, W>,
    post: Node<T, W>,
    neighbor: u32,
    e: Edge<W>,
)
    requires
        pre.edges@.contains_key(neighbor),
        post.edges@ == pre.edges@.insert(neighbor, e),
    ensures
        post.edges@.len() == pre.edges@.len(),
{
    assert(post.edges@.dom() =~= pre.edges@.dom().insert(neighbor));
    vstd::set::axiom_set_insert_len(pre.edges@.dom(), neighbor);
}

/// Removing an existing neighbor — the effect [`Node::remove_edge`]
/// guarantees — decreases the node's edge count by one, and a second removal
/// of the same neighbor finds nothing and changes nothing: removal is
/// idempotent after the first call.
pub proof fn lemma_remove_edge_idempotent<T, W>(
    pre: Node<T, W>,
    mid: Node<T, W>,
    post: Node<T, W>,
    neighbor: u32,
)
    requires
        pre.edges@.contains_key(neighbor),
        mid.edges@ == pre.edges@.remove(neighbor),
        post.edges@ == mid.edges@.remove(neighbor),
    ensures
        mid.edges@.len() == pre.edges@.len() - 1,
        !mid.edges@.contains_key(neighbor),
        post.edges@ == mid.edges@,
{
    assert(mid.edges@.dom() =~= pre.edges@.dom().remove(neighbor));
    vstd::set::axiom_set_remove_len(pre.edges@.dom(), neighbor);
    assert(post.edges@ =~= mid.edges@);
}

} // verus!
