//! An adjacency-list graph whose per-node edge ranges form a CSR layout.
//!
//! Floating-point attributes (a node's tentative distance, an edge's weight)
//! are stored as their IEEE-754 single-precision bit patterns, so the layout
//! matches the 32-bit GPU buffers that the kernels read.
use vstd::prelude::*;

verus! {

/// Bit pattern that marks "no predecessor".
pub const NO_PREDECESSOR: i32 = -1;

/// A single node of the graph, laid out as the GPU expects it.
#[derive(Clone, Copy, Debug, PartialEq, Eq, Structural)]
pub struct Node {
    pub id: u32,
    /// Index of the node's first outgoing edge in the edge list.
    pub edge_start: u32,
    /// Number of outgoing edges, stored contiguously from `edge_start`.
    pub edge_count: u32,
    /// Tentative distance (Dijkstra / Bellman-Ford), as `f32` bits.
    pub distance_bits: u32,
    /// Predecessor node id for path reconstruction, `-1` for none.
    pub predecessor: i32,
    /// 0 = not visited, 1 = visited (a 4-byte boolean for the GPU).
    pub visited: u32,
}

/// A directed edge to another node.
#[derive(Clone, Copy, Debug, PartialEq, Eq, Structural)]
pub struct Edge {
    pub target_node: u32,
    /// Edge weight, as `f32` bits.
    pub weight_bits: u32,
}

/// Graph buffers in the format handed to the GPU.
pub struct Graph {
    pub nodes: Vec<Node>,
    pub edges: Vec<Edge>,
}

/// The mathematical model of a graph: its node and edge sequences.
pub struct GraphModel {
    pub nodes: Seq<Node>,
    pub edges: Seq<Edge>,
}

/// The node that `add_node` appends at index `id`.
pub open spec fn fresh_node(id: u32, distance_bits: u32) -> Node {
    Node {
        id,
        edge_start: 0,
        edge_count: 0,
        distance_bits,
        predecessor: NO_PREDECESSOR,
        visited: 0,
    }
}

/// The node after one more outgoing edge, stored at `edge_index`, is recorded.
pub open spec fn with_edge(n: Node, edge_index: u32) -> Node {
    Node {
        id: n.id,
        edge_start: if n.edge_count == 0 { edge_index } else { n.edge_start },
        edge_count: (n.edge_count + 1) as u32,
        distance_bits: n.distance_bits,
        predecessor: n.predecessor,
        visited: n.visited,
    }
}

impl GraphModel {
    /// The model after `add_node(distance_bits)`.
    pub open spec fn add_node(self, distance_bits: u32) -> GraphModel {
        GraphModel {
            nodes: self.nodes.push(fresh_node(self.nodes.len() as u32, distance_bits)),
            edges: self.edges,
        }
    }

    /// The model after `add_edge(source, target, weight_bits)`.
    pub open spec fn add_edge(self, source: u32, target: u32, weight_bits: u32) -> GraphModel {
        GraphModel {
            nodes: self.nodes.update(
                source as int,
                with_edge(self.nodes[source as int], self.edges.len() as u32),
            ),
            edges: self.edges.push(Edge { target_node: target, weight_bits }),
        }
    }

    /// First edge index past node `i`'s range.
    pub open spec fn range_end(self, i: int) -> int {
        self.nodes[i].edge_start + self.nodes[i].edge_count
    }

    /// Whether edge index `e` lies in node `i`'s range.
    pub open spec fn range_contains(self, i: int, e: int) -> bool {
        self.nodes[i].edge_start <= e < self.range_end(i)
    }

    /// Every node's edge range lies inside the edge list, and the ranges of
    /// two different nodes never share an edge.
    pub open spec fn csr_consistent(self) -> bool {
        &&& forall|i: int| 0 <= i < self.nodes.len() ==> #[trigger] self.range_end(i) <= self.edges.len()
        &&& forall|i: int, j: int, e: int|
            0 <= i < self.nodes.len() && 0 <= j < self.nodes.len() && i != j
                ==> !(#[trigger] self.range_contains(i, e) && #[trigger] self.range_contains(j, e))
    }

    /// Node `source` has no edges yet, or its edges are the most recently added ones.
    pub open spec fn owns_last_run(self, source: int) -> bool {
        self.nodes[source].edge_count == 0 || self.range_end(source) == self.edges.len()
    }
}

impl View for Graph {
    type V = GraphModel;

    open spec fn view(&self) -> GraphModel {
        GraphModel { nodes: self.nodes@, edges: self.edges@ }
    }
}

impl Graph {
    /// An empty graph.
    pub fn new() -> (g: Graph)
        ensures
            g@.nodes.len() == 0,
            g@.edges.len() == 0,
    {
        Graph { nodes: Vec::new(), edges: Vec::new() }
    }

    /// Adds a node with the given tentative distance and returns its index.
    pub fn add_node(&mut self, distance_bits: u32) -> (id: u32)
        ensures
            id == old(self)@.nodes.len() as u32,
            final(self)@ == old(self)@.add_node(distance_bits),
            final(self)@.edges == old(self)@.edges,
            final(self)@.nodes.len() == old(self)@.nodes.len() + 1,
            forall|i: int| 0 <= i < old(self)@.nodes.len() ==> final(self)@.nodes[i] == old(self)@.nodes[i],
            final(self)@.nodes.last().distance_bits == distance_bits,
            final(self)@.nodes.last().edge_count == 0,
            final(self)@.nodes.last().predecessor == -1,
            final(self)@.nodes.last().visited == 0,
    {
        let id = self.nodes.len() as u32;
        self.nodes.push(
            Node {
                id,
                edge_start: 0,
                edge_count: 0,
                distance_bits,
                predecessor: NO_PREDECESSOR,
                visited: 0,
            },
        );
        id
    }

    /// Adds an edge from `source` to `target`. The source's edge range starts
    /// at this edge if it had none yet, and grows by one.
    pub fn add_edge(&mut self, source: u32, target: u32, weight_bits: u32)
        requires
            (source as int) < old(self)@.nodes.len(),
            old(self)@.nodes[source as int].edge_count < u32::MAX,
        ensures
            final(self)@ == old(self)@.add_edge(source, target, weight_bits),
            final(self)@.nodes.len() == old(self)@.nodes.len(),
            final(self)@.edges == old(self)@.edges.push(Edge { target_node: target, weight_bits }),
            forall|i: int| 0 <= i < old(self)@.nodes.len() && i != source ==> final(self)@.nodes[i] == old(self)@.nodes[i],
            final(self)@.nodes[source as int].id == old(self)@.nodes[source as int].id,
            final(self)@.nodes[source as int].distance_bits == old(self)@.nodes[source as int].distance_bits,
            final(self)@.nodes[source as int].predecessor == old(self)@.nodes[source as int].predecessor,
            final(self)@.nodes[source as int].visited == old(self)@.nodes[source as int].visited,
            final(self)@.nodes[source as int].edge_count == old(self)@.nodes[source as int].edge_count + 1,
    {
        let edge_idx = self.edges.len() as u32;
        self.edges.push(Edge { target_node: target, weight_bits });
        let i = source as usize;
        let mut node = self.nodes[i];
        if node.edge_count == 0 {
            node.edge_start = edge_idx;
        }
        node.edge_count = node.edge_count + 1;
        self.nodes.set(i, node);
    }

    /// Number of nodes.
    pub fn node_count(&self) -> (n: usize)
        ensures
            n == self@.nodes.len(),
    {
        self.nodes.len()
    }

    /// Number of edges.
    pub fn edge_count(&self) -> (n: usize)
        ensures
            n == self@.edges.len(),
    {
        self.edges.len()
    }
}

/// The empty graph is a consistent CSR layout.
pub proof fn lemma_empty_csr_consistent(g: GraphModel)
    requires
        g.nodes.len() == 0,
    ensures
        g.csr_consistent(),
{
}

/// Adding a node keeps a consistent CSR layout consistent: the new node owns
/// no edges.
pub proof fn lemma_add_node_keeps_csr(g: GraphModel, distance_bits: u32)
    requires
        g.csr_consistent(),
    ensures
        g.add_node(distance_bits).csr_consistent(),
{
    let h = g.add_node(distance_bits);
    assert forall|i: int| 0 <= i < h.nodes.len() implies #[trigger] h.range_end(i) <= h.edges.len() by {
        if i < g.nodes.len() {
            assert(h.range_end(i) == g.range_end(i));
        }
    }
    assert forall|i: int, j: int, e: int|
        0 <= i < h.nodes.len() && 0 <= j < h.nodes.len() && i != j
            implies !(#[trigger] h.range_contains(i, e) && #[trigger] h.range_contains(j, e)) by {
        if i < g.nodes.len() && j < g.nodes.len() {
            assert(h.range_contains(i, e) == g.range_contains(i, e));
            assert(h.range_contains(j, e) == g.range_contains(j, e));
        }
    }
}

/// Edges added grouped by their source node keep the layout contiguous: if
/// the source has no edges yet or owns the most recently added run, then after
/// `add_edge` every range still lies inside the edge list, ranges stay
/// disjoint, and the new edge lies in the source's range.
pub proof fn lemma_add_edge_keeps_csr(g: GraphModel, source: u32, target: u32, weight_bits: u32)
    requires
        g.csr_consistent(),
        (source as int) < g.nodes.len(),
        g.nodes[source as int].edge_count < u32::MAX,
        g.edges.len() <= u32::MAX,
        g.owns_last_run(source as int),
    ensures
        g.add_edge(source, target, weight_bits).csr_consistent(),
        g.add_edge(source, target, weight_bits).range_contains(source as int, g.edges.len() as int),
{
    let h = g.add_edge(source, target, weight_bits);
    let s = source as int;
    let len = g.edges.len() as int;
    assert(h.nodes[s] == with_edge(g.nodes[s], len as u32));
    assert(h.range_end(s) == len + 1);
    assert forall|i: int| 0 <= i < h.nodes.len() implies #[trigger] h.range_end(i) <= h.edges.len() by {
        if i != s {
            assert(h.range_end(i) == g.range_end(i));
        }
    }
    assert forall|i: int, j: int, e: int|
        0 <= i < h.nodes.len() && 0 <= j < h.nodes.len() && i != j
            implies !(#[trigger] h.range_contains(i, e) && #[trigger] h.range_contains(j, e)) by {
        if i != s && j != s {
            assert(h.range_contains(i, e) == g.range_contains(i, e));
            assert(h.range_contains(j, e) == g.range_contains(j, e));
        } else if i == s {
            assert(h.range_contains(j, e) == g.range_contains(j, e));
            assert(g.range_end(j) <= len);
            if e < len && h.range_contains(s, e) {
                assert(g.nodes[s].edge_count > 0);
                assert(g.range_contains(s, e));
            }
        } else {
            assert(h.range_contains(i, e) == g.range_contains(i, e));
            assert(g.range_end(i) <= len);
            if e < len && h.range_contains(s, e) {
                assert(g.nodes[s].edge_count > 0);
                assert(g.range_contains(s, e));
            }
        }
    }
}

/// One call that builds a graph: `add_node` or `add_edge` with its arguments.
#[derive(Clone, Copy, Debug, PartialEq, Eq, Structural)]
pub enum GraphOp {
    AddNode { distance_bits: u32 },
    AddEdge { source: u32, target: u32, weight_bits: u32 },
}

/// The model of a graph fresh from `Graph::new`.
pub open spec fn empty_model() -> GraphModel {
    GraphModel { nodes: Seq::empty(), edges: Seq::empty() }
}

/// The model after one call.
pub open spec fn apply_op(g: GraphModel, op: GraphOp) -> GraphModel {
    match op {
        GraphOp::AddNode { distance_bits } => g.add_node(distance_bits),
        GraphOp::AddEdge { source, target, weight_bits } => g.add_edge(source, target, weight_bits),
    }
}

/// The model of the graph that `Graph::new` followed by the calls `ops`, in
/// order, builds.
pub open spec fn build(ops: Seq<GraphOp>) -> GraphModel
    decreases ops.len(),
{
    if ops.len() == 0 {
        empty_model()
    } else {
        apply_op(build(ops.drop_last()), ops.last())
    }
}

/// The edges that the calls `ops` added with source `n`, in the order they were added.
pub open spec fn edges_added_from(ops: Seq<GraphOp>, n: int) -> Seq<Edge>
    decreases ops.len(),
{
    if ops.len() == 0 {
        Seq::empty()
    } else {
        let earlier = edges_added_from(ops.drop_last(), n);
        match ops.last() {
            GraphOp::AddEdge { source, target, weight_bits } => if source == n {
                earlier.push(Edge { target_node: target, weight_bits })
            } else {
                earlier
            },
            GraphOp::AddNode { .. } => earlier,
        }
    }
}

/// The number of `add_edge` calls in `ops`.
pub open spec fn edge_calls(ops: Seq<GraphOp>) -> nat
    decreases ops.len(),
{
    if ops.len() == 0 {
        0
    } else {
        match ops.last() {
            GraphOp::AddEdge { .. } => edge_calls(ops.drop_last()) + 1,
            GraphOp::AddNode { .. } => edge_calls(ops.drop_last()),
        }
    }
}

/// The source of the last `add_edge` call in `ops`, if there is one.
pub open spec fn last_edge_source(ops: Seq<GraphOp>) -> Option<u32>
    decreases ops.len(),
{
    if ops.len() == 0 {
        None
    } else {
        match ops.last() {
            GraphOp::AddEdge { source, .. } => Some(source),
            GraphOp::AddNode { .. } => last_edge_source(ops.drop_last()),
        }
    }
}

/// Every `add_edge` call in `ops` names an existing node as source, sources
/// come in non-decreasing order, every new edge's index fits a `u32`, and no
/// node gets more than `u32::MAX` edges.
pub open spec fn grouped_history(ops: Seq<GraphOp>) -> bool
    decreases ops.len(),
{
    if ops.len() == 0 {
        true
    } else {
        let earlier = ops.drop_last();
        &&& grouped_history(earlier)
        &&& match ops.last() {
            GraphOp::AddEdge { source, .. } => {
                &&& (source as int) < build(earlier).nodes.len()
                &&& (last_edge_source(earlier) matches Some(l) ==> l <= source)
                &&& edge_calls(earlier) <= u32::MAX
                &&& edges_added_from(earlier, source as int).len() < u32::MAX
            },
            GraphOp::AddNode { .. } => true,
        }
    }
}

/// What holds of the graph built by a grouped history, with the facts the
/// induction carries along.
spec fn history_invariant(ops: Seq<GraphOp>) -> bool {
    let g = build(ops);
    &&& g.csr_consistent()
    &&& g.edges.len() == edge_calls(ops)
    &&& forall|n: int| 0 <= n < g.nodes.len() ==> {
        &&& (#[trigger] g.nodes[n]).edge_count == edges_added_from(ops, n).len()
        &&& g.edges.subrange(g.nodes[n].edge_start as int, g.range_end(n)) == edges_added_from(ops, n)
    }
    &&& forall|n: int| n >= g.nodes.len() ==> (#[trigger] edges_added_from(ops, n)).len() == 0
    &&& forall|n: int| (#[trigger] edges_added_from(ops, n)).len() > 0 ==> (last_edge_source(ops) matches Some(l) && n <= l)
    &&& (last_edge_source(ops) matches Some(l) ==> (l as int) < g.nodes.len() && g.range_end(l as int) == g.edges.len())
}

proof fn lemma_history_invariant(ops: Seq<GraphOp>)
    requires
        grouped_history(ops),
    ensures
        history_invariant(ops),
    decreases ops.len(),
{
    if ops.len() == 0 {
        let g = build(ops);
        lemma_empty_csr_consistent(g);
        assert forall|n: int| n >= g.nodes.len() implies (#[trigger] edges_added_from(ops, n)).len() == 0 by {}
        assert forall|n: int| (#[trigger] edges_added_from(ops, n)).len() > 0 implies (last_edge_source(ops) matches Some(l) && n <= l) by {}
        return;
    }
    let p = ops.drop_last();
    lemma_history_invariant(p);
    let gp = build(p);
    let g = build(ops);
    match ops.last() {
        GraphOp::AddNode { distance_bits } => {
            assert(g == gp.add_node(distance_bits));
            lemma_add_node_keeps_csr(gp, distance_bits);
            let old_len = gp.nodes.len() as int;
            assert forall|n: int| 0 <= n < g.nodes.len() implies {
                &&& (#[trigger] g.nodes[n]).edge_count == edges_added_from(ops, n).len()
                &&& g.edges.subrange(g.nodes[n].edge_start as int, g.range_end(n)) == edges_added_from(ops, n)
            } by {
                assert(edges_added_from(ops, n) == edges_added_from(p, n));
                if n < old_len {
                    assert(g.nodes[n] == gp.nodes[n]);
                } else {
                    assert(n == old_len);
                    assert(edges_added_from(p, n).len() == 0);
                    assert(g.edges.subrange(0, 0) =~= edges_added_from(ops, n));
                }
            }
            assert forall|n: int| n >= g.nodes.len() implies (#[trigger] edges_added_from(ops, n)).len() == 0 by {
                assert(edges_added_from(ops, n) == edges_added_from(p, n));
            }
            assert forall|n: int| (#[trigger] edges_added_from(ops, n)).len() > 0 implies (last_edge_source(ops) matches Some(l) && n <= l) by {
                assert(edges_added_from(ops, n) == edges_added_from(p, n));
            }
            if let Some(l) = last_edge_source(ops) {
                assert(last_edge_source(p) == Some(l));
                assert(g.nodes[l as int] == gp.nodes[l as int]);
            }
        },
        GraphOp::AddEdge { source, target, weight_bits } => {
            let s = source as int;
            let e = Edge { target_node: target, weight_bits };
            let len = gp.edges.len() as int;
            assert(g == gp.add_edge(source, target, weight_bits));
            assert(s < gp.nodes.len());
            // The source owns the last run: sources never decrease.
            assert(gp.owns_last_run(s)) by {
                if gp.nodes[s].edge_count != 0 {
                    assert(edges_added_from(p, s).len() > 0);
                }
            }
            assert(gp.nodes[s].edge_count < u32::MAX);
            lemma_add_edge_keeps_csr(gp, source, target, weight_bits);
            assert forall|n: int| 0 <= n < g.nodes.len() implies {
                &&& (#[trigger] g.nodes[n]).edge_count == edges_added_from(ops, n).len()
                &&& g.edges.subrange(g.nodes[n].edge_start as int, g.range_end(n)) == edges_added_from(ops, n)
            } by {
                if n == s {
                    assert(edges_added_from(ops, n) == edges_added_from(p, n).push(e));
                    if gp.nodes[s].edge_count == 0 {
                        assert(edges_added_from(p, n).len() == 0);
                        assert(g.edges.subrange(len, len + 1) =~= edges_added_from(p, n).push(e));
                    } else {
                        assert(gp.range_end(s) == len);
                        assert(g.edges.subrange(gp.nodes[s].edge_start as int, len + 1)
                            =~= gp.edges.subrange(gp.nodes[s].edge_start as int, len).push(e));
                    }
                } else {
                    assert(edges_added_from(ops, n) == edges_added_from(p, n));
                    assert(g.nodes[n] == gp.nodes[n]);
                    assert(gp.range_end(n) <= len);
                    assert(g.edges.subrange(gp.nodes[n].edge_start as int, gp.range_end(n))
                        =~= gp.edges.subrange(gp.nodes[n].edge_start as int, gp.range_end(n)));
                }
            }
            assert forall|n: int| n >= g.nodes.len() implies (#[trigger] edges_added_from(ops, n)).len() == 0 by {
                assert(edges_added_from(ops, n) == edges_added_from(p, n));
            }
            assert forall|n: int| (#[trigger] edges_added_from(ops, n)).len() > 0 implies (last_edge_source(ops) matches Some(l) && n <= l) by {
                if n != s {
                    assert(edges_added_from(ops, n) == edges_added_from(p, n));
                    assert(edges_added_from(p, n).len() > 0);
                }
            }
            assert(g.range_end(s) == g.edges.len());
        },
    }
}

/// A graph built from `Graph::new` by `add_node` and `add_edge` calls whose
/// sources are existing nodes given in non-decreasing order is a CSR layout:
/// each node's range `edges[edge_start .. edge_start + edge_count]` holds
/// exactly the edges added with that node as source, in the order they were
/// added, and the ranges of different nodes are disjoint.
pub proof fn lemma_grouped_history_is_csr(ops: Seq<GraphOp>)
    requires
        grouped_history(ops),
    ensures
        build(ops).csr_consistent(),
        build(ops).edges.len() == edge_calls(ops),
        forall|n: int| 0 <= n < build(ops).nodes.len() ==> {
            &&& (#[trigger] build(ops).nodes[n]).edge_count == edges_added_from(ops, n).len()
            &&& build(ops).edges.subrange(
                build(ops).nodes[n].edge_start as int,
                build(ops).range_end(n),
            ) == edges_added_from(ops, n)
        },
{
    lemma_history_invariant(ops);
}

/// `add_edge` appends exactly the new edge and touches only the source node's
/// edge range: every node keeps its id, distance, predecessor and visited
/// flag, every other node is unchanged, the source gains one edge, and its
/// range starts at the new edge if it had none before.
pub proof fn lemma_add_edge_changes_only_source_range(g: GraphModel, source: u32, target: u32, weight_bits: u32)
    requires
        (source as int) < g.nodes.len(),
        g.nodes[source as int].edge_count < u32::MAX,
        g.edges.len() <= u32::MAX,
    ensures
        ({
            let h = g.add_edge(source, target, weight_bits);
            &&& h.nodes.len() == g.nodes.len()
            &&& h.edges.len() == g.edges.len() + 1
            &&& h.edges.last() == (Edge { target_node: target, weight_bits })
            &&& forall|e: int| 0 <= e < g.edges.len() ==> h.edges[e] == g.edges[e]
            &&& forall|i: int| 0 <= i < g.nodes.len() ==> {
                &&& h.nodes[i].id == g.nodes[i].id
                &&& h.nodes[i].distance_bits == g.nodes[i].distance_bits
                &&& h.nodes[i].predecessor == g.nodes[i].predecessor
                &&& h.nodes[i].visited == g.nodes[i].visited
            }
            &&& forall|i: int| 0 <= i < g.nodes.len() && i != source ==> h.nodes[i] == g.nodes[i]
            &&& h.nodes[source as int].edge_count == g.nodes[source as int].edge_count + 1
            &&& (g.nodes[source as int].edge_count == 0 ==> h.nodes[source as int].edge_start == g.edges.len())
            &&& (g.nodes[source as int].edge_count > 0 ==> h.nodes[source as int].edge_start == g.nodes[source as int].edge_start)
        }),
{
}

/// `add_node` appends one node with the given distance, no edges, no
/// predecessor and not visited, whose id is its index; nothing else changes.
pub proof fn lemma_add_node_appends_fresh(g: GraphModel, distance_bits: u32)
    requires
        g.nodes.len() <= u32::MAX,
    ensures
        ({
            let h = g.add_node(distance_bits);
            &&& h.edges == g.edges
            &&& h.nodes.len() == g.nodes.len() + 1
            &&& forall|i: int| 0 <= i < g.nodes.len() ==> h.nodes[i] == g.nodes[i]
            &&& h.nodes.last().id == g.nodes.len()
            &&& h.nodes.last().distance_bits == distance_bits
            &&& h.nodes.last().edge_count == 0
            &&& h.nodes.last().predecessor == -1
            &&& h.nodes.last().visited == 0
        }),
{
}

} // verus!
