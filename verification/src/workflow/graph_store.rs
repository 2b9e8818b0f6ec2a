//! The directed graphs of the engine are `petgraph` graphs. This module
//! declares the graph type to the verifier and states, for each graph method
//! that the engine calls, what the method does to the graph's contents.
//!
//! A graph's contents are its node weights, in index order, and its edges,
//! each a source index, a target index and a weight. Removing a node removes
//! its edges and moves the last node into the freed index.

use vstd::prelude::*;
use vstd::multiset::Multiset;
use petgraph::graph::{DiGraph, NodeIndex};
use petgraph::Direction;
use petgraph::visit::EdgeRef;
use crate::workflow::node::{Node, NodeId};
use crate::workflow::edge::Edge;

verus! {

#[verifier::external_type_specification]
#[verifier::external_body]
#[verifier::reject_recursive_types(N)]
#[verifier::reject_recursive_types(E)]
#[verifier::reject_recursive_types(Ty)]
#[verifier::reject_recursive_types(Ix)]
pub struct ExGraph<N, E, Ty, Ix>(petgraph::graph::Graph<N, E, Ty, Ix>);

#[verifier::external_type_specification]
#[verifier::external_body]
pub struct ExDirected(petgraph::Directed);

/// The largest number of nodes or edges a graph with 32-bit indices holds.
pub const INDEX_LIMIT: usize = 4294967295usize;

/// Where a surviving index ends up after node `a` of `n` nodes is removed:
/// the last node takes the freed index.
pub open spec fn moved_from(x: int, a: int, n: int) -> int {
    if x == a {
        n - 1
    } else {
        x
    }
}

// ---------------------------------------------------------------------------
// The workflow graph: nodes are `Node`s, edges carry `Edge`s.

/// The node weights of a workflow graph, in index order.
pub uninterp spec fn flow_nodes(g: DiGraph<Node, Edge>) -> Seq<Node>;

/// The edges of a workflow graph: source index, target index, weight.
pub uninterp spec fn flow_edges(g: DiGraph<Node, Edge>) -> Multiset<(int, int, Edge)>;

/// The number of edges into node `i`.
pub open spec fn flow_in_degree(es: Multiset<(int, int, Edge)>, i: int) -> nat {
    es.filter(|x: (int, int, Edge)| x.1 == i).len()
}

/// The number of edges out of node `i`.
pub open spec fn flow_out_degree(es: Multiset<(int, int, Edge)>, i: int) -> nat {
    es.filter(|x: (int, int, Edge)| x.0 == i).len()
}

/// The edges after node `a` of `n` nodes is removed.
pub open spec fn flow_edges_after_removal(
    before: Multiset<(int, int, Edge)>,
    after: Multiset<(int, int, Edge)>,
    a: int,
    n: int,
) -> bool {
    forall|s: int, t: int, w: Edge|
        #[trigger] after.count((s, t, w)) == if 0 <= s < n - 1 && 0 <= t < n - 1 {
            before.count((moved_from(s, a, n), moved_from(t, a, n), w))
        } else {
            0
        }
}

/// `Graph::new`: an empty graph.
#[verifier::external_body]
pub(crate) fn flow_new() -> (g: DiGraph<Node, Edge>)
    ensures
        flow_nodes(g).len() == 0,
        flow_edges(g).len() == 0,
{
    DiGraph::new()
}

/// `Graph::add_node`: appends a node and returns its index. Panics when the
/// index space is exhausted, which `requires` leaves out.
#[verifier::external_body]
pub(crate) fn flow_add_node(g: &mut DiGraph<Node, Edge>, w: Node) -> (i: usize)
    requires
        flow_nodes(*old(g)).len() < INDEX_LIMIT,
    ensures
        i == flow_nodes(*old(g)).len(),
        flow_nodes(*final(g)) == flow_nodes(*old(g)).push(w),
        flow_edges(*final(g)) == flow_edges(*old(g)),
{
    g.add_node(w).index()
}

/// `Graph::add_edge`: adds an edge between two existing nodes (parallel
/// edges allowed). Panics on a missing node or an exhausted index space,
/// which `requires` leaves out.
#[verifier::external_body]
pub(crate) fn flow_add_edge(g: &mut DiGraph<Node, Edge>, a: usize, b: usize, w: Edge)
    requires
        a < flow_nodes(*old(g)).len(),
        b < flow_nodes(*old(g)).len(),
        flow_edges(*old(g)).len() < INDEX_LIMIT,
    ensures
        flow_nodes(*final(g)) == flow_nodes(*old(g)),
        flow_edges(*final(g)) == flow_edges(*old(g)).insert((a as int, b as int, w)),
{
    g.add_edge(NodeIndex::new(a), NodeIndex::new(b), w);
}

/// `Graph::remove_node` on an existing node: returns its weight, removes its
/// edges, and moves the last node into index `a`.
#[verifier::external_body]
pub(crate) fn flow_remove_node(g: &mut DiGraph<Node, Edge>, a: usize) -> (w: Node)
    requires
        a < flow_nodes(*old(g)).len(),
    ensures
        w == flow_nodes(*old(g))[a as int],
        flow_nodes(*final(g)) == flow_nodes(*old(g)).update(
            a as int,
            flow_nodes(*old(g)).last(),
        ).drop_last(),
        flow_edges_after_removal(
            flow_edges(*old(g)),
            flow_edges(*final(g)),
            a as int,
            flow_nodes(*old(g)).len() as int,
        ),
        flow_edges(*final(g)).len() <= flow_edges(*old(g)).len(),
{
    g.remove_node(NodeIndex::new(a)).unwrap()
}

/// `Graph::node_count`.
#[verifier::external_body]
pub(crate) fn flow_node_count(g: &DiGraph<Node, Edge>) -> (n: usize)
    ensures
        n == flow_nodes(*g).len(),
        n <= INDEX_LIMIT,
{
    g.node_count()
}

/// `Graph::edge_count`.
#[verifier::external_body]
pub(crate) fn flow_edge_count(g: &DiGraph<Node, Edge>) -> (n: usize)
    ensures
        n == flow_edges(*g).len(),
        n <= INDEX_LIMIT,
{
    g.edge_count()
}

/// `Graph::node_weight` on an existing index.
#[verifier::external_body]
pub(crate) fn flow_node(g: &DiGraph<Node, Edge>, i: usize) -> (w: &Node)
    requires
        i < flow_nodes(*g).len(),
    ensures
        *w == flow_nodes(*g)[i as int],
{
    &g[NodeIndex::new(i)]
}

/// `Graph::node_weight_mut` on an existing index: a mutable reference to the
/// weight of node `i`; what is written through it becomes that node's weight,
/// and nothing else of the graph changes.
#[verifier::external_body]
pub(crate) fn flow_node_mut(g: &mut DiGraph<Node, Edge>, i: usize) -> (w: &mut Node)
    requires
        i < flow_nodes(*old(g)).len(),
    ensures
        *w == flow_nodes(*old(g))[i as int],
        flow_nodes(*final(g)) == flow_nodes(*old(g)).update(i as int, *final(w)),
        flow_edges(*final(g)) == flow_edges(*old(g)),
{
    &mut g[NodeIndex::new(i)]
}

/// The edges into node `i` of a workflow graph, as source index and weight,
/// in the order in which `Graph::edges_directed(i, Incoming)` lists them
/// (petgraph documents it as the reverse of the order of addition).
pub uninterp spec fn flow_in_order(g: DiGraph<Node, Edge>, i: int) -> Seq<(int, Edge)>;

/// The edges out of node `i` of a workflow graph, as target index and
/// weight, in the order in which `Graph::edges_directed(i, Outgoing)` lists
/// them.
pub uninterp spec fn flow_out_order(g: DiGraph<Node, Edge>, i: int) -> Seq<(int, Edge)>;

/// A listing of edges at a node, as indices and weights.
pub open spec fn end_listing(r: Seq<(usize, &Edge)>) -> Seq<(int, Edge)> {
    r.map_values(|x: (usize, &Edge)| (x.0 as int, *x.1))
}

/// `Graph::edges_directed(i, Incoming)`: the sources and weights of the edges
/// into node `i`, one entry per edge, in the order `flow_in_order` names.
#[verifier::external_body]
pub(crate) fn flow_incoming(g: &DiGraph<Node, Edge>, i: usize) -> (r: Vec<(usize, &Edge)>)
    requires
        i < flow_nodes(*g).len(),
    ensures
        r@.len() == flow_in_degree(flow_edges(*g), i as int),
        forall|k: int| 0 <= k < r@.len() ==> r@[k].0 < flow_nodes(*g).len(),
        forall|k: int|
            0 <= k < r@.len() ==> flow_edges(*g).count((r@[k].0 as int, i as int, *r@[k].1)) > 0,
        forall|s: int, w: Edge|
            flow_edges(*g).count((s, i as int, w)) > 0 ==> exists|k: int|
                0 <= k < r@.len() && r@[k].0 == s && *r@[k].1 == w,
        end_listing(r@) == flow_in_order(*g, i as int),
{
    g.edges_directed(NodeIndex::new(i), Direction::Incoming).map(|e| (e.source().index(), e.weight())).collect()
}

/// `Graph::edges_directed(i, Outgoing)`: the targets and weights of the
/// edges out of node `i`, one entry per edge, in the order `flow_out_order`
/// names.
#[verifier::external_body]
pub(crate) fn flow_outgoing(g: &DiGraph<Node, Edge>, i: usize) -> (r: Vec<(usize, &Edge)>)
    requires
        i < flow_nodes(*g).len(),
    ensures
        r@.len() == flow_out_degree(flow_edges(*g), i as int),
        forall|k: int| 0 <= k < r@.len() ==> r@[k].0 < flow_nodes(*g).len(),
        forall|k: int|
            0 <= k < r@.len() ==> flow_edges(*g).count((i as int, r@[k].0 as int, *r@[k].1)) > 0,
        forall|t: int, w: Edge|
            flow_edges(*g).count((i as int, t, w)) > 0 ==> exists|k: int|
                0 <= k < r@.len() && r@[k].0 == t && *r@[k].1 == w,
        end_listing(r@) == flow_out_order(*g, i as int),
{
    g.edges_directed(NodeIndex::new(i), Direction::Outgoing).map(|e| (e.target().index(), e.weight())).collect()
}

/// `Graph::edge_references`: every edge as source, target and weight, each
/// edge once (the listing holds exactly the graph's edges, counted with
/// multiplicity); no order is promised.
#[verifier::external_body]
pub(crate) fn flow_all_edges(g: &DiGraph<Node, Edge>) -> (r: Vec<(usize, usize, &Edge)>)
    ensures
        r@.len() == flow_edges(*g).len(),
        forall|k: int|
            0 <= k < r@.len() ==> r@[k].0 < flow_nodes(*g).len() && r@[k].1 < flow_nodes(*g).len(),
        forall|k: int|
            0 <= k < r@.len() ==> flow_edges(*g).count((r@[k].0 as int, r@[k].1 as int, *r@[k].2)) > 0,
        forall|s: int, t: int, w: Edge|
            flow_edges(*g).count((s, t, w)) > 0 ==> exists|k: int|
                0 <= k < r@.len() && r@[k].0 == s && r@[k].1 == t && *r@[k].2 == w,
        edge_triples(r@).to_multiset() == flow_edges(*g),
{
    g.edge_references().map(|e| (e.source().index(), e.target().index(), e.weight())).collect()
}

/// The edges of a listing, each as source index, target index and weight.
pub open spec fn edge_triples(r: Seq<(usize, usize, &Edge)>) -> Seq<(int, int, Edge)> {
    r.map_values(|x: (usize, usize, &Edge)| (x.0 as int, x.1 as int, *x.2))
}

/// Node `a` has an edge to node `b` (of any weight).
pub open spec fn flow_linked(es: Multiset<(int, int, Edge)>, a: int, b: int) -> bool {
    exists|w: Edge| es.count((a, b, w)) > 0
}

/// `p` is a closed walk of at least one edge: consecutive entries are linked
/// and the walk ends where it starts.
pub open spec fn is_closed_walk(es: Multiset<(int, int, Edge)>, p: Seq<int>) -> bool {
    &&& p.len() >= 2
    &&& p[0] == p.last()
    &&& forall|k: int| 0 <= k < p.len() - 1 ==> #[trigger] flow_linked(es, p[k], p[k + 1])
}

/// The graph has a directed cycle (a self-loop counts).
pub open spec fn flow_has_cycle(es: Multiset<(int, int, Edge)>) -> bool {
    exists|p: Seq<int>| is_closed_walk(es, p)
}

/// `petgraph::algo::is_cyclic_directed`: whether the graph has a directed cycle.
#[verifier::external_body]
pub(crate) fn flow_is_cyclic(g: &DiGraph<Node, Edge>) -> (r: bool)
    ensures
        r == flow_has_cycle(flow_edges(*g)),
{
    petgraph::algo::is_cyclic_directed(g)
}

// ---------------------------------------------------------------------------
// The dependency graph of remaining work: nodes are `NodeId`s, edges carry nothing.

/// The node weights of a dependency graph, in index order.
pub uninterp spec fn dep_nodes(g: DiGraph<NodeId, ()>) -> Seq<NodeId>;

/// The pairs (source index, target index) joined by at least one edge.
pub uninterp spec fn dep_edges(g: DiGraph<NodeId, ()>) -> Set<(int, int)>;

/// The number of edges, parallel edges counted.
pub uninterp spec fn dep_edge_count(g: DiGraph<NodeId, ()>) -> nat;

/// The joined pairs after node `a` of `n` nodes is removed.
pub open spec fn dep_edges_after_removal(before: Set<(int, int)>, after: Set<(int, int)>, a: int, n: int) -> bool {
    forall|s: int, t: int|
        #[trigger] after.contains((s, t)) <==> (0 <= s < n - 1 && 0 <= t < n - 1 && before.contains(
            (moved_from(s, a, n), moved_from(t, a, n)),
        ))
}

/// `Graph::new`: an empty graph.
#[verifier::external_body]
pub(crate) fn dep_new() -> (g: DiGraph<NodeId, ()>)
    ensures
        dep_nodes(g).len() == 0,
        dep_edges(g) == Set::<(int, int)>::empty(),
        dep_edge_count(g) == 0,
{
    DiGraph::new()
}

/// `Graph::add_node`: appends a node and returns its index.
#[verifier::external_body]
pub(crate) fn dep_add_node(g: &mut DiGraph<NodeId, ()>, w: NodeId) -> (i: usize)
    requires
        dep_nodes(*old(g)).len() < INDEX_LIMIT,
    ensures
        i == dep_nodes(*old(g)).len(),
        dep_nodes(*final(g)) == dep_nodes(*old(g)).push(w),
        dep_edges(*final(g)) == dep_edges(*old(g)),
        dep_edge_count(*final(g)) == dep_edge_count(*old(g)),
{
    g.add_node(w).index()
}

/// `Graph::add_edge`: adds an edge between two existing nodes.
#[verifier::external_body]
pub(crate) fn dep_add_edge(g: &mut DiGraph<NodeId, ()>, a: usize, b: usize)
    requires
        a < dep_nodes(*old(g)).len(),
        b < dep_nodes(*old(g)).len(),
        dep_edge_count(*old(g)) < INDEX_LIMIT,
    ensures
        dep_nodes(*final(g)) == dep_nodes(*old(g)),
        dep_edges(*final(g)) == dep_edges(*old(g)).insert((a as int, b as int)),
        dep_edge_count(*final(g)) == dep_edge_count(*old(g)) + 1,
{
    g.add_edge(NodeIndex::new(a), NodeIndex::new(b), ());
}

/// `Graph::remove_node` on an existing node: removes its edges and moves the
/// last node into index `a`.
#[verifier::external_body]
pub(crate) fn dep_remove_node(g: &mut DiGraph<NodeId, ()>, a: usize)
    requires
        a < dep_nodes(*old(g)).len(),
    ensures
        dep_nodes(*final(g)) == dep_nodes(*old(g)).update(a as int, dep_nodes(*old(g)).last()).drop_last(),
        dep_edges_after_removal(
            dep_edges(*old(g)),
            dep_edges(*final(g)),
            a as int,
            dep_nodes(*old(g)).len() as int,
        ),
        dep_edge_count(*final(g)) <= dep_edge_count(*old(g)),
{
    g.remove_node(NodeIndex::new(a));
}

/// `Graph::node_count`.
#[verifier::external_body]
pub(crate) fn dep_node_count(g: &DiGraph<NodeId, ()>) -> (n: usize)
    ensures
        n == dep_nodes(*g).len(),
{
    g.node_count()
}

/// `Graph::edge_count` of a dependency graph.
#[verifier::external_body]
pub(crate) fn dep_link_total(g: &DiGraph<NodeId, ()>) -> (n: usize)
    ensures
        n == dep_edge_count(*g),
{
    g.edge_count()
}

/// `Graph::node_weight` on an existing index.
#[verifier::external_body]
pub(crate) fn dep_node(g: &DiGraph<NodeId, ()>, i: usize) -> (w: NodeId)
    requires
        i < dep_nodes(*g).len(),
    ensures
        w == dep_nodes(*g)[i as int],
{
    g[NodeIndex::new(i)]
}

/// Whether node `i` has an incoming edge (`edges_directed(i, Incoming)` is non-empty).
#[verifier::external_body]
pub(crate) fn dep_has_incoming(g: &DiGraph<NodeId, ()>, i: usize) -> (r: bool)
    requires
        i < dep_nodes(*g).len(),
    ensures
        r == exists|s: int| dep_edges(*g).contains((s, i as int)),
{
    g.edges_directed(NodeIndex::new(i), Direction::Incoming).next().is_some()
}

/// The targets of the edges out of node `i` (`edges_directed(i, Outgoing)`),
/// in no promised order.
#[verifier::external_body]
pub(crate) fn dep_targets(g: &DiGraph<NodeId, ()>, i: usize) -> (r: Vec<usize>)
    requires
        i < dep_nodes(*g).len(),
    ensures
        forall|k: int| 0 <= k < r@.len() ==> dep_edges(*g).contains((i as int, r@[k] as int)),
        forall|t: int| dep_edges(*g).contains((i as int, t)) ==> r@.contains(t as usize),
{
    g.edges_directed(NodeIndex::new(i), Direction::Outgoing).map(|e| e.target().index()).collect()
}

} // verus!
