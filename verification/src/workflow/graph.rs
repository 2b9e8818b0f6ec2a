//! Workflow graphs: nodes are workflow steps with typed ports, edges connect
//! an output port of one node to an input port of another.
//!
//! The graph keeps a map from node identifiers to graph indices for lookup.

use vstd::prelude::*;
use vstd::multiset::Multiset;
use std::collections::HashMap;
use petgraph::graph::DiGraph;
use crate::workflow::node::{Node, NodeId, find_input, find_output};
use crate::workflow::edge::Edge;
use crate::workflow::error::GraphError;
use crate::workflow::port::{InputPort, schemas_compatible};
use crate::workflow::graph_store::{INDEX_LIMIT, flow_new, flow_add_node, flow_add_edge, flow_remove_node, flow_node_count, flow_edge_count, flow_node, flow_node_mut, flow_incoming, flow_outgoing, flow_is_cyclic, flow_nodes, flow_edges, flow_in_degree, flow_out_degree, flow_edges_after_removal, flow_has_cycle, flow_all_edges, edge_triples, flow_in_order, flow_out_order};

verus! {

broadcast use vstd::std_specs::hash::group_hash_axioms;

/// Index map rebuilt from the nodes: each identifier maps to the last index
/// that holds a node with that identifier.
pub open spec fn index_map_of(nodes: Seq<Node>) -> Map<u128, usize>
    decreases nodes.len(),
{
    if nodes.len() == 0 {
        Map::empty()
    } else {
        index_map_of(nodes.drop_last()).insert(nodes.last().id.0, (nodes.len() - 1) as usize)
    }
}

/// Every index in a rebuilt index map points at a node.
pub proof fn lemma_index_map_in_range(nodes: Seq<Node>)
    ensures
        forall|x: u128| #[trigger] index_map_of(nodes).contains_key(x) ==> index_map_of(nodes)[x] < nodes.len(),
    decreases nodes.len(),
{
    if nodes.len() > 0 {
        let prev = nodes.drop_last();
        lemma_index_map_in_range(prev);
        assert forall|x: u128| #[trigger] index_map_of(nodes).contains_key(x) implies index_map_of(nodes)[x] < nodes.len() by {
            if x != nodes.last().id.0 {
                assert(index_map_of(prev).contains_key(x));
            }
        }
    }
}

/// No two nodes share an identifier.
pub open spec fn node_ids_distinct(nodes: Seq<Node>) -> bool {
    forall|a: int, b: int| 0 <= a < nodes.len() && 0 <= b < nodes.len() && a != b ==> nodes[a].id != nodes[b].id
}

/// With distinct identifiers, a rebuilt index map sends the identifier of
/// each node to that node's index, and holds no other identifier.
pub proof fn lemma_index_map_distinct(nodes: Seq<Node>)
    requires
        node_ids_distinct(nodes),
        nodes.len() <= usize::MAX,
    ensures
        forall|j: int| 0 <= j < nodes.len() ==> #[trigger] index_map_of(nodes).contains_key(nodes[j].id.0)
            && index_map_of(nodes)[nodes[j].id.0] == j,
        forall|x: u128| #[trigger] index_map_of(nodes).contains_key(x) ==> exists|j: int|
            0 <= j < nodes.len() && nodes[j].id.0 == x,
    decreases nodes.len(),
{
    if nodes.len() > 0 {
        let prev = nodes.drop_last();
        assert(node_ids_distinct(prev));
        lemma_index_map_distinct(prev);
        let n = nodes.len() as int;
        assert(nodes.last() == nodes[n - 1]);
        assert forall|j: int| 0 <= j < nodes.len() implies #[trigger] index_map_of(nodes).contains_key(nodes[j].id.0)
            && index_map_of(nodes)[nodes[j].id.0] == j by {
            if j < n - 1 {
                assert(prev[j] == nodes[j]);
                assert(index_map_of(prev).contains_key(prev[j].id.0));
                assert(nodes[j].id != nodes[n - 1].id);
                assert(nodes[j].id.0 != nodes[n - 1].id.0);
            } else {
                assert(index_map_of(nodes)[nodes[n - 1].id.0] == (n - 1) as usize);
            }
        }
        assert forall|x: u128| #[trigger] index_map_of(nodes).contains_key(x) implies exists|j: int|
            0 <= j < nodes.len() && nodes[j].id.0 == x by {
            if x != nodes.last().id.0 {
                assert(index_map_of(prev).contains_key(x));
                let j = choose|j: int| 0 <= j < prev.len() && prev[j].id.0 == x;
                assert(nodes[j] == prev[j]);
            } else {
                assert(nodes[n - 1].id.0 == x);
            }
        }
    }
}

/// The index map after the last node, at index `from`, moved to index `to`:
/// an identifier that pointed at `from` now points at `to`.
pub open spec fn moved_index_map(m: Map<u128, usize>, last_id: u128, from: usize, to: usize) -> Map<u128, usize> {
    if m.contains_key(last_id) && m[last_id] == from {
        m.insert(last_id, to)
    } else {
        m
    }
}

/// Removing node `i` from nodes with distinct identifiers, the last node
/// moving into its index: the index map, with the removed identifier taken
/// out and the moved node's identifier pointed at `i`, is the map rebuilt
/// from the nodes left.
pub proof fn lemma_removal_index_map(nodes: Seq<Node>, i: int)
    requires
        node_ids_distinct(nodes),
        nodes.len() <= usize::MAX,
        0 <= i < nodes.len(),
    ensures
        moved_index_map(
            index_map_of(nodes).remove(nodes[i].id.0),
            nodes.last().id.0,
            (nodes.len() - 1) as usize,
            i as usize,
        ) == index_map_of(nodes.update(i, nodes.last()).drop_last()),
{
    let n = nodes.len() as int;
    let t = nodes.update(i, nodes.last()).drop_last();
    assert(node_ids_distinct(t)) by {
        assert forall|a: int, b: int| 0 <= a < t.len() && 0 <= b < t.len() && a != b implies t[a].id != t[b].id by {
            let sa = if a == i { n - 1 } else { a };
            let sb = if b == i { n - 1 } else { b };
            assert(t[a] == nodes[sa]);
            assert(t[b] == nodes[sb]);
        }
    }
    lemma_index_map_distinct(nodes);
    lemma_index_map_distinct(t);
    let m = index_map_of(nodes);
    let lhs = moved_index_map(m.remove(nodes[i].id.0), nodes.last().id.0, (n - 1) as usize, i as usize);
    let rhs = index_map_of(t);
    assert(m[nodes[n - 1].id.0] == n - 1);
    assert forall|x: u128| lhs.contains_key(x) <==> rhs.contains_key(x) by {
        if lhs.contains_key(x) {
            assert(m.contains_key(x) && x != nodes[i].id.0);
            let j = choose|j: int| 0 <= j < nodes.len() && nodes[j].id.0 == x;
            assert(j != i);
            let tj = if j == n - 1 { i } else { j };
            assert(t[tj] == nodes[j]);
            assert(rhs.contains_key(t[tj].id.0));
        }
        if rhs.contains_key(x) {
            let j = choose|j: int| 0 <= j < t.len() && t[j].id.0 == x;
            let sj = if j == i { n - 1 } else { j };
            assert(t[j] == nodes[sj]);
            assert(m.contains_key(nodes[sj].id.0));
            assert(nodes[sj].id != nodes[i].id);
        }
    }
    assert forall|x: u128| #[trigger] lhs.contains_key(x) implies lhs[x] == rhs[x] by {
        let j = choose|j: int| 0 <= j < nodes.len() && nodes[j].id.0 == x;
        assert(m[x] == j);
        assert(j != i);
        if j == n - 1 {
            assert(t[i] == nodes[n - 1]);
            assert(rhs[t[i].id.0] == i);
        } else {
            assert(t[j] == nodes[j]);
            assert(rhs[t[j].id.0] == j);
            assert(nodes[j].id != nodes[n - 1].id);
        }
    }
    assert(lhs =~= rhs);
}

/// The stored edges `r` name, by index pairs `ix`, the nodes of `nodes` at
/// both ends, and taken as index triples they are exactly the edges `es`.
pub open spec fn stored_by(
    nodes: Seq<Node>,
    es: Multiset<(int, int, Edge)>,
    r: Seq<(Option<NodeId>, Option<NodeId>, Edge)>,
    ix: Seq<(int, int)>,
) -> bool {
    &&& ix.len() == r.len()
    &&& forall|k: int|
        0 <= k < r.len() ==> 0 <= #[trigger] ix[k].0 < nodes.len() && 0 <= ix[k].1 < nodes.len() && r[k].0 == Some(
            nodes[ix[k].0].id,
        ) && r[k].1 == Some(nodes[ix[k].1].id)
    &&& stored_triples(r, ix).to_multiset() == es
}

/// The index triples of stored edges, by their index pairs.
pub open spec fn stored_triples(r: Seq<(Option<NodeId>, Option<NodeId>, Edge)>, ix: Seq<(int, int)>) -> Seq<
    (int, int, Edge),
> {
    Seq::new(r.len(), |k: int| (ix[k].0, ix[k].1, r[k].2))
}

/// Rebuilding the first `k` stored edges against the index map of nodes with
/// distinct identifiers gives the first `k` index triples.
proof fn lemma_stored_prefix(
    nodes: Seq<Node>,
    es: Multiset<(int, int, Edge)>,
    r: Seq<(Option<NodeId>, Option<NodeId>, Edge)>,
    ix: Seq<(int, int)>,
    k: int,
)
    requires
        node_ids_distinct(nodes),
        nodes.len() <= usize::MAX,
        stored_by(nodes, es, r, ix),
        0 <= k <= r.len(),
    ensures
        stored_edges(index_map_of(nodes), r, k) == stored_triples(r, ix).take(k).to_multiset(),
    decreases k,
{
    broadcast use vstd::seq_lib::to_multiset_build;
    let t = stored_triples(r, ix);
    if k == 0 {
        assert(t.take(0) =~= Seq::<(int, int, Edge)>::empty());
        assert(t.take(0).to_multiset() =~= Multiset::empty()) by {
            vstd::seq_lib::to_multiset_len(t.take(0));
        }
    } else {
        lemma_stored_prefix(nodes, es, r, ix, k - 1);
        lemma_index_map_distinct(nodes);
        let e = r[k - 1];
        let a = ix[k - 1].0;
        let b = ix[k - 1].1;
        assert(e.0 == Some(nodes[a].id) && e.1 == Some(nodes[b].id));
        assert(0 <= a < nodes.len() && 0 <= b < nodes.len());
        assert(index_map_of(nodes).contains_key(nodes[a].id.0));
        assert(index_map_of(nodes).contains_key(nodes[b].id.0));
        assert(index_map_of(nodes)[nodes[a].id.0] == a);
        assert(index_map_of(nodes)[nodes[b].id.0] == b);
        assert(t.take(k) =~= t.take(k - 1).push(t[k - 1]));
        assert(t[k - 1] == (a, b, e.2));
    }
}

/// Storing a graph whose node identifiers are distinct and rebuilding it
/// from its nodes and its stored edges gives back its edges; and once the
/// index map is rebuilt from the nodes, a lookup of each node's identifier
/// finds that node's index again.
pub proof fn law_store_rebuild(
    nodes: Seq<Node>,
    es: Multiset<(int, int, Edge)>,
    r: Seq<(Option<NodeId>, Option<NodeId>, Edge)>,
)
    requires
        node_ids_distinct(nodes),
        nodes.len() <= usize::MAX,
        stored_form(nodes, es, r),
    ensures
        stored_edges(index_map_of(nodes), r, r.len() as int) == es,
        forall|j: int| 0 <= j < nodes.len() ==> #[trigger] index_map_of(nodes).contains_key(nodes[j].id.0)
            && index_map_of(nodes)[nodes[j].id.0] == j,
{
    let ix = choose|ix: Seq<(int, int)>| stored_by(nodes, es, r, ix);
    lemma_stored_prefix(nodes, es, r, ix, r.len() as int);
    assert(stored_triples(r, ix).take(r.len() as int) =~= stored_triples(r, ix));
    lemma_index_map_distinct(nodes);
}

/// Some index pairs store the edges `es` of `nodes` as `r`.
pub open spec fn stored_form(
    nodes: Seq<Node>,
    es: Multiset<(int, int, Edge)>,
    r: Seq<(Option<NodeId>, Option<NodeId>, Edge)>,
) -> bool {
    exists|ix: Seq<(int, int)>| stored_by(nodes, es, r, ix)
}

/// The first unconnected required port, if any, is a required port of the
/// list that is not connected, and when there is none every required port
/// of the list is connected.
pub proof fn lemma_first_unconnected(ports: Seq<InputPort>, connected: Set<Seq<char>>)
    ensures
        first_unconnected(ports, connected) is None ==> forall|j: int|
            0 <= j < ports.len() && (#[trigger] ports[j]).required ==> connected.contains(ports[j].name@),
        first_unconnected(ports, connected) matches Some(p) ==> ports.contains(p) && p.required && !connected.contains(
            p.name@,
        ),
    decreases ports.len(),
{
    if ports.len() > 0 {
        let rest = ports.drop_first();
        lemma_first_unconnected(rest, connected);
        if first_unconnected(ports, connected) is None {
            assert forall|j: int| 0 <= j < ports.len() && (#[trigger] ports[j]).required implies connected.contains(
                ports[j].name@,
            ) by {
                if j > 0 {
                    assert(ports[j] == rest[j - 1]);
                }
            }
        }
        if !(ports[0].required && !connected.contains(ports[0].name@)) {
            if first_unconnected(rest, connected) is Some {
                let p = first_unconnected(rest, connected)->Some_0;
                let j = choose|j: int| 0 <= j < rest.len() && rest[j] == p;
                assert(ports[j + 1] == p);
            }
        } else {
            assert(ports[0] == ports[0]);
            assert(ports.contains(ports[0]));
        }
    }
}

/// The nodes, in index order, that have no incoming edge, among the first `k`.
pub open spec fn entry_prefix(nodes: Seq<Node>, es: Multiset<(int, int, Edge)>, k: int) -> Seq<Node>
    decreases k,
{
    if k <= 0 {
        Seq::empty()
    } else {
        let prev = entry_prefix(nodes, es, k - 1);
        if flow_in_degree(es, k - 1) == 0 {
            prev.push(nodes[k - 1])
        } else {
            prev
        }
    }
}

/// The nodes, in index order, that have no outgoing edge, among the first `k`.
pub open spec fn terminal_prefix(nodes: Seq<Node>, es: Multiset<(int, int, Edge)>, k: int) -> Seq<Node>
    decreases k,
{
    if k <= 0 {
        Seq::empty()
    } else {
        let prev = terminal_prefix(nodes, es, k - 1);
        if flow_out_degree(es, k - 1) == 0 {
            prev.push(nodes[k - 1])
        } else {
            prev
        }
    }
}

/// The views of a sequence of node references.
pub open spec fn deref_nodes(v: Seq<&Node>) -> Seq<Node> {
    v.map_values(|x: &Node| *x)
}

/// The first required input port whose name is not in `connected`.
pub open spec fn first_unconnected(ports: Seq<InputPort>, connected: Set<Seq<char>>) -> Option<InputPort>
    decreases ports.len(),
{
    if ports.len() == 0 {
        None
    } else if ports[0].required && !connected.contains(ports[0].name@) {
        Some(ports[0])
    } else {
        first_unconnected(ports.drop_first(), connected)
    }
}

/// The edges kept when a graph is rebuilt from stored parts: both endpoints
/// named and found in `ids`, among the first `k` stored edges.
pub open spec fn stored_edges(
    ids: Map<u128, usize>,
    es: Seq<(Option<NodeId>, Option<NodeId>, Edge)>,
    k: int,
) -> Multiset<(int, int, Edge)>
    decreases k,
{
    if k <= 0 {
        Multiset::empty()
    } else {
        let prev = stored_edges(ids, es, k - 1);
        let e = es[k - 1];
        match (e.0, e.1) {
            (Some(s), Some(t)) => if ids.contains_key(s.0) && ids.contains_key(t.0) {
                prev.insert((ids[s.0] as int, ids[t.0] as int, e.2))
            } else {
                prev
            },
            _ => prev,
        }
    }
}

/// A workflow graph.
#[derive(Debug)]
pub struct WorkflowGraph {
    graph: DiGraph<Node, Edge>,
    node_index_map: HashMap<u128, usize>,
}

impl WorkflowGraph {
    /// The nodes, in index order.
    pub closed spec fn node_seq(&self) -> Seq<Node> {
        flow_nodes(self.graph)
    }

    /// The edges: source index, target index, weight.
    pub closed spec fn edge_set(&self) -> Multiset<(int, int, Edge)> {
        flow_edges(self.graph)
    }

    /// The edges into node `i`, as source index and weight, in the order the
    /// graph store lists them.
    pub closed spec fn predecessor_order(&self, i: int) -> Seq<(int, Edge)> {
        flow_in_order(self.graph, i)
    }

    /// The edges out of node `i`, as target index and weight, in the order
    /// the graph store lists them.
    pub closed spec fn successor_order(&self, i: int) -> Seq<(int, Edge)> {
        flow_out_order(self.graph, i)
    }

    /// The map from node identifiers to indices.
    pub closed spec fn index_of(&self) -> Map<u128, usize> {
        self.node_index_map@
    }

    /// The index that a lookup of `id` goes to, if it holds a node.
    pub open spec fn lookup_index(&self, id: NodeId) -> Option<int> {
        if self.index_of().contains_key(id.0) && self.index_of()[id.0] < self.node_seq().len() {
            Some(self.index_of()[id.0] as int)
        } else {
            None
        }
    }

    /// How many successor entries a lookup of the identifier of node `i` gives:
    /// the out-degree of the index it finds, or none.
    pub open spec fn successor_count_at(&self, i: int) -> nat {
        match self.lookup_index(self.node_seq()[i].id) {
            Some(j) => flow_out_degree(self.edge_set(), j),
            None => 0,
        }
    }

    /// The successor entries of the identifiers of the first `k` nodes, summed.
    pub open spec fn successor_entry_total(&self, k: int) -> nat
        decreases k,
    {
        if k <= 0 {
            0
        } else {
            self.successor_entry_total(k - 1) + self.successor_count_at(k - 1)
        }
    }

    /// The running sum of successor entries never decreases.
    pub proof fn lemma_successor_total_monotone(&self, i: int, k: int)
        requires
            0 <= i <= k,
        ensures
            self.successor_entry_total(i) <= self.successor_entry_total(k),
        decreases k - i,
    {
        if i < k {
            self.lemma_successor_total_monotone(i, k - 1);
        }
    }

    /// The names of the ports that incoming edges of the node with identifier
    /// `id` lead to (none when the lookup finds no node).
    pub open spec fn incoming_port_names(&self, id: NodeId) -> Set<Seq<char>> {
        match self.lookup_index(id) {
            None => Set::empty(),
            Some(i) => Set::new(
                |p: Seq<char>|
                    exists|s: int, w: Edge| self.edge_set().count((s, i, w)) > 0 && w.target_port@ == p,
            ),
        }
    }

    /// The first node, in index order from `k`, with a required input port that
    /// no incoming edge connects; with that port.
    pub open spec fn first_missing_from(&self, k: int) -> Option<(NodeId, InputPort)>
        decreases self.node_seq().len() - k,
    {
        if k < 0 || k >= self.node_seq().len() {
            None
        } else {
            let n = self.node_seq()[k];
            match first_unconnected(n.inputs@, self.incoming_port_names(n.id)) {
                Some(p) => Some((n.id, p)),
                None => self.first_missing_from(k + 1),
            }
        }
    }

    /// What adding an edge gives: the source and target indices, or the error.
    pub open spec fn add_edge_outcome(&self, source_id: NodeId, target_id: NodeId, edge: Edge) -> Result<(int, int), GraphError> {
        let m = self.index_of();
        if !m.contains_key(source_id.0) {
            Err(GraphError::NodeNotFound { node_id: source_id })
        } else if !m.contains_key(target_id.0) {
            Err(GraphError::NodeNotFound { node_id: target_id })
        } else {
            let si = m[source_id.0] as int;
            let ti = m[target_id.0] as int;
            match find_output(self.node_seq()[si].outputs@, edge.source_port@) {
                None => Err(GraphError::SourcePortNotFound { node_id: source_id, port_name: edge.source_port }),
                Some(sp) => match find_input(self.node_seq()[ti].inputs@, edge.target_port@) {
                    None => Err(GraphError::TargetPortNotFound { node_id: target_id, port_name: edge.target_port }),
                    Some(tp) => if schemas_compatible(sp.schema.schema@, tp.schema.schema@) {
                        Ok((si, ti))
                    } else {
                        Err(
                            GraphError::IncompatibleSchemas {
                                source_node: source_id,
                                source_port: edge.source_port,
                                target_node: target_id,
                                target_port: edge.target_port,
                            },
                        )
                    },
                },
            }
        }
    }

    /// Node `n` with weight `w` is the target of an edge out of node `i`.
    pub open spec fn is_out_entry(&self, i: int, n: Node, w: Edge) -> bool {
        exists|t: int| 0 <= t < self.node_seq().len() && n == self.node_seq()[t] && self.edge_set().count((i, t, w)) > 0
    }

    /// Node `n` with weight `w` is the source of an edge into node `i`.
    pub open spec fn is_in_entry(&self, i: int, n: Node, w: Edge) -> bool {
        exists|s: int| 0 <= s < self.node_seq().len() && n == self.node_seq()[s] && self.edge_set().count((s, i, w)) > 0
    }

    /// `r` lists the edges out of node `i`, one entry per edge, each with its
    /// target node.
    pub open spec fn is_successor_list(&self, i: int, r: Seq<(&Node, &Edge)>) -> bool {
        &&& r.len() == flow_out_degree(self.edge_set(), i)
        &&& forall|k: int| 0 <= k < r.len() ==> #[trigger] self.is_out_entry(i, *r[k].0, *r[k].1)
        &&& forall|t: int, w: Edge|
            self.edge_set().count((i, t, w)) > 0 ==> exists|k: int|
                0 <= k < r.len() && *r[k].0 == self.node_seq()[t] && *r[k].1 == w
    }

    /// `r` lists the edges into node `i`, one entry per edge, each with its
    /// source node.
    pub open spec fn is_predecessor_list(&self, i: int, r: Seq<(&Node, &Edge)>) -> bool {
        &&& r.len() == flow_in_degree(self.edge_set(), i)
        &&& forall|k: int| 0 <= k < r.len() ==> #[trigger] self.is_in_entry(i, *r[k].0, *r[k].1)
        &&& forall|s: int, w: Edge|
            self.edge_set().count((s, i, w)) > 0 ==> exists|k: int|
                0 <= k < r.len() && *r[k].0 == self.node_seq()[s] && *r[k].1 == w
    }

    /// An empty graph.
    pub fn new() -> (r: Self)
        ensures
            r.node_seq().len() == 0,
            r.edge_set().len() == 0,
            r.index_of() == Map::<u128, usize>::empty(),
    {
        WorkflowGraph { graph: flow_new(), node_index_map: HashMap::new() }
    }

    /// Adds a node and returns its identifier.
    pub fn add_node(&mut self, node: Node) -> (id: NodeId)
        requires
            old(self).node_seq().len() < INDEX_LIMIT,
        ensures
            id == node.id,
            final(self).node_seq() == old(self).node_seq().push(node),
            final(self).edge_set() == old(self).edge_set(),
            final(self).index_of() == old(self).index_of().insert(node.id.0, old(self).node_seq().len() as usize),
    {
        let node_id = node.id;
        let index = flow_add_node(&mut self.graph, node);
        self.node_index_map.insert(node_id.0, index);
        node_id
    }

    /// Removes the node with the given identifier, with all its edges.
    /// The last node moves into the freed index.
    pub fn remove_node(&mut self, node_id: NodeId) -> (r: Option<Node>)
        ensures
            !old(self).index_of().contains_key(node_id.0) ==> r is None && final(self).node_seq() == old(
                self,
            ).node_seq() && final(self).edge_set() == old(self).edge_set() && final(self).index_of()
                == old(self).index_of(),
            old(self).index_of().contains_key(node_id.0) && old(self).lookup_index(node_id) is None
                ==> final(self).index_of() == old(self).index_of().remove(node_id.0),
            old(self).lookup_index(node_id) is None ==> r is None && final(self).node_seq() == old(
                self,
            ).node_seq() && final(self).edge_set() == old(self).edge_set(),
            old(self).lookup_index(node_id) matches Some(i) ==> {
                &&& r == Some(old(self).node_seq()[i])
                &&& old(self).index_of() == index_map_of(old(self).node_seq()) && node_ids_distinct(
                    old(self).node_seq(),
                ) ==> final(self).index_of() == index_map_of(final(self).node_seq())
                &&& final(self).index_of() == moved_index_map(
                    old(self).index_of().remove(node_id.0),
                    old(self).node_seq().last().id.0,
                    (old(self).node_seq().len() - 1) as usize,
                    i as usize,
                )
                &&& final(self).node_seq() == old(self).node_seq().update(
                    i,
                    old(self).node_seq().last(),
                ).drop_last()
                &&& flow_edges_after_removal(
                    old(self).edge_set(),
                    final(self).edge_set(),
                    i,
                    old(self).node_seq().len() as int,
                )
            },
    {
        let index = match self.node_index_map.get(&node_id.0) {
            Some(i) => *i,
            None => return None,
        };
        self.node_index_map.remove(&node_id.0);
        let n = flow_node_count(&self.graph);
        if index < n {
            let last_id = flow_node(&self.graph, n - 1).id;
            proof {
                if old(self).index_of() == index_map_of(old(self).node_seq()) && node_ids_distinct(
                    old(self).node_seq(),
                ) {
                    lemma_removal_index_map(old(self).node_seq(), index as int);
                    lemma_index_map_distinct(old(self).node_seq());
                }
            }
            let removed = flow_remove_node(&mut self.graph, index);
            let moved = match self.node_index_map.get(&last_id.0) {
                Some(j) => *j == n - 1,
                None => false,
            };
            if moved {
                self.node_index_map.insert(last_id.0, index);
            }
            Some(removed)
        } else {
            None
        }
    }

    /// A mutable reference to the node with the given identifier; what is
    /// written through it becomes that node, and nothing else changes.
    pub fn get_node_mut(&mut self, node_id: NodeId) -> (r: Option<&mut Node>)
        ensures
            r is Some <==> old(self).lookup_index(node_id) is Some,
            r is None ==> *final(self) == *old(self),
            r matches Some(n) ==> {
                let i = old(self).lookup_index(node_id)->Some_0;
                &&& *n == old(self).node_seq()[i]
                &&& final(self).node_seq() == old(self).node_seq().update(i, *final(n))
                &&& final(self).edge_set() == old(self).edge_set()
                &&& final(self).index_of() == old(self).index_of()
            },
    {
        let index = match self.node_index_map.get(&node_id.0) {
            Some(i) => *i,
            None => return None,
        };
        if index < flow_node_count(&self.graph) {
            Some(flow_node_mut(&mut self.graph, index))
        } else {
            None
        }
    }

    /// From node `k` on, the search for an unconnected required input finds
    /// nothing exactly when every required input port of every node from `k`
    /// on has an edge leading to it; what it finds is a required port of such
    /// a node that no edge leads to.
    pub proof fn law_missing_inputs(&self, k: int)
        requires
            0 <= k,
        ensures
            self.first_missing_from(k) is None ==> forall|i: int, j: int|
                k <= i < self.node_seq().len() && 0 <= j < self.node_seq()[i].inputs@.len()
                    && (#[trigger] self.node_seq()[i].inputs@[j]).required ==> self.incoming_port_names(
                    self.node_seq()[i].id,
                ).contains(self.node_seq()[i].inputs@[j].name@),
            self.first_missing_from(k) matches Some(m) ==> exists|i: int|
                k <= i < self.node_seq().len() && (#[trigger] self.node_seq()[i]).id == m.0
                    && self.node_seq()[i].inputs@.contains(m.1) && m.1.required && !self.incoming_port_names(
                    m.0,
                ).contains(m.1.name@),
        decreases self.node_seq().len() - k,
    {
        if k < self.node_seq().len() {
            let n = self.node_seq()[k];
            lemma_first_unconnected(n.inputs@, self.incoming_port_names(n.id));
            self.law_missing_inputs(k + 1);
            if self.first_missing_from(k) is None {
                assert forall|i: int, j: int|
                    k <= i < self.node_seq().len() && 0 <= j < self.node_seq()[i].inputs@.len()
                        && (#[trigger] self.node_seq()[i].inputs@[j]).required implies self.incoming_port_names(
                    self.node_seq()[i].id,
                ).contains(self.node_seq()[i].inputs@[j].name@) by {
                    if i == k {
                        assert(n.inputs@[j] == self.node_seq()[i].inputs@[j]);
                    }
                }
            }
            if first_unconnected(n.inputs@, self.incoming_port_names(n.id)) is Some {
                assert(self.node_seq()[k].id == n.id);
            }
        }
    }

    /// The node with the given identifier.
    pub fn get_node(&self, node_id: NodeId) -> (r: Option<&Node>)
        ensures
            r is Some <==> self.lookup_index(node_id) is Some,
            r matches Some(n) ==> *n == self.node_seq()[self.lookup_index(node_id)->Some_0],
    {
        let index = match self.node_index_map.get(&node_id.0) {
            Some(i) => *i,
            None => return None,
        };
        if index < flow_node_count(&self.graph) {
            Some(flow_node(&self.graph, index))
        } else {
            None
        }
    }

    /// All nodes, in index order.
    pub fn nodes(&self) -> (r: Vec<&Node>)
        ensures
            deref_nodes(r@) == self.node_seq(),
    {
        let n = flow_node_count(&self.graph);
        let mut out: Vec<&Node> = Vec::new();
        let mut i: usize = 0;
        while i < n
            invariant
                n == self.node_seq().len(),
                i <= n,
                out@.len() == i,
                deref_nodes(out@) == self.node_seq().subrange(0, i as int),
            decreases n - i,
        {
            let w = flow_node(&self.graph, i);
            let ghost before = out@;
            out.push(w);
            proof {
                assert(out@ == before.push(w));
                assert(deref_nodes(out@)[i as int] == self.node_seq()[i as int]);
                assert forall|k: int| 0 <= k < i implies deref_nodes(out@)[k] == deref_nodes(before)[k] by {}
                assert(deref_nodes(out@) =~= self.node_seq().subrange(0, i + 1));
            }
            i = i + 1;
        }
        assert(self.node_seq().subrange(0, n as int) =~= self.node_seq());
        out
    }

    /// The number of nodes.
    pub fn node_count(&self) -> (n: usize)
        ensures
            n == self.node_seq().len(),
            n <= INDEX_LIMIT,
    {
        flow_node_count(&self.graph)
    }

    /// The number of edges.
    pub fn edge_count(&self) -> (n: usize)
        ensures
            n == self.edge_set().len(),
            n <= INDEX_LIMIT,
    {
        flow_edge_count(&self.graph)
    }

    /// The nodes with no incoming edge (the entry points), in index order.
    pub fn entry_nodes(&self) -> (r: Vec<&Node>)
        ensures
            deref_nodes(r@) == entry_prefix(self.node_seq(), self.edge_set(), self.node_seq().len() as int),
    {
        let n = flow_node_count(&self.graph);
        let mut out: Vec<&Node> = Vec::new();
        let mut i: usize = 0;
        while i < n
            invariant
                n == self.node_seq().len(),
                i <= n,
                deref_nodes(out@) == entry_prefix(self.node_seq(), self.edge_set(), i as int),
            decreases n - i,
        {
            if flow_incoming(&self.graph, i).len() == 0 {
                out.push(flow_node(&self.graph, i));
                proof {
                    assert(deref_nodes(out@) =~= entry_prefix(self.node_seq(), self.edge_set(), i as int).push(
                        self.node_seq()[i as int],
                    ));
                }
            }
            i = i + 1;
        }
        out
    }

    /// The nodes with no outgoing edge (the terminal nodes), in index order.
    pub fn terminal_nodes(&self) -> (r: Vec<&Node>)
        ensures
            deref_nodes(r@) == terminal_prefix(self.node_seq(), self.edge_set(), self.node_seq().len() as int),
    {
        let n = flow_node_count(&self.graph);
        let mut out: Vec<&Node> = Vec::new();
        let mut i: usize = 0;
        while i < n
            invariant
                n == self.node_seq().len(),
                i <= n,
                deref_nodes(out@) == terminal_prefix(self.node_seq(), self.edge_set(), i as int),
            decreases n - i,
        {
            if flow_outgoing(&self.graph, i).len() == 0 {
                out.push(flow_node(&self.graph, i));
                proof {
                    assert(deref_nodes(out@) =~= terminal_prefix(self.node_seq(), self.edge_set(), i as int).push(
                        self.node_seq()[i as int],
                    ));
                }
            }
            i = i + 1;
        }
        out
    }

    /// Adds an edge after checking that both nodes exist, that the source node
    /// has the source port as output, that the target node has the target
    /// port as input, and that the two ports' schemas are compatible.
    pub fn add_edge(&mut self, source_id: NodeId, target_id: NodeId, edge: Edge) -> (r: Result<(), GraphError>)
        requires
            old(self).index_of().contains_key(source_id.0) && old(self).index_of().contains_key(target_id.0)
                ==> old(self).index_of()[source_id.0] < old(self).node_seq().len() && old(self).index_of()[target_id.0]
                < old(self).node_seq().len(),
            old(self).edge_set().len() < INDEX_LIMIT,
        ensures
            r is Ok <==> old(self).add_edge_outcome(source_id, target_id, edge) is Ok,
            r matches Err(e) ==> old(self).add_edge_outcome(source_id, target_id, edge) == Err::<(int, int), GraphError>(e),
            r is Err ==> final(self).edge_set() == old(self).edge_set(),
            old(self).add_edge_outcome(source_id, target_id, edge) matches Ok(p) ==> final(self).edge_set() == old(
                self,
            ).edge_set().insert((p.0, p.1, edge)),
            final(self).node_seq() == old(self).node_seq(),
            final(self).index_of() == old(self).index_of(),
    {
        let si = match self.node_index_map.get(&source_id.0) {
            Some(i) => *i,
            None => return Err(GraphError::NodeNotFound { node_id: source_id }),
        };
        let ti = match self.node_index_map.get(&target_id.0) {
            Some(i) => *i,
            None => return Err(GraphError::NodeNotFound { node_id: target_id }),
        };
        let source_node = flow_node(&self.graph, si);
        let target_node = flow_node(&self.graph, ti);
        let source_port = match source_node.output_port(edge.source_port.as_str()) {
            Some(p) => p,
            None => return Err(GraphError::SourcePortNotFound { node_id: source_id, port_name: edge.source_port.clone() }),
        };
        let target_port = match target_node.input_port(edge.target_port.as_str()) {
            Some(p) => p,
            None => return Err(GraphError::TargetPortNotFound { node_id: target_id, port_name: edge.target_port.clone() }),
        };
        if !source_port.schema.is_compatible_with(&target_port.schema) {
            return Err(
                GraphError::IncompatibleSchemas {
                    source_node: source_id,
                    source_port: edge.source_port.clone(),
                    target_node: target_id,
                    target_port: edge.target_port.clone(),
                },
            );
        }
        flow_add_edge(&mut self.graph, si, ti, edge);
        Ok(())
    }

    /// Whether the successor entries of all node identifiers, with `extra`
    /// more entries, stay within the index limit: the bound that building the
    /// remaining work of a run (and replaying `extra` events onto it) needs.
    pub fn fits_index_limit(&self, extra: usize) -> (r: bool)
        ensures
            r <==> self.successor_entry_total(self.node_seq().len() as int) + extra <= INDEX_LIMIT,
    {
        let nodes = self.nodes();
        let n = nodes.len();
        assert(deref_nodes(nodes@).len() == nodes@.len());
        if extra > INDEX_LIMIT {
            proof {
                self.lemma_successor_total_monotone(0, n as int);
            }
            return false;
        }
        let mut total: usize = 0;
        let mut i: usize = 0;
        while i < n
            invariant
                n == nodes@.len(),
                n == self.node_seq().len(),
                deref_nodes(nodes@) == self.node_seq(),
                i <= n,
                extra <= INDEX_LIMIT,
                total == self.successor_entry_total(i as int),
                total + extra <= INDEX_LIMIT,
            decreases n - i,
        {
            assert(*nodes@[i as int] == self.node_seq()[i as int]);
            let succ = self.successors(nodes[i].id);
            assert(succ@.len() == self.successor_count_at(i as int));
            let c = succ.len();
            if c > INDEX_LIMIT - extra - total {
                proof {
                    self.lemma_successor_total_monotone(i + 1, n as int);
                }
                return false;
            }
            total = total + c;
            i = i + 1;
        }
        true
    }

    /// The downstream neighbours of a node, with the connecting edges, in no
    /// promised order: one entry per outgoing edge.
    pub fn successors(&self, node_id: NodeId) -> (r: Vec<(&Node, &Edge)>)
        ensures
            self.lookup_index(node_id) is None ==> r@.len() == 0,
            self.lookup_index(node_id) matches Some(i) ==> self.is_successor_list(i, r@),
            self.lookup_index(node_id) matches Some(i) ==> {
                &&& r@.len() == self.successor_order(i).len()
                &&& forall|k: int|
                    0 <= k < r@.len() ==> *r@[k].0 == self.node_seq()[self.successor_order(i)[k].0] && *r@[k].1
                        == self.successor_order(i)[k].1
            },
    {
        let index = match self.node_index_map.get(&node_id.0) {
            Some(i) => *i,
            None => return Vec::new(),
        };
        if index >= flow_node_count(&self.graph) {
            return Vec::new();
        }
        let raw = flow_outgoing(&self.graph, index);
        let mut out: Vec<(&Node, &Edge)> = Vec::new();
        let mut k: usize = 0;
        while k < raw.len()
            invariant
                k <= raw.len(),
                out@.len() == k,
                index < self.node_seq().len(),
                forall|j: int| 0 <= j < raw@.len() ==> raw@[j].0 < self.node_seq().len(),
                forall|j: int| 0 <= j < k ==> *out@[j].0 == self.node_seq()[raw@[j].0 as int] && out@[j].1 == raw@[j].1,
            decreases raw.len() - k,
        {
            let (t, e) = raw[k];
            out.push((flow_node(&self.graph, t), e));
            k = k + 1;
        }
        proof {
            let i = index as int;
            assert(self.lookup_index(node_id) == Some(i));
            assert(out@.len() == raw@.len());
            assert forall|j: int| 0 <= j < out@.len() implies #[trigger] self.is_out_entry(i, *out@[j].0, *out@[j].1) by {
                let t = raw@[j].0 as int;
                assert(self.edge_set().count((i, t, *raw@[j].1)) > 0);
            }
            assert forall|t: int, w: Edge| self.edge_set().count((i, t, w)) > 0 implies exists|j: int|
                0 <= j < out@.len() && *out@[j].0 == self.node_seq()[t] && *out@[j].1 == w by {
                let j = choose|j: int| 0 <= j < raw@.len() && raw@[j].0 == t && *raw@[j].1 == w;
                assert(*out@[j].0 == self.node_seq()[t]);
            }
            assert(out@.len() == flow_out_degree(self.edge_set(), i));
            assert(self.is_successor_list(i, out@));
            assert(crate::workflow::graph_store::end_listing(raw@).len() == raw@.len());
            assert forall|k: int| 0 <= k < out@.len() implies *out@[k].0 == self.node_seq()[self.successor_order(i)[k].0]
                && *out@[k].1 == self.successor_order(i)[k].1 by {
                assert(crate::workflow::graph_store::end_listing(raw@)[k] == (raw@[k].0 as int, *raw@[k].1));
            }
        }
        out
    }

    /// The upstream neighbours of a node, with the connecting edges, in no
    /// promised order: one entry per incoming edge.
    pub fn predecessors(&self, node_id: NodeId) -> (r: Vec<(&Node, &Edge)>)
        ensures
            self.lookup_index(node_id) is None ==> r@.len() == 0,
            self.lookup_index(node_id) matches Some(i) ==> self.is_predecessor_list(i, r@),
            self.lookup_index(node_id) matches Some(i) ==> {
                &&& r@.len() == self.predecessor_order(i).len()
                &&& forall|k: int|
                    0 <= k < r@.len() ==> *r@[k].0 == self.node_seq()[self.predecessor_order(i)[k].0] && *r@[k].1
                        == self.predecessor_order(i)[k].1
            },
    {
        let index = match self.node_index_map.get(&node_id.0) {
            Some(i) => *i,
            None => return Vec::new(),
        };
        if index >= flow_node_count(&self.graph) {
            return Vec::new();
        }
        let raw = flow_incoming(&self.graph, index);
        let mut out: Vec<(&Node, &Edge)> = Vec::new();
        let mut k: usize = 0;
        while k < raw.len()
            invariant
                k <= raw.len(),
                out@.len() == k,
                index < self.node_seq().len(),
                forall|j: int| 0 <= j < raw@.len() ==> raw@[j].0 < self.node_seq().len(),
                forall|j: int| 0 <= j < k ==> *out@[j].0 == self.node_seq()[raw@[j].0 as int] && out@[j].1 == raw@[j].1,
            decreases raw.len() - k,
        {
            let (s, e) = raw[k];
            out.push((flow_node(&self.graph, s), e));
            k = k + 1;
        }
        proof {
            let i = index as int;
            assert(self.lookup_index(node_id) == Some(i));
            assert(out@.len() == raw@.len());
            assert forall|j: int| 0 <= j < out@.len() implies #[trigger] self.is_in_entry(i, *out@[j].0, *out@[j].1) by {
                let s = raw@[j].0 as int;
                assert(self.edge_set().count((s, i, *raw@[j].1)) > 0);
            }
            assert forall|s: int, w: Edge| self.edge_set().count((s, i, w)) > 0 implies exists|j: int|
                0 <= j < out@.len() && *out@[j].0 == self.node_seq()[s] && *out@[j].1 == w by {
                let j = choose|j: int| 0 <= j < raw@.len() && raw@[j].0 == s && *raw@[j].1 == w;
                assert(*out@[j].0 == self.node_seq()[s]);
            }
            assert(self.is_predecessor_list(i, out@));
            assert(crate::workflow::graph_store::end_listing(raw@).len() == raw@.len());
            assert forall|k: int| 0 <= k < out@.len() implies *out@[k].0 == self.node_seq()[self.predecessor_order(i)[k].0]
                && *out@[k].1 == self.predecessor_order(i)[k].1 by {
                assert(crate::workflow::graph_store::end_listing(raw@)[k] == (raw@[k].0 as int, *raw@[k].1));
            }
        }
        out
    }

    /// Validates the graph: every required input port has an incoming edge,
    /// and the graph has no cycle. Nodes are checked in index order and ports
    /// in declaration order; the first failure is reported.
    pub fn validate(&self) -> (r: Result<(), GraphError>)
        ensures
            self.first_missing_from(0) matches Some(m) ==> r is Err && r->Err_0 == (GraphError::RequiredInputMissing {
                node_id: m.0,
                port_name: m.1.name,
            }),
            self.first_missing_from(0) is None && flow_has_cycle(self.edge_set()) ==> r is Err && r->Err_0
                == GraphError::CycleDetected,
            self.first_missing_from(0) is None && !flow_has_cycle(self.edge_set()) ==> r is Ok,
            r is Ok ==> !flow_has_cycle(self.edge_set()) && forall|i: int, j: int|
                0 <= i < self.node_seq().len() && 0 <= j < self.node_seq()[i].inputs@.len()
                    && (#[trigger] self.node_seq()[i].inputs@[j]).required ==> self.incoming_port_names(
                    self.node_seq()[i].id,
                ).contains(self.node_seq()[i].inputs@[j].name@),
            r matches Err(GraphError::RequiredInputMissing { node_id, port_name }) ==> exists|i: int, j: int|
                0 <= i < self.node_seq().len() && self.node_seq()[i].id == node_id && 0 <= j
                    < self.node_seq()[i].inputs@.len() && (#[trigger] self.node_seq()[i].inputs@[j]).required
                    && self.node_seq()[i].inputs@[j].name@ == port_name@ && !self.incoming_port_names(node_id).contains(
                    port_name@,
                ),
    {
        proof {
            self.law_missing_inputs(0);
        }
        let n = flow_node_count(&self.graph);
        let mut k: usize = 0;
        while k < n
            invariant
                n == self.node_seq().len(),
                k <= n,
                self.first_missing_from(0) == self.first_missing_from(k as int),
            decreases n - k,
        {
            let node = flow_node(&self.graph, k);
            let preds = self.predecessors(node.id);
            let ghost connected = self.incoming_port_names(node.id);
            let ghost ports = node.inputs@;
            assert(ports.skip(0) =~= ports);
            let mut j: usize = 0;
            while j < node.inputs.len()
                invariant
                    j <= node.inputs.len(),
                    ports == node.inputs@,
                    *node == self.node_seq()[k as int],
                    k < n,
                    n == self.node_seq().len(),
                    self.first_missing_from(0) == self.first_missing_from(k as int),
                    self.lookup_index(node.id) is None ==> preds@.len() == 0,
                    self.lookup_index(node.id) matches Some(i) ==> self.is_predecessor_list(i, preds@),
                    connected == self.incoming_port_names(node.id),
                    first_unconnected(ports, connected) == first_unconnected(ports.skip(j as int), connected),
                decreases node.inputs.len() - j,
            {
                let input = &node.inputs[j];
                let ghost rest = ports.skip(j as int);
                assert(rest[0] == ports[j as int]);
                let found = Self::has_target_port(&preds, input.name.as_str());
                proof {
                    match self.lookup_index(node.id) {
                        None => {
                            assert(!found);
                            assert(!connected.contains(input.name@));
                        },
                        Some(i) => {
                            if found {
                                let kk = choose|kk: int| 0 <= kk < preds@.len() && preds@[kk].1.target_port@ == input.name@;
                                assert(self.is_in_entry(i, *preds@[kk].0, *preds@[kk].1));
                                assert(connected.contains(input.name@));
                            } else {
                                assert forall|s: int, w: Edge| self.edge_set().count((s, i, w)) > 0 implies w.target_port@ != input.name@ by {
                                    let kk = choose|kk: int| 0 <= kk < preds@.len() && *preds@[kk].0 == self.node_seq()[s] && *preds@[kk].1 == w;
                                }
                                assert(!connected.contains(input.name@));
                            }
                        },
                    }
                }
                if input.required && !found {
                    proof {
                        self.law_missing_inputs(0);
                        let m = self.first_missing_from(0)->Some_0;
                        let i = choose|i: int|
                            0 <= i < self.node_seq().len() && (#[trigger] self.node_seq()[i]).id == m.0
                                && self.node_seq()[i].inputs@.contains(m.1) && m.1.required
                                && !self.incoming_port_names(m.0).contains(m.1.name@);
                        let jj = choose|jj: int|
                            0 <= jj < self.node_seq()[i].inputs@.len() && self.node_seq()[i].inputs@[jj] == m.1;
                        assert(self.node_seq()[i].inputs@[jj].required);
                    }
                    return Err(GraphError::RequiredInputMissing { node_id: node.id, port_name: input.name.clone() });
                }
                assert(rest.drop_first() =~= ports.skip(j + 1));
                j = j + 1;
            }
            assert(ports.skip(j as int).len() == 0);
            k = k + 1;
        }
        if flow_is_cyclic(&self.graph) {
            return Err(GraphError::CycleDetected);
        }
        Ok(())
    }

    /// Whether one of the listed edges leads to the named port.
    fn has_target_port(preds: &Vec<(&Node, &Edge)>, name: &str) -> (r: bool)
        ensures
            r == exists|k: int| 0 <= k < preds@.len() && preds@[k].1.target_port@ == name@,
    {
        let mut k: usize = 0;
        while k < preds.len()
            invariant
                k <= preds.len(),
                forall|j: int| 0 <= j < k ==> preds@[j].1.target_port@ != name@,
            decreases preds.len() - k,
        {
            if crate::support::text::str_eq(preds[k].1.target_port.as_str(), name) {
                return true;
            }
            k = k + 1;
        }
        false
    }

    /// `e` names the two nodes of an edge of the graph and carries its weight.
    pub open spec fn is_stored_entry(&self, e: (Option<NodeId>, Option<NodeId>, Edge)) -> bool {
        exists|s: int, t: int|
            0 <= s < self.node_seq().len() && 0 <= t < self.node_seq().len() && e.0 == Some(self.node_seq()[s].id)
                && e.1 == Some(self.node_seq()[t].id) && self.edge_set().count((s, t, e.2)) > 0
    }

    /// Every edge as stored: the identifiers of its two nodes and its weight,
    /// in no promised order, one entry per edge.
    pub fn stored_edges(&self) -> (r: Vec<(Option<NodeId>, Option<NodeId>, Edge)>)
        ensures
            r@.len() == self.edge_set().len(),
            forall|k: int| 0 <= k < r@.len() ==> #[trigger] self.is_stored_entry(r@[k]),
            forall|s: int, t: int, w: Edge|
                self.edge_set().count((s, t, w)) > 0 ==> exists|k: int|
                    0 <= k < r@.len() && r@[k].0 == Some(self.node_seq()[s].id) && r@[k].1 == Some(
                        self.node_seq()[t].id,
                    ) && r@[k].2 == w,
            stored_form(self.node_seq(), self.edge_set(), r@),
    {
        let raw = flow_all_edges(&self.graph);
        let mut out: Vec<(Option<NodeId>, Option<NodeId>, Edge)> = Vec::new();
        let mut k: usize = 0;
        while k < raw.len()
            invariant
                k <= raw.len(),
                out@.len() == k,
                forall|j: int|
                    0 <= j < raw@.len() ==> raw@[j].0 < self.node_seq().len() && raw@[j].1 < self.node_seq().len(),
                forall|j: int|
                    0 <= j < k ==> out@[j].0 == Some(self.node_seq()[raw@[j].0 as int].id) && out@[j].1 == Some(
                        self.node_seq()[raw@[j].1 as int].id,
                    ) && out@[j].2 == *raw@[j].2,
            decreases raw.len() - k,
        {
            let (s, t, e) = raw[k];
            let sid = flow_node(&self.graph, s).id;
            let tid = flow_node(&self.graph, t).id;
            out.push((Some(sid), Some(tid), e.duplicate()));
            k = k + 1;
        }
        proof {
            assert forall|k: int| 0 <= k < out@.len() implies #[trigger] self.is_stored_entry(out@[k]) by {
                let s = raw@[k].0 as int;
                let t = raw@[k].1 as int;
                assert(self.edge_set().count((s, t, *raw@[k].2)) > 0);
            }
            assert forall|s: int, t: int, w: Edge| self.edge_set().count((s, t, w)) > 0 implies exists|k: int|
                0 <= k < out@.len() && out@[k].0 == Some(self.node_seq()[s].id) && out@[k].1 == Some(
                    self.node_seq()[t].id,
                ) && out@[k].2 == w by {
                let k = choose|k: int| 0 <= k < raw@.len() && raw@[k].0 == s && raw@[k].1 == t && *raw@[k].2 == w;
                assert(out@[k].2 == w);
            }
            let ix = Seq::new(raw@.len(), |k: int| (raw@[k].0 as int, raw@[k].1 as int));
            assert(stored_triples(out@, ix) =~= edge_triples(raw@));
            assert(stored_by(self.node_seq(), self.edge_set(), out@, ix));
        }
        out
    }

    /// A graph rebuilt from stored parts: the nodes in order, then the edges
    /// whose two nodes are named and found (by the last node with that
    /// identifier). The identifier-to-index map starts empty; see
    /// `rebuild_index_map`.
    pub fn from_parts(nodes: Vec<Node>, edges: Vec<(Option<NodeId>, Option<NodeId>, Edge)>) -> (r: Self)
        requires
            nodes@.len() < INDEX_LIMIT,
            edges@.len() < INDEX_LIMIT,
        ensures
            r.node_seq() == nodes@,
            r.edge_set() == stored_edges(index_map_of(nodes@), edges@, edges@.len() as int),
            r.index_of() == Map::<u128, usize>::empty(),
    {
        let mut graph = flow_new();
        let mut ids: HashMap<u128, usize> = HashMap::new();
        let ghost all_nodes = nodes@;
        let mut nodes = nodes;
        let mut pending: Vec<Node> = Vec::new();
        // Nodes are added in their stored order.
        while nodes.len() > 0
            invariant
                nodes@.len() + pending@.len() == all_nodes.len(),
                all_nodes.len() < INDEX_LIMIT,
                pending@ == all_nodes.subrange(nodes@.len() as int, all_nodes.len() as int).reverse(),
                nodes@ == all_nodes.subrange(0, nodes@.len() as int),
                flow_nodes(graph).len() == 0,
                flow_edges(graph).len() == 0,
            decreases nodes.len(),
        {
            let n = nodes.pop().unwrap();
            pending.push(n);
            proof {
                assert(nodes@ =~= all_nodes.subrange(0, nodes@.len() as int));
                assert(pending@ =~= all_nodes.subrange(nodes@.len() as int, all_nodes.len() as int).reverse());
            }
        }
        assert(pending@ =~= all_nodes.reverse());
        let mut i: usize = 0;
        let total = pending.len();
        while pending.len() > 0
            invariant
                total == all_nodes.len(),
                total < INDEX_LIMIT,
                i + pending@.len() == total,
                pending@ == all_nodes.subrange(i as int, total as int).reverse(),
                flow_nodes(graph) == all_nodes.subrange(0, i as int),
                flow_edges(graph).len() == 0,
                ids@ == index_map_of(all_nodes.subrange(0, i as int)),
            decreases pending.len(),
        {
            let n = pending.pop().unwrap();
            proof {
                assert(n == all_nodes[i as int]);
            }
            let id = n.id;
            let idx = flow_add_node(&mut graph, n);
            ids.insert(id.0, idx);
            proof {
                assert(all_nodes.subrange(0, i + 1).drop_last() =~= all_nodes.subrange(0, i as int));
                assert(flow_nodes(graph) =~= all_nodes.subrange(0, i + 1));
                assert(pending@ =~= all_nodes.subrange(i + 1, total as int).reverse());
            }
            i = i + 1;
        }
        assert(all_nodes.subrange(0, total as int) =~= all_nodes);
        proof {
            lemma_index_map_in_range(all_nodes);
        }
        let ghost es = edges@;
        let mut k: usize = 0;
        while k < edges.len()
            invariant
                k <= edges@.len(),
                edges@ == es,
                es.len() < INDEX_LIMIT,
                flow_nodes(graph) == all_nodes,
                ids@ == index_map_of(all_nodes),
                forall|x: u128| #[trigger] ids@.contains_key(x) ==> ids@[x] < all_nodes.len(),
                flow_edges(graph) == stored_edges(ids@, es, k as int),
                flow_edges(graph).len() <= k,
            decreases edges.len() - k,
        {
            proof {
                lemma_index_map_in_range(all_nodes);
            }
            match (edges[k].0, edges[k].1) {
                (Some(s), Some(t)) => {
                    match (ids.get(&s.0), ids.get(&t.0)) {
                        (Some(si), Some(ti)) => {
                            flow_add_edge(&mut graph, *si, *ti, edges[k].2.duplicate());
                        },
                        _ => {},
                    }
                },
                _ => {},
            }
            k = k + 1;
        }
        WorkflowGraph { graph, node_index_map: HashMap::new() }
    }

    /// Rebuilds the identifier-to-index map from the nodes (after the graph
    /// was rebuilt from stored parts).
    pub fn rebuild_index_map(&mut self)
        ensures
            final(self).node_seq() == old(self).node_seq(),
            final(self).edge_set() == old(self).edge_set(),
            final(self).index_of() == index_map_of(old(self).node_seq()),
    {
        self.node_index_map.clear();
        let n = flow_node_count(&self.graph);
        let mut i: usize = 0;
        while i < n
            invariant
                n == self.node_seq().len(),
                i <= n,
                self.node_seq() == old(self).node_seq(),
                self.edge_set() == old(self).edge_set(),
                self.index_of() == index_map_of(self.node_seq().subrange(0, i as int)),
            decreases n - i,
        {
            let id = flow_node(&self.graph, i).id;
            self.node_index_map.insert(id.0, i);
            proof {
                let s = self.node_seq().subrange(0, i + 1);
                assert(s.drop_last() =~= self.node_seq().subrange(0, i as int));
            }
            i = i + 1;
        }
        assert(self.node_seq().subrange(0, n as int) =~= self.node_seq());
    }
}

} // verus!
