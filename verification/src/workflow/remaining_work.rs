//! The remaining work of a run: a dependency graph of the nodes that still
//! have to run.
//!
//! - It starts as the full workflow graph.
//! - A completed or skipped node leaves the graph, which unblocks its successors.
//! - A failed node gets an edge to itself: it never becomes ready, and it holds
//!   back everything downstream.
//! - A node is ready when no edge leads into it and it is not executing.
//! - The run is complete when no node is ready and none is executing.

use vstd::prelude::*;
use std::collections::HashMap;
use petgraph::graph::DiGraph;
use crate::workflow::node::{Node, NodeId};
use crate::workflow::graph::WorkflowGraph;
use crate::workflow::execution::NodeExecutionState;
use crate::workflow::graph_store::{
    INDEX_LIMIT, dep_nodes, dep_edges, dep_edge_count, dep_edges_after_removal, dep_new, dep_add_node,
    dep_add_edge, dep_remove_node, dep_node_count, dep_node, dep_has_incoming, dep_targets, dep_link_total, flow_linked,
};

verus! {

broadcast use vstd::std_specs::hash::group_hash_axioms;

/// Index map of a sequence of identifiers: each identifier maps to the last
/// index that holds it.
pub open spec fn id_index_map(ids: Seq<NodeId>) -> Map<u128, usize>
    decreases ids.len(),
{
    if ids.len() == 0 {
        Map::empty()
    } else {
        id_index_map(ids.drop_last()).insert(ids.last().0, (ids.len() - 1) as usize)
    }
}

/// What an index map of identifiers holds: every identifier of the sequence,
/// each at an index that holds it, and with distinct identifiers exactly its
/// own index.
pub proof fn lemma_id_index_map(ids: Seq<NodeId>)
    requires
        ids.len() <= INDEX_LIMIT,
    ensures
        forall|x: u128| #[trigger] id_index_map(ids).contains_key(x) ==> id_index_map(ids)[x] < ids.len()
            && ids[id_index_map(ids)[x] as int].0 == x,
        forall|i: int| 0 <= i < ids.len() ==> #[trigger] id_index_map(ids).contains_key(ids[i].0),
        ids.no_duplicates() ==> forall|i: int| 0 <= i < ids.len() ==> #[trigger] id_index_map(ids)[ids[i].0] == i,
    decreases ids.len(),
{
    if ids.len() > 0 {
        let prev = ids.drop_last();
        lemma_id_index_map(prev);
        let m = id_index_map(ids);
        assert forall|x: u128| #[trigger] m.contains_key(x) implies m[x] < ids.len() && ids[m[x] as int].0 == x by {
            if x != ids.last().0 {
                assert(id_index_map(prev).contains_key(x));
            }
        }
        assert forall|i: int| 0 <= i < ids.len() implies #[trigger] m.contains_key(ids[i].0) by {
            if i < ids.len() - 1 {
                assert(prev[i] == ids[i]);
                assert(id_index_map(prev).contains_key(prev[i].0));
            }
        }
        if ids.no_duplicates() {
            assert forall|i: int| 0 <= i < ids.len() implies #[trigger] m[ids[i].0] == i by {
                if i < ids.len() - 1 {
                    assert(prev[i] == ids[i]);
                    assert(ids[i] != ids[ids.len() - 1]);
                    assert(prev.no_duplicates());
                    assert(id_index_map(prev)[prev[i].0] == i);
                }
            }
        }
    }
}

/// A distinct sequence drawn from `ids` is no longer than `ids`.
pub proof fn lemma_distinct_within(b: Seq<NodeId>, ids: Seq<NodeId>)
    requires
        b.no_duplicates(),
        forall|x: NodeId| b.contains(x) ==> ids.contains(x),
    ensures
        b.len() <= ids.len(),
{
    b.unique_seq_to_set();
    ids.lemma_cardinality_of_set();
    assert(b.to_set().subset_of(ids.to_set()));
    vstd::seq_lib::seq_to_set_is_finite(ids);
    vstd::set_lib::lemma_len_subset(b.to_set(), ids.to_set());
}

/// An edge leads into index `i`.
pub open spec fn has_incoming_link(links: Set<(int, int)>, i: int) -> bool {
    exists|s: int| links.contains((s, i))
}

/// The ready identifiers among the first `k` indices, in index order: no edge
/// leads into them and they are not executing.
pub open spec fn ready_prefix(ids: Seq<NodeId>, links: Set<(int, int)>, executing: Set<NodeId>, k: int) -> Seq<NodeId>
    decreases k,
{
    if k <= 0 {
        Seq::empty()
    } else {
        let prev = ready_prefix(ids, links, executing, k - 1);
        if !has_incoming_link(links, k - 1) && !executing.contains(ids[k - 1]) {
            prev.push(ids[k - 1])
        } else {
            prev
        }
    }
}

/// Index `i` is ready: no edge leads into it and its node is not executing.
pub open spec fn ready_at(ids: Seq<NodeId>, links: Set<(int, int)>, executing: Set<NodeId>, i: int) -> bool {
    !has_incoming_link(links, i) && !executing.contains(ids[i])
}

/// An identifier is in the ready prefix exactly when one of the first `k`
/// indices holds it and is ready.
pub proof fn lemma_ready_prefix(ids: Seq<NodeId>, links: Set<(int, int)>, executing: Set<NodeId>, k: int)
    requires
        0 <= k <= ids.len(),
    ensures
        forall|x: NodeId| #[trigger] ready_prefix(ids, links, executing, k).contains(x) <==> exists|i: int|
            0 <= i < k && ids[i] == x && #[trigger] ready_at(ids, links, executing, i),
    decreases k,
{
    if k > 0 {
        lemma_ready_prefix(ids, links, executing, k - 1);
        let prev = ready_prefix(ids, links, executing, k - 1);
        let cur = ready_prefix(ids, links, executing, k);
        assert forall|x: NodeId| #[trigger] cur.contains(x) <==> exists|i: int|
            0 <= i < k && ids[i] == x && #[trigger] ready_at(ids, links, executing, i) by {
            if cur.contains(x) {
                if prev.contains(x) {
                    let i = choose|i: int| 0 <= i < k - 1 && ids[i] == x && #[trigger] ready_at(ids, links, executing, i);
                    assert(0 <= i < k);
                } else {
                    let j = choose|j: int| 0 <= j < cur.len() && cur[j] == x;
                    if j < prev.len() {
                        assert(prev.contains(x));
                    }
                    assert(ready_at(ids, links, executing, k - 1));
                }
            }
            if exists|i: int| 0 <= i < k && ids[i] == x && #[trigger] ready_at(ids, links, executing, i) {
                let i = choose|i: int| 0 <= i < k && ids[i] == x && #[trigger] ready_at(ids, links, executing, i);
                if i < k - 1 {
                    assert(prev.contains(x));
                    let j = choose|j: int| 0 <= j < prev.len() && prev[j] == x;
                    assert(cur[j] == x);
                } else {
                    assert(cur.last() == x);
                }
            }
        }
    }
}

/// One step of blocking: an edge from `u` to another index `t` whose node has
/// not failed.
pub open spec fn block_step(ids: Seq<NodeId>, links: Set<(int, int)>, failed: Set<NodeId>, u: int, t: int) -> bool {
    &&& links.contains((u, t))
    &&& u != t
    &&& 0 <= t < ids.len()
    &&& !failed.contains(ids[t])
}

/// `p` leads from a failed node, along edges, through nodes that have not failed.
pub open spec fn is_block_path(ids: Seq<NodeId>, links: Set<(int, int)>, failed: Set<NodeId>, p: Seq<int>) -> bool {
    &&& p.len() >= 2
    &&& 0 <= p[0] < ids.len()
    &&& failed.contains(ids[p[0]])
    &&& forall|k: int| 0 <= k < p.len() - 1 ==> #[trigger] block_step(ids, links, failed, p[k], p[k + 1])
}

/// Index `t` is held back by a failure: a block path ends there.
pub open spec fn is_blocked(ids: Seq<NodeId>, links: Set<(int, int)>, failed: Set<NodeId>, t: int) -> bool {
    exists|p: Seq<int>| #[trigger] is_block_path(ids, links, failed, p) && p.last() == t
}

/// A failed node, or one held back by a failure, passes the block on to the
/// targets of its edges that have not failed.
pub proof fn lemma_extend_block(ids: Seq<NodeId>, links: Set<(int, int)>, failed: Set<NodeId>, u: int, t: int)
    requires
        (0 <= u < ids.len() && failed.contains(ids[u])) || is_blocked(ids, links, failed, u),
        block_step(ids, links, failed, u, t),
    ensures
        is_blocked(ids, links, failed, t),
{
    if 0 <= u < ids.len() && failed.contains(ids[u]) {
        let p = seq![u, t];
        assert(block_step(ids, links, failed, p[0], p[1]));
        assert(is_block_path(ids, links, failed, p));
    } else {
        let p = choose|p: Seq<int>| #[trigger] is_block_path(ids, links, failed, p) && p.last() == u;
        let q = p.push(t);
        assert forall|k: int| 0 <= k < q.len() - 1 implies #[trigger] block_step(ids, links, failed, q[k], q[k + 1]) by {
            if k < p.len() - 1 {
                assert(block_step(ids, links, failed, p[k], p[k + 1]));
            }
        }
        assert(is_block_path(ids, links, failed, q));
    }
}

/// Some index that `pushed` holds carries identifier `x`.
pub open spec fn id_among(pushed: Set<int>, ids: Seq<NodeId>, x: NodeId) -> bool {
    exists|t: int| pushed.contains(t) && ids[t] == x
}

/// Some blocked index carries identifier `x`.
pub open spec fn id_blocked(ids: Seq<NodeId>, links: Set<(int, int)>, failed: Set<NodeId>, x: NodeId) -> bool {
    exists|t: int| 0 <= t < ids.len() && ids[t] == x && #[trigger] is_blocked(ids, links, failed, t)
}

/// A search that expanded every index it reached, starting from every failed
/// index, has collected the identifier of every blocked index (identifiers
/// distinct): proved along a block path, one step at a time.
proof fn lemma_search_closed(
    ids: Seq<NodeId>,
    links: Set<(int, int)>,
    failed: Set<NodeId>,
    pushed: Set<int>,
    blocked: Seq<NodeId>,
    p: Seq<int>,
    k: int,
)
    requires
        ids.no_duplicates(),
        forall|u: int| #[trigger] pushed.contains(u) ==> 0 <= u < ids.len(),
        forall|u: int, t: int|
            pushed.contains(u) && #[trigger] block_step(ids, links, failed, u, t) ==> blocked.contains(ids[t]),
        forall|x: NodeId| blocked.contains(x) ==> #[trigger] id_among(pushed, ids, x),
        forall|i: int| 0 <= i < ids.len() && #[trigger] failed.contains(ids[i]) ==> pushed.contains(i),
        is_block_path(ids, links, failed, p),
        0 <= k < p.len(),
    ensures
        pushed.contains(p[k]),
        k > 0 ==> blocked.contains(ids[p[k]]),
    decreases k,
{
    if k == 0 {
        assert(failed.contains(ids[p[0]]));
    } else {
        lemma_search_closed(ids, links, failed, pushed, blocked, p, k - 1);
        let k0 = k - 1;
        assert(block_step(ids, links, failed, p[k0], p[k0 + 1]));
        assert(k0 + 1 == k);
        assert(blocked.contains(ids[p[k]]));
        assert(id_among(pushed, ids, ids[p[k]]));
        let t = choose|t: int| pushed.contains(t) && ids[t] == ids[p[k]];
        assert(t == p[k]);
    }
}

/// The remaining work of a run.
#[derive(Debug)]
pub struct RemainingWorkGraph {
    graph: DiGraph<NodeId, ()>,
    node_to_index: HashMap<u128, usize>,
    executing: Vec<NodeId>,
    failed: Vec<NodeId>,
}

/// Whether `v` holds `id`.
fn holds_id(v: &Vec<NodeId>, id: NodeId) -> (r: bool)
    ensures
        r == v@.contains(id),
{
    let mut k: usize = 0;
    while k < v.len()
        invariant
            k <= v.len(),
            forall|j: int| 0 <= j < k ==> v@[j] != id,
        decreases v.len() - k,
    {
        if v[k] == id {
            return true;
        }
        k = k + 1;
    }
    false
}

/// Adds `id` to a distinct list unless it is already there.
fn insert_id(v: &mut Vec<NodeId>, id: NodeId)
    requires
        old(v)@.no_duplicates(),
    ensures
        final(v)@.no_duplicates(),
        final(v)@.to_set() == old(v)@.to_set().insert(id),
        old(v)@.contains(id) ==> final(v)@ == old(v)@,
        !old(v)@.contains(id) ==> final(v)@ == old(v)@.push(id),
{
    if !holds_id(v, id) {
        v.push(id);
        proof {
            assert forall|x: NodeId| v@.contains(x) <==> (old(v)@.contains(x) || x == id) by {
                if v@.contains(x) {
                    let i = choose|i: int| 0 <= i < v@.len() && v@[i] == x;
                    if i < old(v)@.len() {
                        assert(old(v)@[i] == x);
                    }
                }
                if old(v)@.contains(x) {
                    let i = choose|i: int| 0 <= i < old(v)@.len() && old(v)@[i] == x;
                    assert(v@[i] == x);
                }
                if x == id {
                    assert(v@[v@.len() - 1] == x);
                }
            }
            assert(v@.to_set() =~= old(v)@.to_set().insert(id));
        }
    } else {
        assert(old(v)@.to_set() =~= old(v)@.to_set().insert(id));
    }
}

/// Removes `id` from a distinct list.
fn remove_id(v: &mut Vec<NodeId>, id: NodeId)
    requires
        old(v)@.no_duplicates(),
    ensures
        final(v)@.no_duplicates(),
        final(v)@.to_set() == old(v)@.to_set().remove(id),
        forall|x: NodeId| final(v)@.contains(x) ==> old(v)@.contains(x),
{
    let mut k: usize = 0;
    while k < v.len()
        invariant
            k <= v.len(),
            v@ == old(v)@,
            old(v)@.no_duplicates(),
            forall|j: int| 0 <= j < k ==> v@[j] != id,
        decreases v.len() - k,
    {
        if v[k] == id {
            let ghost before = v@;
            v.remove(k);
            proof {
                assert(v@ == before.remove(k as int));
                before.remove_ensures(k as int);
                assert(before.no_duplicates());
                assert forall|i: int, j: int| 0 <= i < j < v@.len() implies v@[i] != v@[j] by {
                    let bi = if i < k { i } else { i + 1 };
                    let bj = if j < k { j } else { j + 1 };
                    assert(v@[i] == before[bi] && v@[j] == before[bj]);
                    assert(bi != bj && 0 <= bi < before.len() && 0 <= bj < before.len());
                }
                assert forall|x: NodeId| #[trigger] v@.contains(x) implies before.contains(x) by {
                    let i = choose|i: int| 0 <= i < v@.len() && v@[i] == x;
                    let bi = if i < k { i } else { i + 1 };
                    assert(before[bi] == x);
                }
                assert forall|x: NodeId| v@.contains(x) <==> (before.contains(x) && x != id) by {
                    if before.contains(x) && x != id {
                        let i = choose|i: int| 0 <= i < before.len() && before[i] == x;
                        assert(i != k);
                        let vi = if i < k { i } else { i - 1 };
                        assert(v@[vi] == x);
                    }
                    if v@.contains(x) {
                        let i = choose|i: int| 0 <= i < v@.len() && v@[i] == x;
                        let bi = if i < k { i } else { i + 1 };
                        assert(before[bi] == x);
                        assert(bi != k);
                        assert(before[k as int] == id);
                        assert(bi != k ==> before[bi] != before[k as int]);
                    }
                }
                assert(v@.to_set() =~= before.to_set().remove(id));
            }
            return;
        }
        k = k + 1;
    }
    assert(old(v)@.to_set() =~= old(v)@.to_set().remove(id));
}

/// The edges that building from a workflow graph gives: for the identifier of
/// each node, the edges out of the index its lookup finds, each mapped to the
/// indices that the identifiers of its two nodes hold in `m`.
pub open spec fn derived_link(wg: &WorkflowGraph, m: Map<u128, usize>, a: int, b: int) -> bool {
    exists|i: int, t: int|
        #![trigger wg.node_seq()[i], wg.node_seq()[t]]
        0 <= i < wg.node_seq().len() && 0 <= t < wg.node_seq().len() && (wg.lookup_index(
            wg.node_seq()[i].id,
        ) matches Some(j) && flow_linked(wg.edge_set(), j, t)) && a == m[wg.node_seq()[i].id.0] && b
            == m[wg.node_seq()[t].id.0]
}

/// The identifiers of a sequence of nodes.
pub open spec fn node_ids(nodes: Seq<Node>) -> Seq<NodeId> {
    nodes.map_values(|n: Node| n.id)
}

/// `r` is the remaining work of a new run of `wg`: its nodes are the nodes of
/// `wg` in index order, its edges those that `derived_link` gives, one per
/// successor entry, and nothing executes or has failed.
pub open spec fn built_from_workflow(wg: &WorkflowGraph, r: RemainingWorkGraph) -> bool {
    &&& r.wf()
    &&& r.ids() == node_ids(wg.node_seq())
    &&& forall|a: int, b: int| #[trigger] r.links().contains((a, b)) <==> derived_link(wg, r.index_map(), a, b)
    &&& r.link_count() == wg.successor_entry_total(wg.node_seq().len() as int)
    &&& r.executing_seq().len() == 0
    &&& r.failed_seq().len() == 0
    &&& r.failed_self_linked()
}

impl RemainingWorkGraph {
    /// The identifiers of the nodes still in the graph, in index order.
    pub closed spec fn ids(&self) -> Seq<NodeId> {
        dep_nodes(self.graph)
    }

    /// The pairs of indices joined by an edge.
    pub closed spec fn links(&self) -> Set<(int, int)> {
        dep_edges(self.graph)
    }

    /// The number of edges, parallel ones counted.
    pub closed spec fn link_count(&self) -> nat {
        dep_edge_count(self.graph)
    }

    /// The map from identifiers to indices.
    pub closed spec fn index_map(&self) -> Map<u128, usize> {
        self.node_to_index@
    }

    /// The executing nodes.
    pub closed spec fn executing_seq(&self) -> Seq<NodeId> {
        self.executing@
    }

    /// The failed nodes.
    pub closed spec fn failed_seq(&self) -> Seq<NodeId> {
        self.failed@
    }

    /// The executing nodes, as a set.
    pub open spec fn executing_set(&self) -> Set<NodeId> {
        self.executing_seq().to_set()
    }

    /// The failed nodes, as a set.
    pub open spec fn failed_set(&self) -> Set<NodeId> {
        self.failed_seq().to_set()
    }

    /// Well-formedness: the index map is rebuilt from the nodes, the two
    /// lists are distinct, executing nodes are in the graph, and every edge
    /// joins two nodes of the graph.
    pub open spec fn wf(&self) -> bool {
        &&& self.ids().len() <= INDEX_LIMIT
        &&& self.index_map() == id_index_map(self.ids())
        &&& self.executing_seq().no_duplicates()
        &&& self.failed_seq().no_duplicates()
        &&& forall|x: NodeId| self.executing_seq().contains(x) ==> self.ids().contains(x)
        &&& forall|s: int, t: int| #[trigger] self.links().contains((s, t)) ==> 0 <= s < self.ids().len() && 0 <= t
            < self.ids().len()
    }

    /// The node is still in the graph.
    pub open spec fn in_graph(&self, id: NodeId) -> bool {
        self.index_map().contains_key(id.0)
    }

    /// The index of a node in the graph.
    pub open spec fn index_of_id(&self, id: NodeId) -> int {
        self.index_map()[id.0] as int
    }

    /// The ready nodes, in index order.
    pub open spec fn ready_spec(&self) -> Seq<NodeId> {
        ready_prefix(self.ids(), self.links(), self.executing_set(), self.ids().len() as int)
    }

    /// Index `t` is held back by a failure.
    pub open spec fn blocked_at(&self, t: int) -> bool {
        is_blocked(self.ids(), self.links(), self.failed_set(), t)
    }

    /// Every node of the graph that has failed has an edge to itself.
    pub open spec fn failed_self_linked(&self) -> bool {
        forall|i: int|
            0 <= i < self.ids().len() && #[trigger] self.failed_set().contains(self.ids()[i]) ==> self.links().contains(
                (i, i),
            )
    }

    /// The state a node is in, as the remaining work sees it.
    pub open spec fn state_spec(&self, id: NodeId) -> NodeExecutionState {
        if !self.in_graph(id) {
            NodeExecutionState::Completed
        } else if self.executing_set().contains(id) {
            NodeExecutionState::Running
        } else if self.failed_set().contains(id) {
            NodeExecutionState::Failed
        } else if self.ready_spec().contains(id) {
            NodeExecutionState::Ready
        } else {
            NodeExecutionState::Pending
        }
    }

    /// The remaining work of a new run of a workflow graph: all its nodes,
    /// pending, with its edges.
    pub fn from_workflow(workflow_graph: &WorkflowGraph) -> (r: Self)
        requires
            workflow_graph.successor_entry_total(workflow_graph.node_seq().len() as int) <= INDEX_LIMIT,
        ensures
            built_from_workflow(workflow_graph, r),
    {
        let mut graph = dep_new();
        let mut node_to_index: HashMap<u128, usize> = HashMap::new();
        let nodes = workflow_graph.nodes();
        let ghost all = node_ids(workflow_graph.node_seq());
        let n = workflow_graph.node_count();
        assert(crate::workflow::graph::deref_nodes(nodes@).len() == nodes@.len());
        let mut i: usize = 0;
        while i < n
            invariant
                n == nodes@.len(),
                n == all.len(),
                n <= INDEX_LIMIT,
                all == node_ids(workflow_graph.node_seq()),
                crate::workflow::graph::deref_nodes(nodes@) == workflow_graph.node_seq(),
                i <= n,
                dep_nodes(graph) == all.subrange(0, i as int),
                node_to_index@ == id_index_map(all.subrange(0, i as int)),
                dep_edges(graph) == Set::<(int, int)>::empty(),
                dep_edge_count(graph) == 0,
            decreases n - i,
        {
            let id = nodes[i].id;
            assert(id == all[i as int]) by {
                assert(crate::workflow::graph::deref_nodes(nodes@)[i as int] == *nodes@[i as int]);
            }
            let idx = dep_add_node(&mut graph, id);
            node_to_index.insert(id.0, idx);
            proof {
                assert(all.subrange(0, i + 1).drop_last() =~= all.subrange(0, i as int));
                assert(all.subrange(0, i as int).push(id) =~= all.subrange(0, i + 1));
            }
            i = i + 1;
        }
        assert(all.subrange(0, n as int) =~= all);
        proof {
            lemma_id_index_map(all);
        }
        let ghost m = node_to_index@;
        let ghost nseq = workflow_graph.node_seq();
        let mut i: usize = 0;
        while i < n
            invariant
                n == nodes@.len(),
                n == all.len(),
                n == nseq.len(),
                nseq == workflow_graph.node_seq(),
                all == node_ids(nseq),
                crate::workflow::graph::deref_nodes(nodes@) == nseq,
                i <= n,
                dep_nodes(graph) == all,
                node_to_index@ == m,
                m == id_index_map(all),
                all.len() <= INDEX_LIMIT,
                workflow_graph.successor_entry_total(n as int) <= INDEX_LIMIT,
                forall|x: u128| #[trigger] m.contains_key(x) ==> m[x] < all.len() && all[m[x] as int].0 == x,
                forall|k: int| 0 <= k < all.len() ==> #[trigger] m.contains_key(all[k].0),
                dep_edge_count(graph) == workflow_graph.successor_entry_total(i as int),
                forall|a: int, b: int| #[trigger]
                    dep_edges(graph).contains((a, b)) ==> derived_link(workflow_graph, m, a, b),
                forall|a: int, b: int| #[trigger] dep_edges(graph).contains((a, b)) ==> 0 <= a < n && 0 <= b < n,
                forall|i2: int, t: int|
                    #![trigger nseq[i2], nseq[t]]
                    0 <= i2 < i && 0 <= t < n && (workflow_graph.lookup_index(nseq[i2].id) matches Some(j)
                        && flow_linked(workflow_graph.edge_set(), j, t)) ==> dep_edges(graph).contains(
                        (m[nseq[i2].id.0] as int, m[nseq[t].id.0] as int),
                    ),
            decreases n - i,
        {
            let node = nodes[i];
            assert(*node == nseq[i as int]) by {
                assert(crate::workflow::graph::deref_nodes(nodes@)[i as int] == *nodes@[i as int]);
            }
            assert(all[i as int] == node.id);
            let source_idx = *node_to_index.get(&node.id.0).unwrap();
            let succ = workflow_graph.successors(node.id);
            proof {
                workflow_graph.lemma_successor_total_monotone(i as int + 1, n as int);
                assert(succ@.len() == workflow_graph.successor_count_at(i as int));
            }
            let mut k: usize = 0;
            while k < succ.len()
                invariant
                    n == nodes@.len(),
                    n == all.len(),
                    n == nseq.len(),
                    nseq == workflow_graph.node_seq(),
                    all == node_ids(nseq),
                    i < n,
                    *node == nseq[i as int],
                    source_idx == m[node.id.0],
                    source_idx < n,
                    k <= succ.len(),
                    succ@.len() == workflow_graph.successor_count_at(i as int),
                    workflow_graph.lookup_index(node.id) is None ==> succ@.len() == 0,
                    workflow_graph.lookup_index(node.id) matches Some(j) ==> workflow_graph.is_successor_list(j, succ@),
                    workflow_graph.successor_entry_total(i as int) + workflow_graph.successor_count_at(i as int)
                        <= INDEX_LIMIT,
                    dep_nodes(graph) == all,
                    node_to_index@ == m,
                    m == id_index_map(all),
                    forall|x: u128| #[trigger] m.contains_key(x) ==> m[x] < all.len() && all[m[x] as int].0 == x,
                    forall|kk: int| 0 <= kk < all.len() ==> #[trigger] m.contains_key(all[kk].0),
                    dep_edge_count(graph) == workflow_graph.successor_entry_total(i as int) + k,
                    forall|a: int, b: int| #[trigger]
                        dep_edges(graph).contains((a, b)) ==> derived_link(workflow_graph, m, a, b),
                    forall|a: int, b: int| #[trigger] dep_edges(graph).contains((a, b)) ==> 0 <= a < n && 0 <= b < n,
                    forall|i2: int, t: int|
                        #![trigger nseq[i2], nseq[t]]
                        0 <= i2 < i && 0 <= t < n && (workflow_graph.lookup_index(nseq[i2].id) matches Some(j)
                            && flow_linked(workflow_graph.edge_set(), j, t)) ==> dep_edges(graph).contains(
                            (m[nseq[i2].id.0] as int, m[nseq[t].id.0] as int),
                        ),
                    forall|kk: int| #![trigger succ@[kk]]
                        0 <= kk < k ==> dep_edges(graph).contains((source_idx as int, m[succ@[kk].0.id.0] as int)),
                decreases succ.len() - k,
            {
                let (successor, _edge) = succ[k];
                let ghost j = workflow_graph.lookup_index(node.id)->Some_0;
                assert(workflow_graph.is_out_entry(j, *succ@[k as int].0, *succ@[k as int].1));
                let ghost t = choose|t: int|
                    0 <= t < nseq.len() && *succ@[k as int].0 == nseq[t] && workflow_graph.edge_set().count(
                        (j, t, *succ@[k as int].1),
                    ) > 0;
                assert(all[t] == successor.id);
                let target_idx = *node_to_index.get(&successor.id.0).unwrap();
                dep_add_edge(&mut graph, source_idx, target_idx);
                proof {
                    assert(flow_linked(workflow_graph.edge_set(), j, t));
                    assert(derived_link(workflow_graph, m, source_idx as int, target_idx as int)) by {
                        assert(nseq[i as int] == *node);
                        assert(nseq[t] == *successor);
                    }
                }
                k = k + 1;
            }
            proof {
                assert forall|t: int|
                    0 <= t < n && (workflow_graph.lookup_index(nseq[i as int].id) matches Some(j) && flow_linked(
                        workflow_graph.edge_set(),
                        j,
                        t,
                    )) implies #[trigger] dep_edges(graph).contains(
                    (m[nseq[i as int].id.0] as int, m[nseq[t].id.0] as int),
                ) by {
                    let j = workflow_graph.lookup_index(nseq[i as int].id)->Some_0;
                    let w = choose|w: crate::workflow::edge::Edge| workflow_graph.edge_set().count((j, t, w)) > 0;
                    let kk = choose|kk: int|
                        0 <= kk < succ@.len() && *succ@[kk].0 == workflow_graph.node_seq()[t] && *succ@[kk].1 == w;
                    assert(dep_edges(graph).contains((source_idx as int, m[succ@[kk].0.id.0] as int)));
                }
                assert forall|i2: int, t: int|
                    #![trigger nseq[i2], nseq[t]]
                    0 <= i2 < i + 1 && 0 <= t < n && (workflow_graph.lookup_index(nseq[i2].id) matches Some(j)
                        && flow_linked(workflow_graph.edge_set(), j, t)) implies dep_edges(graph).contains(
                    (m[nseq[i2].id.0] as int, m[nseq[t].id.0] as int),
                ) by {
                    if i2 == i {
                        assert(dep_edges(graph).contains((m[nseq[i as int].id.0] as int, m[nseq[t].id.0] as int)));
                    }
                }
            }
            i = i + 1;
        }
        let r = RemainingWorkGraph { graph, node_to_index, executing: Vec::new(), failed: Vec::new() };
        proof {
            assert forall|a: int, b: int| #[trigger]
                r.links().contains((a, b)) <==> derived_link(workflow_graph, r.index_map(), a, b) by {
                if derived_link(workflow_graph, m, a, b) {
                    let (i2, t) = choose|i2: int, t: int|
                        #![trigger nseq[i2], nseq[t]]
                        0 <= i2 < nseq.len() && 0 <= t < nseq.len() && (workflow_graph.lookup_index(
                            nseq[i2].id,
                        ) matches Some(j) && flow_linked(workflow_graph.edge_set(), j, t)) && a == m[nseq[i2].id.0]
                            && b == m[nseq[t].id.0];
                    assert(dep_edges(r.graph).contains((m[nseq[i2].id.0] as int, m[nseq[t].id.0] as int)));
                }
            }
            assert(r.executing_seq().to_set() =~= Set::<NodeId>::empty());
        }
        r
    }

    /// The number of dependency edges (each failed node holds one to itself):
    /// marking a node of the graph failed needs it below the index limit.
    pub fn link_total(&self) -> (n: usize)
        ensures
            n == self.link_count(),
    {
        dep_link_total(&self.graph)
    }

    /// Marks a node as executing; a node no longer in the graph is ignored.
    pub fn mark_executing(&mut self, node_id: NodeId)
        requires
            old(self).wf(),
        ensures
            executing_marked(*old(self), *final(self), node_id),

    {
        if self.node_to_index.contains_key(&node_id.0) {
            insert_id(&mut self.executing, node_id);
            proof {
                lemma_id_index_map(self.ids());
                let i = self.index_map()[node_id.0] as int;
                assert(self.ids()[i] == node_id);
                assert forall|x: NodeId| self.executing@.contains(x) implies self.ids().contains(x) by {
                    if x != node_id {
                        assert(old(self).executing@.to_set().contains(x));
                    }
                }
                assert(self.links() == old(self).links());
            }
        }
    }

    /// Rebuilds the index map from the nodes.
    fn rebuild_index_map(&mut self)
        requires
            dep_nodes(old(self).graph).len() <= INDEX_LIMIT,
        ensures
            final(self).graph == old(self).graph,
            final(self).executing == old(self).executing,
            final(self).failed == old(self).failed,
            final(self).node_to_index@ == id_index_map(dep_nodes(final(self).graph)),
    {
        self.node_to_index.clear();
        let n = dep_node_count(&self.graph);
        let ghost ids = dep_nodes(self.graph);
        let mut i: usize = 0;
        while i < n
            invariant
                n == ids.len(),
                ids == dep_nodes(self.graph),
                self.graph == old(self).graph,
                self.executing == old(self).executing,
                self.failed == old(self).failed,
                i <= n,
                self.node_to_index@ == id_index_map(ids.subrange(0, i as int)),
            decreases n - i,
        {
            let id = dep_node(&self.graph, i);
            self.node_to_index.insert(id.0, i);
            proof {
                assert(ids.subrange(0, i + 1).drop_last() =~= ids.subrange(0, i as int));
            }
            i = i + 1;
        }
        assert(ids.subrange(0, n as int) =~= ids);
    }

    /// Marks a node as completed: it leaves the executing nodes and the
    /// graph, with its edges, which unblocks its successors.
    pub fn mark_completed(&mut self, node_id: NodeId)
        requires
            old(self).wf(),
        ensures
            completed_marked(*old(self), *final(self), node_id),

    {
        let ghost before = *self;
        proof {
            lemma_id_index_map(before.ids());
        }
        remove_id(&mut self.executing, node_id);
        match self.node_to_index.remove(&node_id.0) {
            Some(idx) => {
                dep_remove_node(&mut self.graph, idx);
                self.rebuild_index_map();
                proof {
                    let ids = before.ids();
                    let n = ids.len() as int;
                    let a = idx as int;
                    let nids = self.ids();
                    assert(ids[a] == node_id);
                    assert(nids.len() == n - 1);
                    assert forall|i: int| 0 <= i < n - 1 implies #[trigger] nids[i] == ids[
                        crate::workflow::graph_store::moved_from(i, a, n)
                    ] by {}
                    assert forall|x: NodeId| self.executing@.contains(x) implies self.ids().contains(x) by {
                        assert(before.executing@.contains(x));
                        assert(before.ids().contains(x));
                        let i = choose|i: int| 0 <= i < n && ids[i] == x;
                        assert(x != node_id) by {
                            assert(self.executing@.to_set().contains(x));
                        }
                        if i == n - 1 {
                            assert(nids[a] == x);
                        } else {
                            assert(i != a);
                            assert(nids[i] == x);
                        }
                    }
                    assert forall|s: int, t: int| #[trigger] self.links().contains((s, t)) implies 0 <= s < nids.len() && 0 <= t
                        < nids.len() by {}
                    assert(self.ids().len() <= INDEX_LIMIT);
                    assert(self.index_map() == id_index_map(self.ids()));
                    assert(self.executing_seq().no_duplicates());
                    assert(self.failed_seq().no_duplicates());
                    if ids.no_duplicates() {
                        assert forall|i: int, j: int| 0 <= i < nids.len() && 0 <= j < nids.len() && i != j implies nids[i]
                            != nids[j] by {
                            let mi = crate::workflow::graph_store::moved_from(i, a, n);
                            let mj = crate::workflow::graph_store::moved_from(j, a, n);
                            assert(nids[i] == ids[mi] && nids[j] == ids[mj]);
                        }
                        lemma_id_index_map(nids);
                        if self.index_map().contains_key(node_id.0) {
                            let i = self.index_map()[node_id.0] as int;
                            assert(nids[i].0 == node_id.0);
                            let mi = crate::workflow::graph_store::moved_from(i, a, n);
                            assert(nids[i] == ids[mi]);
                        }
                    }
                    if before.failed_self_linked() {
                        assert forall|i: int|
                            0 <= i < nids.len() && #[trigger] self.failed_set().contains(nids[i]) implies self.links().contains(
                            (i, i),
                        ) by {
                            let mi = crate::workflow::graph_store::moved_from(i, a, n);
                            assert(nids[i] == ids[mi]);
                            assert(before.failed_set().contains(ids[mi]));
                            assert(before.links().contains((mi, mi)));
                        }
                    }
                }
            },
            None => {
                proof {
                    assert(self.node_to_index@ =~= before.node_to_index@);
                    assert(self.links() == before.links());
                    assert(self.ids() == before.ids());
                    assert(self.failed_set() == before.failed_set());
                    assert forall|x: NodeId| self.executing@.contains(x) implies self.ids().contains(x) by {
                        assert(before.executing@.contains(x));
                    }
                }
            },
        }
    }

    /// Marks a node as failed: it leaves the executing nodes, and when it is
    /// still in the graph it gets an edge to itself, so that it never becomes
    /// ready and holds back its successors, and joins the failed nodes.
    pub fn mark_failed(&mut self, node_id: NodeId)
        requires
            old(self).wf(),
            old(self).in_graph(node_id) ==> old(self).link_count() < INDEX_LIMIT,
        ensures
            failed_marked(*old(self), *final(self), node_id),

    {
        let ghost before = *self;
        proof {
            lemma_id_index_map(before.ids());
        }
        remove_id(&mut self.executing, node_id);
        match self.node_to_index.get(&node_id.0) {
            Some(idx) => {
                let idx = *idx;
                dep_add_edge(&mut self.graph, idx, idx);
                insert_id(&mut self.failed, node_id);
                proof {
                    let ids = before.ids();
                    assert forall|x: NodeId| self.executing@.contains(x) implies self.ids().contains(x) by {
                        assert(before.executing@.contains(x));
                    }
                    assert(self.ids() == before.ids());
                    assert forall|s: int, t: int| #[trigger] self.links().contains((s, t)) implies 0 <= s < ids.len() && 0 <= t
                        < ids.len() by {
                        if (s, t) != (idx as int, idx as int) {
                            assert(before.links().contains((s, t)));
                        }
                    }
                    if ids.no_duplicates() && before.failed_self_linked() {
                        assert forall|i: int|
                            0 <= i < ids.len() && #[trigger] self.failed_set().contains(ids[i]) implies self.links().contains(
                            (i, i),
                        ) by {
                            if ids[i] == node_id {
                                assert(ids[idx as int].0 == node_id.0);
                                assert(i == idx as int);
                            } else {
                                assert(before.failed_set().contains(ids[i]));
                            }
                        }
                    }
                }
            },
            None => {
                proof {
                    assert forall|x: NodeId| self.executing@.contains(x) implies self.ids().contains(x) by {
                        assert(before.executing@.contains(x));
                    }
                    assert(self.links() == before.links());
                    assert(self.ids() == before.ids());
                    assert(self.failed_set() == before.failed_set());
                }
            },
        }
    }

    /// Marks a node as skipped: like a completed node, it leaves the graph
    /// and unblocks its successors.
    pub fn mark_skipped(&mut self, node_id: NodeId)
        requires
            old(self).wf(),
        ensures
            completed_marked(*old(self), *final(self), node_id),

    {
        self.mark_completed(node_id);
    }

    /// The nodes ready to execute, in index order: no edge leads into them
    /// and they are not executing.
    pub fn ready_nodes(&self) -> (r: Vec<NodeId>)
        requires
            self.wf(),
        ensures
            r@ == self.ready_spec(),
    {
        let n = dep_node_count(&self.graph);
        let mut out: Vec<NodeId> = Vec::new();
        let mut i: usize = 0;
        while i < n
            invariant
                self.wf(),
                n == self.ids().len(),
                i <= n,
                out@ == ready_prefix(self.ids(), self.links(), self.executing_set(), i as int),
            decreases n - i,
        {
            if !dep_has_incoming(&self.graph, i) {
                let id = dep_node(&self.graph, i);
                if !holds_id(&self.executing, id) {
                    out.push(id);
                }
            }
            i = i + 1;
        }
        out
    }

    /// Whether the run is complete: nothing executes and nothing is ready.
    /// That happens when every node completed or was skipped, or when the
    /// nodes left are all held back by failures.
    pub fn is_complete(&self) -> (r: bool)
        requires
            self.wf(),
        ensures
            r == (self.executing_seq().len() == 0 && self.ready_spec().len() == 0),
    {
        self.executing.len() == 0 && self.ready_nodes().len() == 0
    }

    /// Whether any node has failed.
    pub fn has_failures(&self) -> (r: bool)
        ensures
            r == (self.failed_seq().len() > 0),
    {
        self.failed.len() > 0
    }

    /// The failed nodes, in no promised order, each once.
    pub fn failed_nodes(&self) -> (r: &Vec<NodeId>)
        ensures
            r@ == self.failed_seq(),
    {
        &self.failed
    }

    /// The executing nodes, in no promised order, each once.
    pub fn executing_nodes(&self) -> (r: &Vec<NodeId>)
        ensures
            r@ == self.executing_seq(),
    {
        &self.executing
    }

    /// The number of nodes left in the graph, executing and blocked ones included.
    pub fn remaining_count(&self) -> (r: usize)
        ensures
            r == self.ids().len(),
    {
        dep_node_count(&self.graph)
    }

    /// Whether the node is still in the graph.
    pub fn contains(&self, node_id: NodeId) -> (r: bool)
        requires
            self.wf(),
        ensures
            r == self.in_graph(node_id),
            r == self.ids().contains(node_id),
    {
        proof {
            lemma_id_index_map(self.ids());
            if self.ids().contains(node_id) {
                let i = choose|i: int| 0 <= i < self.ids().len() && self.ids()[i] == node_id;
                assert(self.index_map().contains_key(self.ids()[i].0));
            }
            if self.in_graph(node_id) {
                assert(self.ids()[self.index_map()[node_id.0] as int] == node_id);
            }
        }
        self.node_to_index.contains_key(&node_id.0)
    }

    /// The state of a node as the remaining work sees it: completed once it
    /// left the graph, then running, failed, ready or pending.
    pub fn node_state(&self, node_id: NodeId) -> (r: NodeExecutionState)
        requires
            self.wf(),
        ensures
            r == self.state_spec(node_id),
    {
        if !self.contains(node_id) {
            return NodeExecutionState::Completed;
        }
        if holds_id(&self.executing, node_id) {
            return NodeExecutionState::Running;
        }
        if holds_id(&self.failed, node_id) {
            return NodeExecutionState::Failed;
        }
        let ready = self.ready_nodes();
        if holds_id(&ready, node_id) {
            return NodeExecutionState::Ready;
        }
        NodeExecutionState::Pending
    }

    /// The nodes held back by failures, in no promised order, each once: the
    /// nodes that have not failed and that an edge path from a failed node
    /// reaches through nodes that have not failed. Every node listed is held
    /// back; with distinct identifiers, every node held back is listed.
    pub fn blocked_nodes(&self) -> (r: Vec<NodeId>)
        requires
            self.wf(),
        ensures
            r@.no_duplicates(),
            forall|x: NodeId| r@.contains(x) ==> id_blocked(self.ids(), self.links(), self.failed_set(), x),
            self.ids().no_duplicates() ==> forall|t: int|
                0 <= t < self.ids().len() && #[trigger] self.blocked_at(t) ==> r@.contains(self.ids()[t]),
    {
        let ghost ids = self.ids();
        let ghost links = self.links();
        let ghost failed = self.failed_set();
        let ghost n = ids.len();
        let mut blocked: Vec<NodeId> = Vec::new();
        let ghost mut pushed: Set<int> = Set::empty();
        let ghost mut origin: Map<NodeId, int> = Map::empty();
        let mut j: usize = 0;
        while j < self.failed.len()
            invariant
                self.wf(),
                ids == self.ids(),
                links == self.links(),
                failed == self.failed_set(),
                n == ids.len(),
                j <= self.failed@.len(),
                blocked@.no_duplicates(),
                blocked@.len() <= n,
                forall|x: NodeId| #[trigger] blocked@.contains(x) ==> origin.contains_key(x) && pushed.contains(origin[x])
                    && ids[origin[x]] == x && is_blocked(ids, links, failed, origin[x]),
                forall|u: int| #[trigger] pushed.contains(u) ==> 0 <= u < n && (failed.contains(ids[u]) || is_blocked(ids, links, failed, u)),
                forall|u: int, t: int|
                    pushed.contains(u) && #[trigger] block_step(ids, links, failed, u, t) ==> blocked@.contains(ids[t]),
                forall|jj: int|
                    0 <= jj < j && #[trigger] self.index_map().contains_key(self.failed@[jj].0) ==> pushed.contains(
                        self.index_map()[self.failed@[jj].0] as int,
                    ),
            decreases self.failed.len() - j,
        {
            proof {
                lemma_id_index_map(ids);
            }
            let failed_id = self.failed[j];
            match self.node_to_index.get(&failed_id.0) {
                None => {},
                Some(start) => {
                    let start = *start;
                    let mut to_visit: Vec<usize> = Vec::new();
                    to_visit.push(start);
                    let ghost mut done: Set<int> = pushed;
                    proof {
                        assert(ids[start as int].0 == failed_id.0);
                        assert(ids[start as int] == failed_id);
                        assert(self.failed@[j as int] == failed_id);
                        assert(failed.contains(failed_id));
                        pushed = pushed.insert(start as int);
                        assert(to_visit@[0] == start);
                    }
                    while to_visit.len() > 0
                        invariant
                            self.wf(),
                            ids == self.ids(),
                            links == self.links(),
                            failed == self.failed_set(),
                            n == ids.len(),
                            blocked@.no_duplicates(),
                            blocked@.len() <= n,
                            pushed.contains(start as int),
                            forall|x: NodeId| #[trigger] blocked@.contains(x) ==> origin.contains_key(x) && pushed.contains(
                                origin[x],
                            ) && ids[origin[x]] == x && is_blocked(ids, links, failed, origin[x]),
                            forall|u: int|
                                #[trigger] pushed.contains(u) ==> 0 <= u < n && (failed.contains(ids[u]) || is_blocked(
                                    ids,
                                    links,
                                    failed,
                                    u,
                                )),
                            forall|u: int| #[trigger] pushed.contains(u) ==> done.contains(u) || to_visit@.contains(u as usize),
                            forall|k: int| 0 <= k < to_visit@.len() ==> pushed.contains(#[trigger] to_visit@[k] as int),
                            forall|u: int| #[trigger] done.contains(u) ==> pushed.contains(u),
                            forall|u: int, t: int|
                                done.contains(u) && #[trigger] block_step(ids, links, failed, u, t) ==> blocked@.contains(ids[t]),
                            forall|jj: int|
                                0 <= jj < j && #[trigger] self.index_map().contains_key(self.failed@[jj].0) ==> pushed.contains(
                                    self.index_map()[self.failed@[jj].0] as int,
                                ),
                        decreases n - blocked@.len(), to_visit@.len(),
                    {
                        let ghost visit_full = to_visit@;
                        let idx = to_visit.pop().unwrap();
                        let ghost visit_before = to_visit@;
                        let ghost len_before = blocked@.len();
                        proof {
                            assert(visit_full[visit_full.len() - 1] == idx);
                            assert(pushed.contains(idx as int));
                            assert forall|u: int| #[trigger] pushed.contains(u) implies done.contains(u) || u == idx
                                || to_visit@.contains(u as usize) by {
                                if !done.contains(u) {
                                    let k = choose|k: int| 0 <= k < visit_full.len() && visit_full[k] == u as usize;
                                    if k < visit_full.len() - 1 {
                                        assert(to_visit@[k] == u as usize);
                                    }
                                }
                            }
                            assert forall|k: int| 0 <= k < to_visit@.len() implies pushed.contains(#[trigger] to_visit@[k] as int) by {
                                assert(to_visit@[k] == visit_full[k]);
                            }
                        }
                        let targets = dep_targets(&self.graph, idx);
                        let mut q: usize = 0;
                        while q < targets.len()
                            invariant
                                self.wf(),
                                ids == self.ids(),
                                links == self.links(),
                                failed == self.failed_set(),
                                n == ids.len(),
                                idx < n,
                                pushed.contains(idx as int),
                                pushed.contains(start as int),
                                q <= targets.len(),
                                forall|k: int| 0 <= k < targets@.len() ==> links.contains((idx as int, #[trigger] targets@[k] as int)),
                                blocked@.no_duplicates(),
                                blocked@.len() <= n,
                                forall|x: NodeId| #[trigger] blocked@.contains(x) ==> origin.contains_key(x) && pushed.contains(
                                    origin[x],
                                ) && ids[origin[x]] == x && is_blocked(ids, links, failed, origin[x]),
                                forall|u: int|
                                    #[trigger] pushed.contains(u) ==> 0 <= u < n && (failed.contains(ids[u]) || is_blocked(
                                        ids,
                                        links,
                                        failed,
                                        u,
                                    )),
                                forall|u: int|
                                    #[trigger] pushed.contains(u) ==> done.contains(u) || u == idx || to_visit@.contains(u as usize),
                                forall|k: int| 0 <= k < to_visit@.len() ==> pushed.contains(#[trigger] to_visit@[k] as int),
                                forall|u: int| #[trigger] done.contains(u) ==> pushed.contains(u),
                                forall|u: int, t: int|
                                    done.contains(u) && #[trigger] block_step(ids, links, failed, u, t) ==> blocked@.contains(ids[t]),
                                forall|k: int|
                                    0 <= k < q && #[trigger] block_step(ids, links, failed, idx as int, targets@[k] as int)
                                        ==> blocked@.contains(ids[targets@[k] as int]),
                                forall|jj: int|
                                    0 <= jj < j && #[trigger] self.index_map().contains_key(self.failed@[jj].0) ==> pushed.contains(
                                        self.index_map()[self.failed@[jj].0] as int,
                                    ),
                                blocked@.len() >= len_before,
                                blocked@.len() == len_before ==> to_visit@ == visit_before,
                            decreases targets.len() - q,
                        {
                            let t = targets[q];
                            assert(links.contains((idx as int, t as int)));
                            if t != idx {
                                let tid = dep_node(&self.graph, t);
                                if !holds_id(&self.failed, tid) && !holds_id(&blocked, tid) {
                                    proof {
                                        assert(!failed.contains(tid));
                                        assert(block_step(ids, links, failed, idx as int, t as int));
                                        lemma_extend_block(ids, links, failed, idx as int, t as int);
                                    }
                                    let ghost b_before = blocked@;
                                    let ghost v_before = to_visit@;
                                    blocked.push(tid);
                                    to_visit.push(t);
                                    proof {
                                        pushed = pushed.insert(t as int);
                                        origin = origin.insert(tid, t as int);
                                        lemma_push_contains(b_before, tid);
                                        lemma_push_contains(v_before, t);
                                        assert(blocked@.no_duplicates()) by {
                                            assert forall|a: int, b: int| 0 <= a < b < blocked@.len() implies blocked@[a] != blocked@[b] by {
                                                if b == blocked@.len() - 1 {
                                                    assert(b_before[a] == blocked@[a]);
                                                    assert(b_before.contains(blocked@[a]));
                                                } else {
                                                    assert(b_before[a] == blocked@[a] && b_before[b] == blocked@[b]);
                                                }
                                            }
                                        }
                                        assert forall|k: int| 0 <= k < to_visit@.len() implies pushed.contains(#[trigger] to_visit@[k] as int) by {
                                            if k < v_before.len() {
                                                assert(to_visit@[k] == v_before[k]);
                                            }
                                        }
                                        assert forall|x: NodeId| blocked@.contains(x) implies ids.contains(x) by {
                                            assert(ids[origin[x]] == x);
                                        }
                                        lemma_distinct_within(blocked@, ids);
                                    }
                                }
                            }
                            q = q + 1;
                        }
                        proof {
                            assert forall|u: int, tt: int|
                                done.insert(idx as int).contains(u) && #[trigger] block_step(ids, links, failed, u, tt) implies blocked@.contains(
                                ids[tt],
                            ) by {
                                if u == idx as int {
                                    assert(links.contains((idx as int, tt)));
                                    assert(targets@.contains(tt as usize));
                                    let k = choose|k: int| 0 <= k < targets@.len() && targets@[k] == tt as usize;
                                    assert(block_step(ids, links, failed, idx as int, targets@[k] as int));
                                }
                            }
                            done = done.insert(idx as int);
                        }
                    }
                }
            }
            proof {
                assert forall|jj: int|
                    0 <= jj < j + 1 && #[trigger] self.index_map().contains_key(self.failed@[jj].0) implies pushed.contains(
                    self.index_map()[self.failed@[jj].0] as int,
                ) by {}
            }
            j = j + 1;
        }
        proof {
            lemma_id_index_map(ids);
            assert forall|x: NodeId| blocked@.contains(x) implies id_blocked(ids, links, failed, x) by {
                assert(is_blocked(ids, links, failed, origin[x]));
            }
            if ids.no_duplicates() {
                assert forall|i: int| 0 <= i < n && #[trigger] failed.contains(ids[i]) implies pushed.contains(i) by {
                    let jj = choose|jj: int| 0 <= jj < self.failed@.len() && self.failed@[jj] == ids[i];
                    assert(self.index_map().contains_key(ids[i].0));
                    assert(self.index_map()[ids[i].0] == i);
                }
                assert forall|x: NodeId| blocked@.contains(x) implies #[trigger] id_among(pushed, ids, x) by {
                    assert(pushed.contains(origin[x]));
                }
                assert forall|t: int| 0 <= t < n && #[trigger] self.blocked_at(t) implies blocked@.contains(ids[t]) by {
                    let p = choose|p: Seq<int>| #[trigger] is_block_path(ids, links, failed, p) && p.last() == t;
                    lemma_search_closed(ids, links, failed, pushed, blocked@, p, p.len() - 1);
                }
            }
        }
        blocked
    }
}

/// `b` is `a` after `mark_executing(id)`: a node of the graph joins the
/// executing nodes; nothing else changes.
pub open spec fn executing_marked(a: RemainingWorkGraph, b: RemainingWorkGraph, id: NodeId) -> bool {
    &&& b.wf()
    &&& a.in_graph(id) ==> b.executing_set() == a.executing_set().insert(id)
    &&& !a.in_graph(id) ==> b.executing_set() == a.executing_set()
    &&& b.ids() == a.ids()
    &&& b.links() == a.links()
    &&& b.link_count() == a.link_count()
    &&& b.index_map() == a.index_map()
    &&& b.failed_seq() == a.failed_seq()
}

/// `b` is `a` after `mark_completed(id)`: the node leaves the executing
/// nodes; a node of the graph leaves it with its edges, the last node taking
/// its index. With distinct identifiers, the node is gone afterwards, and
/// failed nodes keep their edges to themselves.
pub open spec fn completed_marked(a: RemainingWorkGraph, b: RemainingWorkGraph, id: NodeId) -> bool {
    &&& b.wf()
    &&& b.executing_set() == a.executing_set().remove(id)
    &&& b.failed_seq() == a.failed_seq()
    &&& !a.in_graph(id) ==> b.ids() == a.ids() && b.links() == a.links() && b.link_count() == a.link_count()
    &&& a.in_graph(id) ==> {
        &&& b.ids() == a.ids().update(a.index_of_id(id), a.ids().last()).drop_last()
        &&& dep_edges_after_removal(a.links(), b.links(), a.index_of_id(id), a.ids().len() as int)
        &&& b.link_count() <= a.link_count()
    }
    &&& a.ids().no_duplicates() ==> b.ids().no_duplicates() && !b.in_graph(id)
    &&& a.failed_self_linked() ==> b.failed_self_linked()
}

/// `b` is `a` after `mark_failed(id)`: the node leaves the executing nodes;
/// a node of the graph gets an edge to itself and joins the failed nodes.
pub open spec fn failed_marked(a: RemainingWorkGraph, b: RemainingWorkGraph, id: NodeId) -> bool {
    &&& b.wf()
    &&& b.executing_set() == a.executing_set().remove(id)
    &&& b.ids() == a.ids()
    &&& b.index_map() == a.index_map()
    &&& a.in_graph(id) ==> {
        &&& b.links() == a.links().insert((a.index_of_id(id), a.index_of_id(id)))
        &&& b.link_count() == a.link_count() + 1
        &&& b.failed_set() == a.failed_set().insert(id)
    }
    &&& !a.in_graph(id) ==> b.links() == a.links() && b.link_count() == a.link_count() && b.failed_seq()
        == a.failed_seq()
    &&& a.ids().no_duplicates() && a.failed_self_linked() ==> b.failed_self_linked()
}

/// A node is ready exactly when it is in the graph, no edge leads into it,
/// and it is not executing.
pub proof fn law_ready_exactly(g: &RemainingWorkGraph)
    requires
        g.wf(),
    ensures
        forall|x: NodeId| #[trigger] g.ready_spec().contains(x) <==> exists|i: int|
            0 <= i < g.ids().len() && g.ids()[i] == x && !has_incoming_link(g.links(), i)
                && !g.executing_set().contains(x),
{
    lemma_ready_prefix(g.ids(), g.links(), g.executing_set(), g.ids().len() as int);
    assert forall|x: NodeId| #[trigger] g.ready_spec().contains(x) <==> exists|i: int|
        0 <= i < g.ids().len() && g.ids()[i] == x && !has_incoming_link(g.links(), i)
            && !g.executing_set().contains(x) by {
        if exists|i: int|
            0 <= i < g.ids().len() && g.ids()[i] == x && !has_incoming_link(g.links(), i)
                && !g.executing_set().contains(x) {
            let i = choose|i: int|
                0 <= i < g.ids().len() && g.ids()[i] == x && !has_incoming_link(g.links(), i)
                    && !g.executing_set().contains(x);
            assert(ready_at(g.ids(), g.links(), g.executing_set(), i));
        }
    }
}

/// An executing node is never ready.
pub proof fn law_executing_never_ready(g: &RemainingWorkGraph)
    requires
        g.wf(),
    ensures
        forall|x: NodeId| g.executing_set().contains(x) ==> !#[trigger] g.ready_spec().contains(x),
{
    law_ready_exactly(g);
}

/// With distinct identifiers, a failed node keeps its edge to itself, so it
/// is never ready. (Building from a workflow graph gives a graph where this
/// holds, and every operation keeps it.)
pub proof fn law_failed_never_ready(g: &RemainingWorkGraph)
    requires
        g.wf(),
        g.ids().no_duplicates(),
        g.failed_self_linked(),
    ensures
        forall|x: NodeId| g.failed_set().contains(x) ==> !#[trigger] g.ready_spec().contains(x),
{
    law_ready_exactly(g);
    assert forall|x: NodeId| g.failed_set().contains(x) implies !#[trigger] g.ready_spec().contains(x) by {
        if g.ready_spec().contains(x) {
            let i = choose|i: int|
                0 <= i < g.ids().len() && g.ids()[i] == x && !has_incoming_link(g.links(), i)
                    && !g.executing_set().contains(x);
            assert(g.failed_set().contains(g.ids()[i]));
            assert(g.links().contains((i, i)));
        }
    }
}

/// Completing a node unblocks a successor whose only incoming edges came
/// from it: once the completed node is removed (as `mark_completed` removes
/// it), that successor is ready unless it is executing.
pub proof fn law_completion_unblocks(before: &RemainingWorkGraph, after: &RemainingWorkGraph, id: NodeId, t: int)
    requires
        before.wf(),
        before.in_graph(id),
        completed_marked(*before, *after, id),
        0 <= t < before.ids().len(),
        t != before.index_of_id(id),
        forall|s: int| #[trigger] before.links().contains((s, t)) ==> s == before.index_of_id(id),
        !after.executing_set().contains(before.ids()[t]),
    ensures
        after.ready_spec().contains(before.ids()[t]),
{
    let a = before.index_of_id(id);
    let n = before.ids().len() as int;
    lemma_id_index_map(before.ids());
    let nt = if t == n - 1 { a } else { t };
    assert(crate::workflow::graph_store::moved_from(nt, a, n) == t);
    assert(after.ids()[nt] == before.ids()[t]);
    assert forall|s: int| !after.links().contains((s, nt)) by {
        if after.links().contains((s, nt)) {
            let ms = crate::workflow::graph_store::moved_from(s, a, n);
            assert(before.links().contains((ms, t)));
        }
    }
    law_ready_exactly(after);
}

/// `rank` orders the dependency edges: every edge between two different
/// nodes rises in rank, and only a failed node has an edge to itself.
pub open spec fn ranks_links(ids: Seq<NodeId>, links: Set<(int, int)>, failed: Set<NodeId>, rank: spec_fn(int) -> nat) -> bool {
    forall|a: int, b: int| #[trigger] links.contains((a, b)) ==> if a == b {
        failed.contains(ids[a])
    } else {
        rank(a) < rank(b)
    }
}

/// With every edge rising in rank and nothing ready or executing, a node is
/// failed or held back by a failure: proved by induction on its rank.
proof fn lemma_held_back(
    ids: Seq<NodeId>,
    links: Set<(int, int)>,
    failed: Set<NodeId>,
    executing: Set<NodeId>,
    rank: spec_fn(int) -> nat,
    t: int,
)
    requires
        0 <= t < ids.len(),
        forall|s: int, u: int| #[trigger] links.contains((s, u)) ==> 0 <= s < ids.len() && 0 <= u < ids.len(),
        ranks_links(ids, links, failed, rank),
        forall|i: int| 0 <= i < ids.len() ==> !#[trigger] ready_at(ids, links, executing, i),
        forall|x: NodeId| !executing.contains(x),
    ensures
        failed.contains(ids[t]) || is_blocked(ids, links, failed, t),
    decreases rank(t),
{
    if !failed.contains(ids[t]) {
        assert(!ready_at(ids, links, executing, t));
        assert(has_incoming_link(links, t));
        let a = choose|s: int| links.contains((s, t));
        assert(links.contains((a, t)));
        if a != t {
            lemma_held_back(ids, links, failed, executing, rank, a);
            assert(block_step(ids, links, failed, a, t));
            lemma_extend_block(ids, links, failed, a, t);
        }
    }
}

impl RemainingWorkGraph {
    /// The dependency edges have no cycle: some rank rises along every edge
    /// between two different nodes, and only failed nodes have an edge to
    /// themselves.
    pub open spec fn links_acyclic(&self) -> bool {
        exists|rank: spec_fn(int) -> nat| ranks_links(self.ids(), self.links(), self.failed_set(), rank)
    }
}

/// A complete run (nothing executing, nothing ready) over acyclic
/// dependencies has no node left that could still run: every node still in
/// the graph has failed or is held back by a failure. With a cycle among
/// pending nodes the run is complete too, and those nodes are neither.
pub proof fn law_complete_means_held_back(g: &RemainingWorkGraph)
    requires
        g.wf(),
        g.links_acyclic(),
        g.executing_seq().len() == 0,
        g.ready_spec().len() == 0,
    ensures
        forall|t: int|
            0 <= t < g.ids().len() ==> g.failed_set().contains(#[trigger] g.ids()[t]) || g.blocked_at(t),
{
    let rank = choose|rank: spec_fn(int) -> nat| ranks_links(g.ids(), g.links(), g.failed_set(), rank);
    law_ready_exactly(g);
    assert forall|x: NodeId| !g.executing_set().contains(x) by {
        if g.executing_set().contains(x) {
            assert(g.executing_seq().contains(x));
        }
    }
    assert forall|i: int| 0 <= i < g.ids().len() implies !#[trigger] ready_at(
        g.ids(),
        g.links(),
        g.executing_set(),
        i,
    ) by {
        if ready_at(g.ids(), g.links(), g.executing_set(), i) {
            assert(!g.ready_spec().contains(g.ids()[i]));
        }
    }
    assert forall|t: int| 0 <= t < g.ids().len() implies g.failed_set().contains(#[trigger] g.ids()[t])
        || g.blocked_at(t) by {
        lemma_held_back(g.ids(), g.links(), g.failed_set(), g.executing_set(), rank, t);
    }
}

/// `p` is a walk of one or more edges.
pub open spec fn is_link_walk(links: Set<(int, int)>, p: Seq<int>) -> bool {
    &&& p.len() >= 2
    &&& forall|k: int| 0 <= k < p.len() - 1 ==> #[trigger] links.contains((p[k], p[k + 1]))
}

/// Index `t` is reached by a walk of one or more edges from a failed node.
pub open spec fn reached_from_failure(ids: Seq<NodeId>, links: Set<(int, int)>, failed: Set<NodeId>, t: int) -> bool {
    exists|p: Seq<int>|
        #[trigger] is_link_walk(links, p) && 0 <= p[0] < ids.len() && failed.contains(ids[p[0]]) && p.last() == t
}

/// The end of a walk from a failed node through edges that join nodes of the
/// graph is failed itself or held back by a failure.
proof fn lemma_walk_blocks(ids: Seq<NodeId>, links: Set<(int, int)>, failed: Set<NodeId>, p: Seq<int>)
    requires
        forall|s: int, t: int| #[trigger] links.contains((s, t)) ==> 0 <= s < ids.len() && 0 <= t < ids.len(),
        is_link_walk(links, p),
        0 <= p[0] < ids.len(),
        failed.contains(ids[p[0]]),
    ensures
        failed.contains(ids[p.last()]) || is_blocked(ids, links, failed, p.last()),
    decreases p.len(),
{
    let m = p.len() - 1;
    let u = p[m - 1];
    let t = p[m];
    assert(links.contains((p[m - 1], p[m - 1 + 1])));
    if !failed.contains(ids[t]) {
        if m == 1 {
            assert(u == p[0]);
            if u != t {
                assert(block_step(ids, links, failed, u, t));
                lemma_extend_block(ids, links, failed, u, t);
            }
        } else {
            let q = p.drop_last();
            assert forall|k: int| 0 <= k < q.len() - 1 implies #[trigger] links.contains((q[k], q[k + 1])) by {
                assert(links.contains((p[k], p[k + 1])));
            }
            assert(is_link_walk(links, q));
            lemma_walk_blocks(ids, links, failed, q);
            assert(q.last() == u);
            if u != t {
                assert(block_step(ids, links, failed, u, t));
                lemma_extend_block(ids, links, failed, u, t);
            }
        }
    }
}

/// A node of the graph is held back by a failure exactly when it has not
/// failed and a walk of one or more edges leads to it from a failed node.
pub proof fn law_blocked_is_reached(g: &RemainingWorkGraph)
    requires
        g.wf(),
    ensures
        forall|t: int|
            0 <= t < g.ids().len() ==> (#[trigger] g.blocked_at(t) <==> !g.failed_set().contains(g.ids()[t])
                && reached_from_failure(g.ids(), g.links(), g.failed_set(), t)),
{
    let ids = g.ids();
    let links = g.links();
    let failed = g.failed_set();
    assert forall|t: int| 0 <= t < ids.len() implies (#[trigger] g.blocked_at(t) <==> !failed.contains(ids[t])
        && reached_from_failure(ids, links, failed, t)) by {
        if g.blocked_at(t) {
            let p = choose|p: Seq<int>| #[trigger] is_block_path(ids, links, failed, p) && p.last() == t;
            let m = p.len() - 1;
            assert(block_step(ids, links, failed, p[m - 1], p[m - 1 + 1]));
            assert forall|k: int| 0 <= k < p.len() - 1 implies #[trigger] links.contains((p[k], p[k + 1])) by {
                assert(block_step(ids, links, failed, p[k], p[k + 1]));
            }
            assert(is_link_walk(links, p));
        }
        if !failed.contains(ids[t]) && reached_from_failure(ids, links, failed, t) {
            let p = choose|p: Seq<int>|
                #[trigger] is_link_walk(links, p) && 0 <= p[0] < ids.len() && failed.contains(ids[p[0]]) && p.last()
                    == t;
            lemma_walk_blocks(ids, links, failed, p);
        }
    }
}

/// What a sequence holds after a push: what it held, and the new element.
pub proof fn lemma_push_contains<A>(s: Seq<A>, v: A)
    ensures
        forall|x: A| #[trigger] s.push(v).contains(x) <==> (s.contains(x) || x == v),
{
    assert forall|x: A| #[trigger] s.push(v).contains(x) <==> (s.contains(x) || x == v) by {
        if s.contains(x) {
            let i = choose|i: int| 0 <= i < s.len() && s[i] == x;
            assert(s.push(v)[i] == x);
        }
        if x == v {
            assert(s.push(v)[s.len() as int] == x);
        }
        if s.push(v).contains(x) {
            let i = choose|i: int| 0 <= i < s.len() + 1 && s.push(v)[i] == x;
            if i < s.len() {
                assert(s[i] == x);
            }
        }
    }
}

} // verus!
