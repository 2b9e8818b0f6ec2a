//! The remaining work of a run followed from its start: the marks made on it
//! since it was built from the workflow graph, and what they leave ready and
//! blocked, stated over the workflow graph itself.

use vstd::prelude::*;
use crate::workflow::node::NodeId;
use crate::workflow::graph::{WorkflowGraph, index_map_of, node_ids_distinct, lemma_index_map_distinct};
use crate::workflow::graph_store::{flow_linked, moved_from};
use crate::workflow::remaining_work::{
    RemainingWorkGraph, built_from_workflow, completed_marked, executing_marked, failed_marked, node_ids,
    lemma_id_index_map, has_incoming_link, law_ready_exactly, block_step,
};

verus! {

/// One mark made on the remaining work of a run.
pub enum WorkMark {
    /// `mark_executing`.
    Executing(NodeId),
    /// `mark_completed`.
    Completed(NodeId),
    /// `mark_skipped`.
    Skipped(NodeId),
    /// `mark_failed`.
    Failed(NodeId),
}

/// `b` is `a` after the mark `m`, as the mark's method states it.
pub open spec fn mark_step(a: RemainingWorkGraph, b: RemainingWorkGraph, m: WorkMark) -> bool {
    match m {
        WorkMark::Executing(id) => executing_marked(a, b, id),
        WorkMark::Completed(id) => completed_marked(a, b, id),
        WorkMark::Skipped(id) => completed_marked(a, b, id),
        WorkMark::Failed(id) => failed_marked(a, b, id),
    }
}

/// `states` are the remaining work built from `wg` and then after each of
/// the `marks` in turn.
pub open spec fn marked_history(wg: &WorkflowGraph, marks: Seq<WorkMark>, states: Seq<RemainingWorkGraph>) -> bool {
    &&& states.len() == marks.len() + 1
    &&& built_from_workflow(wg, states[0])
    &&& forall|k: int| 0 <= k < marks.len() ==> #[trigger] mark_step(states[k], states[k + 1], marks[k])
}

/// Some mark completed or skipped node `x`.
pub open spec fn removed_by(marks: Seq<WorkMark>, x: NodeId) -> bool {
    exists|k: int| 0 <= k < marks.len() && (#[trigger] marks[k] == WorkMark::Completed(x) || marks[k] == WorkMark::Skipped(x))
}

/// The workflow graph has an edge from the node with identifier `x` to the
/// node with identifier `y`.
pub open spec fn graph_edge(wg: &WorkflowGraph, x: NodeId, y: NodeId) -> bool {
    exists|i: int, t: int|
        #![trigger wg.node_seq()[i], wg.node_seq()[t]]
        0 <= i < wg.node_seq().len() && 0 <= t < wg.node_seq().len() && wg.node_seq()[i].id == x
            && wg.node_seq()[t].id == y && flow_linked(wg.edge_set(), i, t)
}

/// The edges of the remaining work are those of the workflow graph between
/// nodes still in it, and an edge from each failed node to itself.
pub open spec fn links_follow(wg: &WorkflowGraph, w: RemainingWorkGraph) -> bool {
    forall|s: int, t: int|
        0 <= s < w.ids().len() && 0 <= t < w.ids().len() ==> (#[trigger] w.links().contains((s, t)) <==> ((s == t
            && w.failed_set().contains(w.ids()[s])) || graph_edge(wg, w.ids()[s], w.ids()[t])))
}

/// What every state of a history keeps: identifiers stay distinct, the
/// nodes left are those of the workflow graph never completed or skipped,
/// and the edges follow the workflow graph.
pub open spec fn history_inv(wg: &WorkflowGraph, marks: Seq<WorkMark>, w: RemainingWorkGraph) -> bool {
    &&& w.wf()
    &&& w.ids().no_duplicates()
    &&& forall|x: NodeId| #[trigger] w.ids().contains(x) <==> (node_ids(wg.node_seq()).contains(x) && !removed_by(marks, x))
    &&& links_follow(wg, w)
}

/// A node is in the graph exactly when its identifier is among the ids.
proof fn lemma_in_graph(w: RemainingWorkGraph, id: NodeId)
    requires
        w.wf(),
        w.ids().no_duplicates(),
    ensures
        w.in_graph(id) <==> w.ids().contains(id),
        w.in_graph(id) ==> 0 <= w.index_of_id(id) < w.ids().len() && w.ids()[w.index_of_id(id)] == id,
{
    lemma_id_index_map(w.ids());
    if w.ids().contains(id) {
        let i = choose|i: int| 0 <= i < w.ids().len() && w.ids()[i] == id;
        assert(w.index_map().contains_key(w.ids()[i].0));
    }
    if w.in_graph(id) {
        let i = w.index_map()[id.0] as int;
        assert(w.ids()[i].0 == id.0);
    }
}

/// The history invariant holds of the remaining work just built.
proof fn lemma_history_start(wg: &WorkflowGraph, w: RemainingWorkGraph)
    requires
        node_ids_distinct(wg.node_seq()),
        wg.node_seq().len() <= usize::MAX,
        wg.index_of() == index_map_of(wg.node_seq()),
        built_from_workflow(wg, w),
    ensures
        history_inv(wg, Seq::empty(), w),
{
    let nodes = wg.node_seq();
    let ids = w.ids();
    assert(ids.len() == nodes.len());
    assert forall|a: int, b: int| 0 <= a < ids.len() && 0 <= b < ids.len() && a != b implies ids[a] != ids[b] by {
        assert(ids[a] == nodes[a].id && ids[b] == nodes[b].id);
    }
    assert(ids.no_duplicates());
    lemma_id_index_map(ids);
    lemma_index_map_distinct(nodes);
    assert forall|x: NodeId| #[trigger] ids.contains(x) <==> (node_ids(nodes).contains(x) && !removed_by(
        Seq::empty(),
        x,
    )) by {}
    assert forall|s: int, t: int| 0 <= s < ids.len() && 0 <= t < ids.len() implies (#[trigger] w.links().contains(
        (s, t),
    ) <==> ((s == t && w.failed_set().contains(ids[s])) || graph_edge(wg, ids[s], ids[t]))) by {
        assert(!w.failed_set().contains(ids[s]));
        assert(w.index_map()[ids[s].0] == s);
        assert(w.index_map()[ids[t].0] == t);
        assert(ids[s] == nodes[s].id && ids[t] == nodes[t].id);
        if w.links().contains((s, t)) {
            let (i, u) = choose|i: int, u: int|
                #![trigger nodes[i], nodes[u]]
                0 <= i < nodes.len() && 0 <= u < nodes.len() && (wg.lookup_index(nodes[i].id) matches Some(j)
                    && flow_linked(wg.edge_set(), j, u)) && s == w.index_map()[nodes[i].id.0] && t
                    == w.index_map()[nodes[u].id.0];
            assert(ids[i] == nodes[i].id && ids[u] == nodes[u].id);
            assert(w.index_map()[ids[i].0] == i);
            assert(w.index_map()[ids[u].0] == u);
            assert(wg.index_of()[nodes[i].id.0] == i);
            assert(wg.lookup_index(nodes[i].id) == Some(i));
            assert(nodes[s] == nodes[i]);
        }
        if graph_edge(wg, ids[s], ids[t]) {
            let (i, u) = choose|i: int, u: int|
                #![trigger nodes[i], nodes[u]]
                0 <= i < nodes.len() && 0 <= u < nodes.len() && nodes[i].id == ids[s] && nodes[u].id == ids[t]
                    && flow_linked(wg.edge_set(), i, u);
            assert(i == s && u == t);
            assert(wg.index_of()[nodes[s].id.0] == s);
            assert(wg.lookup_index(nodes[s].id) == Some(s));
            assert(w.index_map()[nodes[s].id.0] == s);
            assert(w.index_map()[nodes[t].id.0] == t);
        }
    }
}

/// Each mark keeps the history invariant.
proof fn lemma_history_step(
    wg: &WorkflowGraph,
    marks: Seq<WorkMark>,
    a: RemainingWorkGraph,
    b: RemainingWorkGraph,
    m: WorkMark,
)
    requires
        history_inv(wg, marks, a),
        mark_step(a, b, m),
    ensures
        history_inv(wg, marks.push(m), b),
{
    let ms = marks.push(m);
    assert forall|x: NodeId| #[trigger] removed_by(ms, x) <==> (removed_by(marks, x) || m == WorkMark::Completed(x)
        || m == WorkMark::Skipped(x)) by {
        if removed_by(ms, x) {
            let k = choose|k: int| 0 <= k < ms.len() && (#[trigger] ms[k] == WorkMark::Completed(x) || ms[k]
                == WorkMark::Skipped(x));
            if k < marks.len() {
                assert(ms[k] == marks[k]);
            }
        }
        if removed_by(marks, x) {
            let k = choose|k: int| 0 <= k < marks.len() && (#[trigger] marks[k] == WorkMark::Completed(x) || marks[k]
                == WorkMark::Skipped(x));
            assert(ms[k] == marks[k]);
        }
        if m == WorkMark::Completed(x) || m == WorkMark::Skipped(x) {
            assert(ms[marks.len() as int] == m);
        }
    }
    match m {
        WorkMark::Executing(id) => {
            assert forall|s: int, t: int| 0 <= s < b.ids().len() && 0 <= t < b.ids().len() implies (
            #[trigger] b.links().contains((s, t)) <==> ((s == t && b.failed_set().contains(b.ids()[s])) || graph_edge(
                wg,
                b.ids()[s],
                b.ids()[t],
            ))) by {
                assert(a.links().contains((s, t)) <==> ((s == t && a.failed_set().contains(a.ids()[s])) || graph_edge(
                    wg,
                    a.ids()[s],
                    a.ids()[t],
                )));
            }
        },
        WorkMark::Failed(id) => {
            lemma_in_graph(a, id);
            assert(b.ids().no_duplicates());
            assert forall|s: int, t: int| 0 <= s < b.ids().len() && 0 <= t < b.ids().len() implies (
            #[trigger] b.links().contains((s, t)) <==> ((s == t && b.failed_set().contains(b.ids()[s])) || graph_edge(
                wg,
                b.ids()[s],
                b.ids()[t],
            ))) by {
                assert(a.links().contains((s, t)) <==> ((s == t && a.failed_set().contains(a.ids()[s])) || graph_edge(
                    wg,
                    a.ids()[s],
                    a.ids()[t],
                )));
                if a.in_graph(id) {
                    let i = a.index_of_id(id);
                    assert(a.ids()[s] == id <==> s == i);
                }
            }
        },
        WorkMark::Completed(id) | WorkMark::Skipped(id) => {
            lemma_in_graph(a, id);
            assert(completed_marked(a, b, id));
            if a.in_graph(id) {
                let i = a.index_of_id(id);
                let n = a.ids().len() as int;
                assert forall|x: NodeId| #[trigger] b.ids().contains(x) <==> (a.ids().contains(x) && x != id) by {
                    if b.ids().contains(x) {
                        let j = choose|j: int| 0 <= j < b.ids().len() && b.ids()[j] == x;
                        assert(b.ids()[j] == a.ids()[moved_from(j, i, n)]);
                        assert(moved_from(j, i, n) != i);
                    }
                    if a.ids().contains(x) && x != id {
                        let j = choose|j: int| 0 <= j < a.ids().len() && a.ids()[j] == x;
                        assert(j != i);
                        let bj = if j == n - 1 { i } else { j };
                        assert(b.ids()[bj] == x);
                    }
                }
                assert forall|s: int, t: int| 0 <= s < b.ids().len() && 0 <= t < b.ids().len() implies (
                #[trigger] b.links().contains((s, t)) <==> ((s == t && b.failed_set().contains(b.ids()[s]))
                    || graph_edge(wg, b.ids()[s], b.ids()[t]))) by {
                    let ms_ = moved_from(s, i, n);
                    let mt = moved_from(t, i, n);
                    assert(b.ids()[s] == a.ids()[ms_]);
                    assert(b.ids()[t] == a.ids()[mt]);
                    assert(a.links().contains((ms_, mt)) <==> ((ms_ == mt && a.failed_set().contains(a.ids()[ms_]))
                        || graph_edge(wg, a.ids()[ms_], a.ids()[mt])));
                    assert(s == t <==> ms_ == mt);
                }
            } else {
                assert(b.ids() == a.ids());
                assert forall|s: int, t: int| 0 <= s < b.ids().len() && 0 <= t < b.ids().len() implies (
                #[trigger] b.links().contains((s, t)) <==> ((s == t && b.failed_set().contains(b.ids()[s]))
                    || graph_edge(wg, b.ids()[s], b.ids()[t]))) by {
                    assert(a.links().contains((s, t)) <==> ((s == t && a.failed_set().contains(a.ids()[s]))
                        || graph_edge(wg, a.ids()[s], a.ids()[t])));
                }
            }
        },
    }
}

/// The history invariant holds of every state after the first `k` marks.
proof fn lemma_history_prefix(wg: &WorkflowGraph, marks: Seq<WorkMark>, states: Seq<RemainingWorkGraph>, k: int)
    requires
        node_ids_distinct(wg.node_seq()),
        wg.node_seq().len() <= usize::MAX,
        wg.index_of() == index_map_of(wg.node_seq()),
        marked_history(wg, marks, states),
        0 <= k <= marks.len(),
    ensures
        history_inv(wg, marks.take(k), states[k]),
    decreases k,
{
    if k == 0 {
        lemma_history_start(wg, states[0]);
        assert(marks.take(0) =~= Seq::<WorkMark>::empty());
    } else {
        lemma_history_prefix(wg, marks, states, k - 1);
        let j = k - 1;
        assert(mark_step(states[j], states[j + 1], marks[j]));
        assert(j + 1 == k);
        lemma_history_step(wg, marks.take(k - 1), states[k - 1], states[k], marks[k - 1]);
        assert(marks.take(k - 1).push(marks[k - 1]) =~= marks.take(k));
    }
}

/// Along any marks made since the remaining work was built from a workflow
/// graph with distinct node identifiers and a rebuilt index map, every state
/// keeps the identifiers distinct, holds exactly the nodes of the graph never
/// completed or skipped, and has as edges those of the workflow graph between
/// them, with an edge from each failed node to itself.
pub proof fn law_history_follows_graph(wg: &WorkflowGraph, marks: Seq<WorkMark>, states: Seq<RemainingWorkGraph>)
    requires
        node_ids_distinct(wg.node_seq()),
        wg.node_seq().len() <= usize::MAX,
        wg.index_of() == index_map_of(wg.node_seq()),
        marked_history(wg, marks, states),
    ensures
        forall|k: int| 0 <= k <= marks.len() ==> history_inv(wg, marks.take(k), #[trigger] states[k]),
{
    assert forall|k: int| 0 <= k <= marks.len() implies history_inv(wg, marks.take(k), #[trigger] states[k]) by {
        lemma_history_prefix(wg, marks, states, k);
    }
}

/// After any marks made since the remaining work was built from a workflow
/// graph (distinct node identifiers, rebuilt index map), a node is ready
/// exactly when it is a node of the graph never completed or skipped, not
/// executing and not failed, and every node with an edge to it in the
/// workflow graph has been completed or skipped.
pub proof fn law_history_ready(wg: &WorkflowGraph, marks: Seq<WorkMark>, states: Seq<RemainingWorkGraph>)
    requires
        node_ids_distinct(wg.node_seq()),
        wg.node_seq().len() <= usize::MAX,
        wg.index_of() == index_map_of(wg.node_seq()),
        marked_history(wg, marks, states),
    ensures
        forall|x: NodeId| #[trigger] states.last().ready_spec().contains(x) <==> {
            &&& node_ids(wg.node_seq()).contains(x)
            &&& !removed_by(marks, x)
            &&& !states.last().executing_set().contains(x)
            &&& !states.last().failed_set().contains(x)
            &&& forall|p: NodeId| #[trigger] graph_edge(wg, p, x) ==> removed_by(marks, p)
        },
{
    let w = states.last();
    lemma_history_prefix(wg, marks, states, marks.len() as int);
    assert(marks.take(marks.len() as int) =~= marks);
    law_ready_exactly(&w);
    let nodes = wg.node_seq();
    assert forall|x: NodeId| #[trigger] w.ready_spec().contains(x) <==> {
        &&& node_ids(nodes).contains(x)
        &&& !removed_by(marks, x)
        &&& !w.executing_set().contains(x)
        &&& !w.failed_set().contains(x)
        &&& forall|p: NodeId| #[trigger] graph_edge(wg, p, x) ==> removed_by(marks, p)
    } by {
        if w.ready_spec().contains(x) {
            let i = choose|i: int|
                0 <= i < w.ids().len() && w.ids()[i] == x && !has_incoming_link(w.links(), i)
                    && !w.executing_set().contains(x);
            assert(w.ids().contains(x));
            assert(!w.links().contains((i, i)));
            assert forall|p: NodeId| #[trigger] graph_edge(wg, p, x) implies removed_by(marks, p) by {
                if !removed_by(marks, p) {
                    let (a, t) = choose|a: int, t: int|
                        #![trigger nodes[a], nodes[t]]
                        0 <= a < nodes.len() && 0 <= t < nodes.len() && nodes[a].id == p && nodes[t].id == x
                            && flow_linked(wg.edge_set(), a, t);
                    assert(node_ids(nodes)[a] == p);
                    assert(node_ids(nodes).contains(p));
                    assert(w.ids().contains(p));
                    let s = choose|s: int| 0 <= s < w.ids().len() && w.ids()[s] == p;
                    assert(w.links().contains((s, i)));
                }
            }
        }
        if node_ids(nodes).contains(x) && !removed_by(marks, x) && !w.executing_set().contains(x)
            && !w.failed_set().contains(x) && (forall|p: NodeId| #[trigger] graph_edge(wg, p, x) ==> removed_by(marks, p)) {
            assert(w.ids().contains(x));
            let i = choose|i: int| 0 <= i < w.ids().len() && w.ids()[i] == x;
            assert forall|s: int| !w.links().contains((s, i)) by {
                if w.links().contains((s, i)) {
                    assert(0 <= s < w.ids().len());
                    if s != i {
                        assert(graph_edge(wg, w.ids()[s], x));
                        assert(w.ids().contains(w.ids()[s]));
                    }
                }
            }
            assert(!has_incoming_link(w.links(), i));
        }
    }
}

/// After any marks made since the remaining work was built from a workflow
/// graph (distinct node identifiers, rebuilt index map), a failure passes on
/// along exactly the workflow graph's edges between nodes still left, into
/// nodes that have not failed; and the identifiers stay distinct, so that
/// `blocked_nodes` gives every node held back by a failure, and only those.
pub proof fn law_history_blocked(wg: &WorkflowGraph, marks: Seq<WorkMark>, states: Seq<RemainingWorkGraph>)
    requires
        node_ids_distinct(wg.node_seq()),
        wg.node_seq().len() <= usize::MAX,
        wg.index_of() == index_map_of(wg.node_seq()),
        marked_history(wg, marks, states),
    ensures
        states.last().ids().no_duplicates(),
        forall|u: int, t: int|
            0 <= u < states.last().ids().len() && 0 <= t < states.last().ids().len() && u != t ==> (#[trigger] block_step(
                states.last().ids(),
                states.last().links(),
                states.last().failed_set(),
                u,
                t,
            ) <==> graph_edge(wg, states.last().ids()[u], states.last().ids()[t]) && !states.last().failed_set().contains(
                states.last().ids()[t],
            )),
{
    lemma_history_prefix(wg, marks, states, marks.len() as int);
    assert(marks.take(marks.len() as int) =~= marks);
    let w = states.last();
    assert forall|u: int, t: int|
        0 <= u < w.ids().len() && 0 <= t < w.ids().len() && u != t implies (#[trigger] block_step(
        w.ids(),
        w.links(),
        w.failed_set(),
        u,
        t,
    ) <==> graph_edge(wg, w.ids()[u], w.ids()[t]) && !w.failed_set().contains(w.ids()[t])) by {
        assert(w.links().contains((u, t)) <==> ((u == t && w.failed_set().contains(w.ids()[u])) || graph_edge(
            wg,
            w.ids()[u],
            w.ids()[t],
        )));
    }
}

} // verus!
