//! The state of a run, rebuilt from its events. The event stream is the
//! source of truth of a run: on recovery, its state is rebuilt by replaying
//! the events in order, the first of which queues the run.

use vstd::prelude::*;
use std::collections::HashMap;
use crate::support::json::Json;
use crate::support::text::{owned, concat2};
use crate::platform_core::id::{TriggerId, WorkflowId, WorkflowRunId};
use crate::workflow::node::NodeId;
use crate::workflow::graph::WorkflowGraph;
use crate::workflow::graph_store::INDEX_LIMIT;
use crate::workflow::execution::{
    ExecutionEvent, ExecutionState, NodeExecution, NodeExecutionState, run_terminal, record_started,
    record_completed, record_failed, record_skipped,
};
use crate::workflow::remaining_work::{
    RemainingWorkGraph, built_from_workflow, executing_marked, completed_marked, failed_marked,
};

verus! {

broadcast use vstd::std_specs::hash::group_hash_axioms;

/// Why a run could not be rebuilt from its events.
#[derive(Debug, Clone, PartialEq, Eq)]
pub enum RunStateError {
    /// No events were given.
    NoEvents,
    /// The first event does not queue the run.
    MissingRunQueued,
    /// A later event queues the run again.
    DuplicateRunQueued,
    /// An event names an unknown node.
    UnknownNode { node_id: String },
}

/// The message of a rebuild error.
pub open spec fn run_state_error_text(e: RunStateError) -> Seq<char> {
    match e {
        RunStateError::NoEvents => "no events provided"@,
        RunStateError::MissingRunQueued => "first event must be RunQueued"@,
        RunStateError::DuplicateRunQueued => "duplicate RunQueued event"@,
        RunStateError::UnknownNode { node_id } => "unknown node: "@ + node_id@,
    }
}

impl RunStateError {
    /// The message of this error.
    pub fn to_string(&self) -> (s: String)
        ensures
            s@ == run_state_error_text(*self),
    {
        match self {
            RunStateError::NoEvents => owned("no events provided"),
            RunStateError::MissingRunQueued => owned("first event must be RunQueued"),
            RunStateError::DuplicateRunQueued => owned("duplicate RunQueued event"),
            RunStateError::UnknownNode { node_id } => concat2("unknown node: ", node_id.as_str()),
        }
    }
}

/// The complete state of a run: what resuming it or reporting on it needs.
#[derive(Debug)]
pub struct RunState {
    /// The run.
    pub run_id: WorkflowRunId,
    /// The workflow executed.
    pub workflow_id: WorkflowId,
    /// The trigger that started the run, if any.
    pub trigger_id: Option<TriggerId>,
    /// Current state of the run.
    pub execution_state: ExecutionState,
    /// When the run was queued (milliseconds since the epoch).
    pub queued_at: i64,
    /// When the run started.
    pub started_at: Option<i64>,
    /// When the run finished.
    pub finished_at: Option<i64>,
    /// Input data of the run.
    pub input: Option<Json>,
    /// Final output (if completed).
    pub output: Option<Json>,
    /// Error message (if failed).
    pub error: Option<String>,
    /// The execution record of each node, by node identifier.
    pub node_states: HashMap<u128, NodeExecution>,
    /// The remaining work of the run.
    pub remaining_work: RemainingWorkGraph,
}

/// `after` is `before` with the record of `id`, if there is one, replaced by
/// one that `upd` relates to it.
pub open spec fn record_updated(
    before: Map<u128, NodeExecution>,
    after: Map<u128, NodeExecution>,
    id: NodeId,
    upd: spec_fn(NodeExecution, NodeExecution) -> bool,
) -> bool {
    if before.contains_key(id.0) {
        after == before.insert(id.0, after[id.0]) && upd(before[id.0], after[id.0])
    } else {
        after == before
    }
}

/// The two states belong to the same run with the same input.
pub open spec fn run_kept(a: RunState, b: RunState) -> bool {
    &&& b.run_id == a.run_id
    &&& b.workflow_id == a.workflow_id
    &&& b.trigger_id == a.trigger_id
    &&& b.queued_at == a.queued_at
    &&& b.input == a.input
}

/// The two states agree on how the run stands as a whole.
pub open spec fn outcome_kept(a: RunState, b: RunState) -> bool {
    &&& b.execution_state == a.execution_state
    &&& b.started_at == a.started_at
    &&& b.finished_at == a.finished_at
    &&& b.output == a.output
    &&& b.error == a.error
}

/// The two states agree on every node.
pub open spec fn nodes_kept(a: RunState, b: RunState) -> bool {
    &&& b.node_states@ == a.node_states@
    &&& b.work() == a.work()
}

/// `after` is `before` with one event applied (an event that queues the run
/// applies to no state).
pub open spec fn event_applied(before: RunState, e: ExecutionEvent, after: RunState) -> bool {
    match e {
        ExecutionEvent::RunQueued { .. } => false,
        ExecutionEvent::RunStarted { timestamp, .. } => {
            &&& run_kept(before, after)
            &&& nodes_kept(before, after)
            &&& after.execution_state == ExecutionState::Running
            &&& after.started_at == Some(timestamp)
            &&& after.finished_at == before.finished_at
            &&& after.output == before.output
            &&& after.error == before.error
        },
        ExecutionEvent::NodeStarted { node_id, input, .. } => {
            &&& run_kept(before, after)
            &&& outcome_kept(before, after)
            &&& executing_marked(before.work(), after.work(), node_id)
            &&& record_updated(
                before.node_states@,
                after.node_states@,
                node_id,
                |a: NodeExecution, b: NodeExecution| record_started(a, b, input),
            )
        },
        ExecutionEvent::NodeCompleted { node_id, output_key, .. } => {
            &&& run_kept(before, after)
            &&& outcome_kept(before, after)
            &&& completed_marked(before.work(), after.work(), node_id)
            &&& record_updated(
                before.node_states@,
                after.node_states@,
                node_id,
                |a: NodeExecution, b: NodeExecution| record_completed(a, b, output_key),
            )
        },
        ExecutionEvent::NodeFailed { node_id, error, .. } => {
            &&& run_kept(before, after)
            &&& outcome_kept(before, after)
            &&& failed_marked(before.work(), after.work(), node_id)
            &&& record_updated(
                before.node_states@,
                after.node_states@,
                node_id,
                |a: NodeExecution, b: NodeExecution| record_failed(a, b, error),
            )
        },
        ExecutionEvent::NodeSkipped { node_id, .. } => {
            &&& run_kept(before, after)
            &&& outcome_kept(before, after)
            &&& completed_marked(before.work(), after.work(), node_id)
            &&& record_updated(
                before.node_states@,
                after.node_states@,
                node_id,
                |a: NodeExecution, b: NodeExecution| record_skipped(a, b),
            )
        },
        ExecutionEvent::RunCompleted { output, timestamp, .. } => {
            &&& run_kept(before, after)
            &&& nodes_kept(before, after)
            &&& after.execution_state == ExecutionState::Completed
            &&& after.finished_at == Some(timestamp)
            &&& after.output == output
            &&& after.started_at == before.started_at
            &&& after.error == before.error
        },
        ExecutionEvent::RunFailed { error, timestamp, .. } => {
            &&& run_kept(before, after)
            &&& nodes_kept(before, after)
            &&& after.execution_state == ExecutionState::Failed
            &&& after.finished_at == Some(timestamp)
            &&& after.error == Some(error)
            &&& after.started_at == before.started_at
            &&& after.output == before.output
        },
        ExecutionEvent::RunCancelled { timestamp, .. } => {
            &&& run_kept(before, after)
            &&& nodes_kept(before, after)
            &&& after.execution_state == ExecutionState::Cancelled
            &&& after.finished_at == Some(timestamp)
            &&& after.started_at == before.started_at
            &&& after.output == before.output
            &&& after.error == before.error
        },
    }
}

/// `states` traces the replay of `evs` from `s0`: each state is the one
/// before it with the next event applied.
pub open spec fn is_replay_trace(s0: RunState, evs: Seq<ExecutionEvent>, states: Seq<RunState>) -> bool {
    &&& states.len() == evs.len() + 1
    &&& states[0] == s0
    &&& forall|i: int| 0 <= i < evs.len() ==> #[trigger] event_applied(states[i], evs[i], states[i + 1])
}

/// `s` is `s0` with the events applied in order.
pub open spec fn replays(s0: RunState, evs: Seq<ExecutionEvent>, s: RunState) -> bool {
    exists|states: Seq<RunState>| #[trigger] is_replay_trace(s0, evs, states) && states.last() == s
}

/// A fresh record of node `key` in run `run_id`: pending, nothing recorded.
pub open spec fn pending_record(r: NodeExecution, run_id: WorkflowRunId, key: u128) -> bool {
    &&& r.run_id == run_id
    &&& r.node_id.0 == key
    &&& r.state == NodeExecutionState::Pending
    &&& r.started_at is None
    &&& r.finished_at is None
    &&& r.input is None
    &&& r.output_key is None
    &&& r.error is None
}

/// `s` is the state of a run of `g` just queued by `first`: its run fields
/// come from the event, its remaining work is all of `g`, and every node of
/// `g` has a fresh record.
pub open spec fn initial_state(g: &WorkflowGraph, first: ExecutionEvent, s: RunState) -> bool {
    match first {
        ExecutionEvent::RunQueued { run_id, workflow_id, trigger_id, input, timestamp } => {
            &&& s.run_id == run_id
            &&& s.workflow_id == workflow_id
            &&& s.trigger_id == trigger_id
            &&& s.execution_state == ExecutionState::Queued
            &&& s.queued_at == timestamp
            &&& s.started_at is None
            &&& s.finished_at is None
            &&& s.input == input
            &&& s.output is None
            &&& s.error is None
            &&& built_from_workflow(g, s.work())
            &&& forall|k: u128|
                #[trigger] s.node_states@.contains_key(k) <==> exists|i: int|
                    0 <= i < g.node_seq().len() && g.node_seq()[i].id.0 == k
            &&& forall|k: u128| #[trigger]
                s.node_states@.contains_key(k) ==> pending_record(s.node_states@[k], run_id, k)
        },
        _ => false,
    }
}

/// Some event after the first queues the run again.
pub open spec fn queued_again(evs: Seq<ExecutionEvent>) -> bool {
    exists|i: int| 1 <= i < evs.len() && #[trigger] evs[i] is RunQueued
}

/// What rebuilding a run of `g` from the events `evs` gives: an error when
/// there is no event, when the first does not queue the run, or when a later
/// one queues it again; otherwise a well-formed state that is the initial
/// state of the run with the remaining events replayed.
pub open spec fn rebuild_outcome(g: &WorkflowGraph, evs: Seq<ExecutionEvent>, r: Result<RunState, RunStateError>) -> bool {
    if evs.len() == 0 {
        r == Err::<RunState, RunStateError>(RunStateError::NoEvents)
    } else if !(evs[0] is RunQueued) {
        r == Err::<RunState, RunStateError>(RunStateError::MissingRunQueued)
    } else if queued_again(evs) {
        r == Err::<RunState, RunStateError>(RunStateError::DuplicateRunQueued)
    } else {
        &&& r is Ok
        &&& r->Ok_0.wf()
        &&& exists|s0: RunState| initial_state(g, evs[0], s0) && #[trigger] replays(s0, evs.skip(1), r->Ok_0)
    }
}

/// Rebuilding from a log with one more event gives the state with that
/// event applied: the live state of a run that has followed every event it
/// published (each recorded as its replay step) is a rebuild of those
/// events.
pub proof fn law_rebuild_extends(
    g: &WorkflowGraph,
    evs: Seq<ExecutionEvent>,
    s: RunState,
    e: ExecutionEvent,
    t: RunState,
)
    requires
        rebuild_outcome(g, evs, Ok::<RunState, RunStateError>(s)),
        event_applied(s, e, t),
        t.wf(),
    ensures
        rebuild_outcome(g, evs.push(e), Ok::<RunState, RunStateError>(t)),
{
    let s0 = choose|s0: RunState| initial_state(g, evs[0], s0) && #[trigger] replays(s0, evs.skip(1), s);
    let trace = choose|states: Seq<RunState>| #[trigger] is_replay_trace(s0, evs.skip(1), states) && states.last() == s;
    let evs2 = evs.push(e);
    let rest = evs2.skip(1);
    assert(rest =~= evs.skip(1).push(e));
    let trace2 = trace.push(t);
    assert forall|i: int| 0 <= i < rest.len() implies #[trigger] event_applied(trace2[i], rest[i], trace2[i + 1]) by {
        if i < rest.len() - 1 {
            assert(trace2[i] == trace[i]);
            assert(trace2[i + 1] == trace[i + 1]);
            assert(rest[i] == evs.skip(1)[i]);
        } else {
            assert(trace2[i] == s);
            assert(rest[i] == e);
        }
    }
    assert(is_replay_trace(s0, rest, trace2));
    assert(replays(s0, rest, t));
    assert(evs2[0] == evs[0]);
    assert(!queued_again(evs2)) by {
        if exists|i: int| 1 <= i < evs2.len() && #[trigger] evs2[i] is RunQueued {
            let i = choose|i: int| 1 <= i < evs2.len() && #[trigger] evs2[i] is RunQueued;
            if i < evs.len() {
                assert(evs[i] is RunQueued);
            }
        }
    }
}

/// Two node records agree on everything but their own identifier and the
/// times they started and finished.
pub open spec fn records_agree(a: NodeExecution, b: NodeExecution) -> bool {
    &&& a.run_id == b.run_id
    &&& a.node_id == b.node_id
    &&& a.state == b.state
    &&& a.input == b.input
    &&& a.output_key == b.output_key
    &&& a.error == b.error
}

/// Two remaining works agree on their nodes, edges, executing and failed
/// nodes (and so on which nodes are ready, whether any failed and whether
/// the run is complete).
pub open spec fn works_agree(a: RemainingWorkGraph, b: RemainingWorkGraph) -> bool {
    &&& a.ids() == b.ids()
    &&& a.links() == b.links()
    &&& a.executing_set() == b.executing_set()
    &&& a.failed_set() == b.failed_set()
}

/// Two run states agree on every run field, on every node's record but its
/// identifier and times, and on the remaining work.
pub open spec fn states_agree(a: RunState, b: RunState) -> bool {
    &&& a.run_id == b.run_id
    &&& a.workflow_id == b.workflow_id
    &&& a.trigger_id == b.trigger_id
    &&& a.execution_state == b.execution_state
    &&& a.queued_at == b.queued_at
    &&& a.started_at == b.started_at
    &&& a.finished_at == b.finished_at
    &&& a.input == b.input
    &&& a.output == b.output
    &&& a.error == b.error
    &&& a.node_states@.dom() == b.node_states@.dom()
    &&& forall|k: u128| #[trigger] a.node_states@.contains_key(k) ==> records_agree(a.node_states@[k], b.node_states@[k])
    &&& works_agree(a.work(), b.work())
}

/// Two initial states of the same run agree.
proof fn lemma_initial_agree(g: &WorkflowGraph, e: ExecutionEvent, a: RunState, b: RunState)
    requires
        initial_state(g, e, a),
        initial_state(g, e, b),
    ensures
        states_agree(a, b),
        a.wf(),
        b.wf(),
{
    assert(a.node_states@.dom() =~= b.node_states@.dom());
    assert(a.work().executing_set() =~= b.work().executing_set());
    assert(a.work().failed_set() =~= b.work().failed_set());
    assert(a.work().index_map() == b.work().index_map());
    assert forall|p: (int, int)| a.work().links().contains(p) <==> b.work().links().contains(p) by {
        assert(a.work().links().contains((p.0, p.1)) == a.work().links().contains(p));
        assert(b.work().links().contains((p.0, p.1)) == b.work().links().contains(p));
    }
    assert(a.work().links() =~= b.work().links());
}

/// A record update applied to agreeing maps of records gives agreeing maps,
/// when the update keeps agreement.
proof fn lemma_records_update_agree(
    a1: Map<u128, NodeExecution>,
    a2: Map<u128, NodeExecution>,
    b1: Map<u128, NodeExecution>,
    b2: Map<u128, NodeExecution>,
    id: NodeId,
    upd: spec_fn(NodeExecution, NodeExecution) -> bool,
)
    requires
        a1.dom() == a2.dom(),
        forall|k: u128| #[trigger] a1.contains_key(k) ==> records_agree(a1[k], a2[k]),
        record_updated(a1, b1, id, upd),
        record_updated(a2, b2, id, upd),
        a1.contains_key(id.0) ==> records_agree(b1[id.0], b2[id.0]),
    ensures
        b1.dom() == b2.dom(),
        forall|k: u128| #[trigger] b1.contains_key(k) ==> records_agree(b1[k], b2[k]),
{
    assert(b1.dom() =~= b2.dom());
    assert forall|k: u128| #[trigger] b1.contains_key(k) implies records_agree(b1[k], b2[k]) by {
        if k != id.0 || !a1.contains_key(id.0) {
            assert(a1.contains_key(k));
        }
    }
}

/// Applying the same event to agreeing well-formed states gives agreeing
/// well-formed states.
proof fn lemma_step_agree(a1: RunState, a2: RunState, e: ExecutionEvent, b1: RunState, b2: RunState)
    requires
        states_agree(a1, a2),
        a1.wf(),
        a2.wf(),
        event_applied(a1, e, b1),
        event_applied(a2, e, b2),
    ensures
        states_agree(b1, b2),
        b1.wf(),
        b2.wf(),
{
    let w1 = a1.work();
    let w2 = a2.work();
    assert(w1.index_map() == w2.index_map());
    match e {
        ExecutionEvent::NodeStarted { node_id, input, .. } => {
            lemma_records_update_agree(
                a1.node_states@,
                a2.node_states@,
                b1.node_states@,
                b2.node_states@,
                node_id,
                |a: NodeExecution, b: NodeExecution| record_started(a, b, input),
            );
            assert(b1.work().executing_set() =~= b2.work().executing_set());
        },
        ExecutionEvent::NodeCompleted { node_id, output_key, .. } => {
            lemma_records_update_agree(
                a1.node_states@,
                a2.node_states@,
                b1.node_states@,
                b2.node_states@,
                node_id,
                |a: NodeExecution, b: NodeExecution| record_completed(a, b, output_key),
            );
            lemma_completed_agree(w1, w2, b1.work(), b2.work(), node_id);
        },
        ExecutionEvent::NodeSkipped { node_id, .. } => {
            lemma_records_update_agree(
                a1.node_states@,
                a2.node_states@,
                b1.node_states@,
                b2.node_states@,
                node_id,
                |a: NodeExecution, b: NodeExecution| record_skipped(a, b),
            );
            lemma_completed_agree(w1, w2, b1.work(), b2.work(), node_id);
        },
        ExecutionEvent::NodeFailed { node_id, error, .. } => {
            lemma_records_update_agree(
                a1.node_states@,
                a2.node_states@,
                b1.node_states@,
                b2.node_states@,
                node_id,
                |a: NodeExecution, b: NodeExecution| record_failed(a, b, error),
            );
            assert(b1.work().executing_set() =~= b2.work().executing_set());
            if w1.in_graph(node_id) {
                assert(b1.work().links() =~= b2.work().links());
                assert(b1.work().failed_set() =~= b2.work().failed_set());
            }
        },
        _ => {},
    }
}

/// Marking the same node completed in agreeing well-formed remaining works
/// gives agreeing ones.
proof fn lemma_completed_agree(
    a1: RemainingWorkGraph,
    a2: RemainingWorkGraph,
    b1: RemainingWorkGraph,
    b2: RemainingWorkGraph,
    id: NodeId,
)
    requires
        works_agree(a1, a2),
        a1.wf(),
        a2.wf(),
        completed_marked(a1, b1, id),
        completed_marked(a2, b2, id),
    ensures
        works_agree(b1, b2),
{
    assert(a1.index_map() == a2.index_map());
    assert(b1.executing_set() =~= b2.executing_set());
    assert(b1.failed_set() =~= b2.failed_set());
    if a1.in_graph(id) {
        assert forall|p: (int, int)| b1.links().contains(p) <==> b2.links().contains(p) by {
            assert(b1.links().contains((p.0, p.1)) == b1.links().contains(p));
            assert(b2.links().contains((p.0, p.1)) == b2.links().contains(p));
        }
        assert(b1.links() =~= b2.links());
    }
}

/// Rebuilding a run from the same events can only give agreeing states:
/// every run field, every node's state, input, output key and error, and
/// the remaining work (so the ready nodes, the failures and completion) are
/// fixed by the events; only record identifiers and node times are not.
pub proof fn law_rebuild_unique(
    g: &WorkflowGraph,
    evs: Seq<ExecutionEvent>,
    s1: RunState,
    s2: RunState,
)
    requires
        rebuild_outcome(g, evs, Ok::<RunState, RunStateError>(s1)),
        rebuild_outcome(g, evs, Ok::<RunState, RunStateError>(s2)),
    ensures
        states_agree(s1, s2),
{
    let rest = evs.skip(1);
    let i1 = choose|s0: RunState| initial_state(g, evs[0], s0) && #[trigger] replays(s0, rest, s1);
    let i2 = choose|s0: RunState| initial_state(g, evs[0], s0) && #[trigger] replays(s0, rest, s2);
    let t1 = choose|states: Seq<RunState>| #[trigger] is_replay_trace(i1, rest, states) && states.last() == s1;
    let t2 = choose|states: Seq<RunState>| #[trigger] is_replay_trace(i2, rest, states) && states.last() == s2;
    lemma_initial_agree(g, evs[0], i1, i2);
    lemma_traces_agree(rest, t1, t2, rest.len() as int);
}

/// Two replay traces of the same events from agreeing well-formed states
/// agree at every step.
proof fn lemma_traces_agree(evs: Seq<ExecutionEvent>, t1: Seq<RunState>, t2: Seq<RunState>, k: int)
    requires
        t1.len() == evs.len() + 1,
        t2.len() == evs.len() + 1,
        forall|i: int| 0 <= i < evs.len() ==> #[trigger] event_applied(t1[i], evs[i], t1[i + 1]),
        forall|i: int| 0 <= i < evs.len() ==> #[trigger] event_applied(t2[i], evs[i], t2[i + 1]),
        states_agree(t1[0], t2[0]),
        t1[0].wf(),
        t2[0].wf(),
        0 <= k <= evs.len(),
    ensures
        states_agree(t1[k], t2[k]),
        t1[k].wf(),
        t2[k].wf(),
    decreases k,
{
    if k > 0 {
        lemma_traces_agree(evs, t1, t2, k - 1);
        let j = k - 1;
        assert(event_applied(t1[j], evs[j], t1[j + 1]));
        assert(event_applied(t2[j], evs[j], t2[j + 1]));
        lemma_step_agree(t1[j], t2[j], evs[j], t1[j + 1], t2[j + 1]);
    }
}

impl RunState {
    /// The remaining work of the run.
    pub open spec fn work(&self) -> RemainingWorkGraph {
        self.remaining_work
    }

    /// Well-formedness: the remaining work is well formed.
    pub open spec fn wf(&self) -> bool {
        self.work().wf()
    }

    /// The nodes ready to execute, in index order.
    pub fn ready_nodes(&self) -> (r: Vec<NodeId>)
        requires
            self.wf(),
        ensures
            r@ == self.work().ready_spec(),
    {
        self.remaining_work.ready_nodes()
    }

    /// Whether the run is complete: its state is final, or no work is left
    /// that could run.
    pub fn is_complete(&self) -> (r: bool)
        requires
            self.wf(),
        ensures
            r == (run_terminal(self.execution_state) || (self.work().executing_seq().len() == 0
                && self.work().ready_spec().len() == 0)),
    {
        self.execution_state.is_terminal() || self.remaining_work.is_complete()
    }

    /// Whether any node has failed.
    pub fn has_failures(&self) -> (r: bool)
        ensures
            r == (self.work().failed_seq().len() > 0),
    {
        self.remaining_work.has_failures()
    }

    /// The remaining work, for inspection.
    pub fn remaining_work(&self) -> (r: &RemainingWorkGraph)
        ensures
            *r == self.work(),
    {
        &self.remaining_work
    }

    /// Marks a node as executing, in the remaining work and in its record.
    pub fn mark_node_executing(&mut self, node_id: NodeId, input: Option<Json>)
        requires
            old(self).wf(),
        ensures
            final(self).wf(),
            run_kept(*old(self), *final(self)),
            outcome_kept(*old(self), *final(self)),
            executing_marked(old(self).work(), final(self).work(), node_id),
            record_updated(
                old(self).node_states@,
                final(self).node_states@,
                node_id,
                |a: NodeExecution, b: NodeExecution| record_started(a, b, input),
            ),
    {
        self.remaining_work.mark_executing(node_id);
        match self.node_states.remove(&node_id.0) {
            Some(record) => {
                let mut record = record;
                record.start(input);
                self.node_states.insert(node_id.0, record);
                proof {
                    assert(self.node_states@ =~= old(self).node_states@.insert(node_id.0, self.node_states@[node_id.0]));
                }
            },
            None => {
                assert(self.node_states@ =~= old(self).node_states@);
            },
        }
    }

    /// Marks a node as completed, in the remaining work and in its record.
    pub fn mark_node_completed(&mut self, node_id: NodeId, output_key: String)
        requires
            old(self).wf(),
        ensures
            final(self).wf(),
            run_kept(*old(self), *final(self)),
            outcome_kept(*old(self), *final(self)),
            completed_marked(old(self).work(), final(self).work(), node_id),
            record_updated(
                old(self).node_states@,
                final(self).node_states@,
                node_id,
                |a: NodeExecution, b: NodeExecution| record_completed(a, b, output_key),
            ),
    {
        self.remaining_work.mark_completed(node_id);
        match self.node_states.remove(&node_id.0) {
            Some(record) => {
                let mut record = record;
                record.complete(output_key);
                self.node_states.insert(node_id.0, record);
                proof {
                    assert(self.node_states@ =~= old(self).node_states@.insert(node_id.0, self.node_states@[node_id.0]));
                }
            },
            None => {
                assert(self.node_states@ =~= old(self).node_states@);
            },
        }
    }

    /// Marks a node as failed, in the remaining work and in its record.
    pub fn mark_node_failed(&mut self, node_id: NodeId, error: String)
        requires
            old(self).wf(),
            old(self).work().in_graph(node_id) ==> old(self).work().link_count() < INDEX_LIMIT,
        ensures
            final(self).wf(),
            run_kept(*old(self), *final(self)),
            outcome_kept(*old(self), *final(self)),
            failed_marked(old(self).work(), final(self).work(), node_id),
            record_updated(
                old(self).node_states@,
                final(self).node_states@,
                node_id,
                |a: NodeExecution, b: NodeExecution| record_failed(a, b, error),
            ),
    {
        self.remaining_work.mark_failed(node_id);
        match self.node_states.remove(&node_id.0) {
            Some(record) => {
                let mut record = record;
                record.fail(error);
                self.node_states.insert(node_id.0, record);
                proof {
                    assert(self.node_states@ =~= old(self).node_states@.insert(node_id.0, self.node_states@[node_id.0]));
                }
            },
            None => {
                assert(self.node_states@ =~= old(self).node_states@);
            },
        }
    }

    /// Marks a node as skipped, in the remaining work and in its record.
    pub fn mark_node_skipped(&mut self, node_id: NodeId)
        requires
            old(self).wf(),
        ensures
            final(self).wf(),
            run_kept(*old(self), *final(self)),
            outcome_kept(*old(self), *final(self)),
            completed_marked(old(self).work(), final(self).work(), node_id),
            record_updated(
                old(self).node_states@,
                final(self).node_states@,
                node_id,
                |a: NodeExecution, b: NodeExecution| record_skipped(a, b),
            ),
    {
        self.remaining_work.mark_skipped(node_id);
        match self.node_states.remove(&node_id.0) {
            Some(record) => {
                let mut record = record;
                record.skip();
                self.node_states.insert(node_id.0, record);
                proof {
                    assert(self.node_states@ =~= old(self).node_states@.insert(node_id.0, self.node_states@[node_id.0]));
                }
            },
            None => {
                assert(self.node_states@ =~= old(self).node_states@);
            },
        }
    }

    /// Finishes the run as completed with the given output.
    pub fn complete(&mut self, output: Option<Json>, timestamp: i64)
        ensures
            run_kept(*old(self), *final(self)),
            nodes_kept(*old(self), *final(self)),
            final(self).execution_state == ExecutionState::Completed,
            final(self).finished_at == Some(timestamp),
            final(self).output == output,
            final(self).started_at == old(self).started_at,
            final(self).error == old(self).error,
    {
        self.execution_state = ExecutionState::Completed;
        self.finished_at = Some(timestamp);
        self.output = output;
    }

    /// Finishes the run as failed with the given error.
    pub fn fail(&mut self, error: String, timestamp: i64)
        ensures
            run_kept(*old(self), *final(self)),
            nodes_kept(*old(self), *final(self)),
            final(self).execution_state == ExecutionState::Failed,
            final(self).finished_at == Some(timestamp),
            final(self).error == Some(error),
            final(self).started_at == old(self).started_at,
            final(self).output == old(self).output,
    {
        self.execution_state = ExecutionState::Failed;
        self.finished_at = Some(timestamp);
        self.error = Some(error);
    }

    /// Finishes the run as cancelled.
    pub fn cancel(&mut self, timestamp: i64)
        ensures
            run_kept(*old(self), *final(self)),
            nodes_kept(*old(self), *final(self)),
            final(self).execution_state == ExecutionState::Cancelled,
            final(self).finished_at == Some(timestamp),
            final(self).started_at == old(self).started_at,
            final(self).output == old(self).output,
            final(self).error == old(self).error,
    {
        self.execution_state = ExecutionState::Cancelled;
        self.finished_at = Some(timestamp);
    }
}

/// Applies one event to the state of a run. An event that queues the run
/// again is an error and leaves the state as it is.
fn apply_event(state: &mut RunState, event: ExecutionEvent) -> (r: Result<(), RunStateError>)
    requires
        old(state).wf(),
        old(state).work().link_count() < INDEX_LIMIT,
    ensures
        final(state).wf(),
        event is RunQueued ==> r == Err::<(), RunStateError>(RunStateError::DuplicateRunQueued) && *final(state)
            == *old(state),
        !(event is RunQueued) ==> r is Ok && event_applied(*old(state), event, *final(state)),
        final(state).work().link_count() <= old(state).work().link_count() + 1,
{
    match event {
        ExecutionEvent::RunQueued { .. } => {
            return Err(RunStateError::DuplicateRunQueued);
        },
        ExecutionEvent::RunStarted { timestamp, .. } => {
            state.execution_state = ExecutionState::Running;
            state.started_at = Some(timestamp);
        },
        ExecutionEvent::NodeStarted { node_id, input, .. } => {
            state.mark_node_executing(node_id, input);
        },
        ExecutionEvent::NodeCompleted { node_id, output_key, .. } => {
            state.mark_node_completed(node_id, output_key);
        },
        ExecutionEvent::NodeFailed { node_id, error, .. } => {
            state.mark_node_failed(node_id, error);
        },
        ExecutionEvent::NodeSkipped { node_id, .. } => {
            state.mark_node_skipped(node_id);
        },
        ExecutionEvent::RunCompleted { output, timestamp, .. } => {
            state.complete(output, timestamp);
        },
        ExecutionEvent::RunFailed { error, timestamp, .. } => {
            state.fail(error, timestamp);
        },
        ExecutionEvent::RunCancelled { timestamp, .. } => {
            state.cancel(timestamp);
        },
    }
    Ok(())
}

/// Rebuilds the state of runs of one workflow graph from their events.
pub struct RunStateBuilder {
    workflow_graph: WorkflowGraph,
}

impl RunStateBuilder {
    /// The workflow graph the runs execute.
    pub closed spec fn graph(&self) -> WorkflowGraph {
        self.workflow_graph
    }

    /// A builder for runs of the given workflow graph.
    pub fn new(workflow_graph: WorkflowGraph) -> (r: Self)
        ensures
            r.graph() == workflow_graph,
    {
        RunStateBuilder { workflow_graph }
    }

    /// Rebuilds the state of a run from its events, earliest first. The first
    /// event must queue the run and no later one may queue it again.
    pub fn build_from_events(&self, events: Vec<ExecutionEvent>) -> (r: Result<RunState, RunStateError>)
        requires
            self.graph().successor_entry_total(self.graph().node_seq().len() as int) + events@.len() <= INDEX_LIMIT,
        ensures
            rebuild_outcome(&self.graph(), events@, r),
    {
        rebuild_run(&self.workflow_graph, events)
    }
}

/// Rebuilds the state of a run from its events, earliest first. The first
/// event must queue the run and no later one may queue it again.
pub fn rebuild_run(graph: &WorkflowGraph, events: Vec<ExecutionEvent>) -> (r: Result<RunState, RunStateError>)
    requires
        graph.successor_entry_total(graph.node_seq().len() as int) + events@.len() <= INDEX_LIMIT,
    ensures
        rebuild_outcome(graph, events@, r),
{
    let ghost evs = events@;
    let n = events.len();
    let mut pending = events;
    let mut rest: Vec<ExecutionEvent> = Vec::new();
    while pending.len() > 0
        invariant
            pending@.len() + rest@.len() == n,
            n == evs.len(),
            pending@ == evs.subrange(0, pending@.len() as int),
            forall|k: int| 0 <= k < rest@.len() ==> #[trigger] rest@[k] == evs[n - 1 - k],
        decreases pending@.len(),
    {
        let e = pending.pop().unwrap();
        rest.push(e);
    }
    let first = match rest.pop() {
        Some(e) => e,
        None => return Err(RunStateError::NoEvents),
    };
    assert(first == evs[0]);
    let (run_id, workflow_id, trigger_id, input, queued_at) = match first {
        ExecutionEvent::RunQueued { run_id, workflow_id, trigger_id, input, timestamp } => (
            run_id,
            workflow_id,
            trigger_id,
            input,
            timestamp,
        ),
        _ => return Err(RunStateError::MissingRunQueued),
    };
    let remaining_work = RemainingWorkGraph::from_workflow(graph);
    let mut node_states: HashMap<u128, NodeExecution> = HashMap::new();
    let nodes = graph.nodes();
    let ghost gs = graph.node_seq();
    let mut i: usize = 0;
    while i < nodes.len()
        invariant
            crate::workflow::graph::deref_nodes(nodes@) == gs,
            gs == graph.node_seq(),
            i <= nodes@.len(),
            forall|k: u128|
                #[trigger] node_states@.contains_key(k) <==> exists|j: int| 0 <= j < i && gs[j].id.0 == k,
            forall|k: u128| #[trigger] node_states@.contains_key(k) ==> pending_record(node_states@[k], run_id, k),
        decreases nodes@.len() - i,
    {
        let id = nodes[i].id;
        assert(id == gs[i as int].id) by {
            assert(crate::workflow::graph::deref_nodes(nodes@)[i as int] == *nodes@[i as int]);
        }
        node_states.insert(id.0, NodeExecution::new(run_id, id));
        proof {
            assert forall|k: u128|
                #[trigger] node_states@.contains_key(k) <==> exists|j: int| 0 <= j < i + 1 && gs[j].id.0 == k by {
                if k != id.0 && node_states@.contains_key(k) {
                    let j = choose|j: int| 0 <= j < i && gs[j].id.0 == k;
                    assert(0 <= j < i + 1);
                }
                if exists|j: int| 0 <= j < i + 1 && gs[j].id.0 == k {
                    let j = choose|j: int| 0 <= j < i + 1 && gs[j].id.0 == k;
                    if j < i {
                        assert(exists|j2: int| 0 <= j2 < i && gs[j2].id.0 == k);
                    }
                }
            }
        }
        i = i + 1;
    }
    assert(crate::workflow::graph::deref_nodes(nodes@).len() == nodes@.len());
    let mut state = RunState {
        run_id,
        workflow_id,
        trigger_id,
        execution_state: ExecutionState::Queued,
        queued_at,
        started_at: None,
        finished_at: None,
        input,
        output: None,
        error: None,
        node_states,
        remaining_work,
    };
    let ghost s0 = state;
    let ghost mut trace: Seq<RunState> = seq![state];
    assert(initial_state(graph, evs[0], s0));
    assert(evs.skip(1).subrange(0, 0) =~= Seq::<ExecutionEvent>::empty());
    let mut i: usize = 1;
    while rest.len() > 0
        invariant
            n == evs.len(),
            evs == events@,
            evs[0] is RunQueued,
            1 <= i <= n,
            rest@.len() == n - i,
            forall|k: int| 0 <= k < rest@.len() ==> #[trigger] rest@[k] == evs[n - 1 - k],
            state.wf(),
            state.work().link_count() <= graph.successor_entry_total(graph.node_seq().len() as int)
                + i - 1,
            graph.successor_entry_total(graph.node_seq().len() as int) + n <= INDEX_LIMIT,
            forall|k: int| 1 <= k < i ==> !(#[trigger] evs[k] is RunQueued),
            is_replay_trace(s0, evs.skip(1).subrange(0, i - 1), trace),
            trace.last() == state,
        decreases rest@.len(),
    {
        let event = rest.pop().unwrap();
        assert(event == evs[i as int]);
        let ghost before = state;
        let ghost ev = event;
        match apply_event(&mut state, event) {
            Ok(()) => {},
            Err(e) => {
                assert(evs[i as int] is RunQueued);
                assert(queued_again(evs));
                return Err(e);
            },
        }
        proof {
            let sk = evs.skip(1);
            let prev = sk.subrange(0, i - 1);
            let next = sk.subrange(0, i as int);
            let t2 = trace.push(state);
            assert(!(ev is RunQueued));
            assert(next[i - 1] == ev);
            assert forall|k: int| 0 <= k < next.len() implies #[trigger] event_applied(t2[k], next[k], t2[k + 1]) by {
                if k < i - 1 {
                    assert(next[k] == prev[k]);
                    assert(event_applied(trace[k], prev[k], trace[k + 1]));
                }
            }
            trace = t2;
        }
        i = i + 1;
    }
    proof {
        assert(evs.skip(1).subrange(0, n - 1) =~= evs.skip(1));
        assert(!queued_again(evs));
        assert(is_replay_trace(s0, evs.skip(1), trace));
        assert(replays(s0, evs.skip(1), state));
    }
    Ok(state)
}

} // verus!
