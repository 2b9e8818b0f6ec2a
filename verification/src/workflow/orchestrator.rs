//! Orchestration of one workflow run: the decisions of the execution loop.
//!
//! An orchestrator owns one run. The loop around it publishes what each
//! decision asks for (events and work items) and feeds back what workers
//! report; each decision here says what to publish and how the state of the
//! run changes once it has been published:
//! 1. a new run is queued, or an existing one is rebuilt from its events;
//! 2. the run starts, and its ready nodes become work items;
//! 3. each work result is recorded, after which either the run is finalized
//!    (nothing more can run) or the newly ready nodes are scheduled.

use vstd::prelude::*;
use crate::support::json::{Json, JsonView, members_view, insert_member, members_insert};
use crate::support::text::{owned, concat2};
use crate::platform_core::id::{WorkflowRunId, id_text};
use crate::workflow::node::NodeId;
use crate::workflow::edge::Edge;
use crate::workflow::graph_store::INDEX_LIMIT;
use crate::workflow::execution::{ExecutionEvent, ExecutionState, run_terminal};
use crate::workflow::definition::Workflow;
use crate::workflow::graph::WorkflowGraph;
use crate::workflow::run_state::{
    RunState, RunStateError, event_applied, rebuild_run, rebuild_outcome, run_state_error_text, law_rebuild_extends,
    law_rebuild_unique, states_agree,
};

verus! {

broadcast use vstd::std_specs::hash::group_hash_axioms;

/// A unit of work for a worker: one node of one run, with its inputs.
#[derive(Debug)]
pub struct WorkItem {
    /// The run.
    pub run_id: WorkflowRunId,
    /// The node to execute.
    pub node_id: NodeId,
    /// Inputs: input port name and the object store key of the value, each
    /// port once.
    pub inputs: Vec<(String, String)>,
}

/// What a worker reports for a work item.
#[derive(Debug)]
pub enum WorkItemResult {
    /// The node executed successfully.
    Completed { run_id: WorkflowRunId, node_id: NodeId, output_key: String },
    /// The node failed.
    Failed { run_id: WorkflowRunId, node_id: NodeId, error: String },
}

/// Errors of event persistence and messaging.
#[derive(Debug, Clone, PartialEq, Eq)]
pub enum EventStoreError {
    /// Could not connect to the event store.
    ConnectionFailed { message: String },
    /// Could not publish.
    PublishFailed { message: String },
    /// Could not load events.
    LoadFailed { message: String },
}

/// The message of an event store error.
pub open spec fn event_store_error_text(e: EventStoreError) -> Seq<char> {
    match e {
        EventStoreError::ConnectionFailed { message } => "event store connection failed: "@ + message@,
        EventStoreError::PublishFailed { message } => "event publish failed: "@ + message@,
        EventStoreError::LoadFailed { message } => "event load failed: "@ + message@,
    }
}

impl EventStoreError {
    /// The message of this error.
    pub fn to_string(&self) -> (s: String)
        ensures
            s@ == event_store_error_text(*self),
    {
        match self {
            EventStoreError::ConnectionFailed { message } => concat2("event store connection failed: ", message.as_str()),
            EventStoreError::PublishFailed { message } => concat2("event publish failed: ", message.as_str()),
            EventStoreError::LoadFailed { message } => concat2("event load failed: ", message.as_str()),
        }
    }
}

/// Errors of orchestration.
#[derive(Debug, Clone, PartialEq, Eq)]
pub enum OrchestratorError {
    /// The event store failed.
    EventStore(EventStoreError),
    /// The run could not be rebuilt from its events.
    RunState(RunStateError),
    /// There is no such run (or no run yet).
    RunNotFound { run_id: WorkflowRunId },
    /// The run already reached a final state.
    RunAlreadyTerminal { run_id: WorkflowRunId },
    /// The workflow graph, with the run's events, exceeds the 32-bit index
    /// space of the graph store.
    GraphTooLarge,
}

/// The message of an orchestration error.
pub open spec fn orchestrator_error_text(e: OrchestratorError) -> Seq<char> {
    match e {
        OrchestratorError::EventStore(x) => "event store error: "@ + event_store_error_text(x),
        OrchestratorError::RunState(x) => "run state error: "@ + run_state_error_text(x),
        OrchestratorError::RunNotFound { run_id } => "run not found: "@ + id_text("run"@, run_id.0),
        OrchestratorError::RunAlreadyTerminal { run_id } => "run already in terminal state: "@ + id_text(
            "run"@,
            run_id.0,
        ),
        OrchestratorError::GraphTooLarge => "workflow graph exceeds the index capacity of its graph store"@,
    }
}

impl OrchestratorError {
    /// The message of this error.
    pub fn to_string(&self) -> (s: String)
        ensures
            s@ == orchestrator_error_text(*self),
    {
        match self {
            OrchestratorError::EventStore(x) => concat2("event store error: ", x.to_string().as_str()),
            OrchestratorError::RunState(x) => concat2("run state error: ", x.to_string().as_str()),
            OrchestratorError::RunNotFound { run_id } => concat2("run not found: ", run_id.to_string().as_str()),
            OrchestratorError::RunAlreadyTerminal { run_id } => concat2(
                "run already in terminal state: ",
                run_id.to_string().as_str(),
            ),
            OrchestratorError::GraphTooLarge => owned("workflow graph exceeds the index capacity of its graph store"),
        }
    }
}

impl From<EventStoreError> for OrchestratorError {
    fn from(e: EventStoreError) -> (r: Self) {
        OrchestratorError::EventStore(e)
    }
}

impl vstd::std_specs::convert::FromSpecImpl<EventStoreError> for OrchestratorError {
    open spec fn obeys_from_spec() -> bool {
        true
    }

    open spec fn from_spec(e: EventStoreError) -> Self {
        OrchestratorError::EventStore(e)
    }
}

impl From<RunStateError> for OrchestratorError {
    fn from(e: RunStateError) -> (r: Self) {
        OrchestratorError::RunState(e)
    }
}

impl vstd::std_specs::convert::FromSpecImpl<RunStateError> for OrchestratorError {
    open spec fn obeys_from_spec() -> bool {
        true
    }

    open spec fn from_spec(e: RunStateError) -> Self {
        OrchestratorError::RunState(e)
    }
}

/// What comes after a work result has been recorded.
#[derive(Debug, Clone, Copy, PartialEq, Eq, Structural)]
pub enum NextStep {
    /// Nothing more can run: finalize the run.
    Finalize,
    /// Schedule the nodes that are ready now.
    ScheduleReady,
}

/// The event that records a worker's result, at `timestamp`.
pub open spec fn reported_event(result: WorkItemResult, timestamp: i64) -> ExecutionEvent {
    match result {
        WorkItemResult::Completed { run_id, node_id, output_key } => ExecutionEvent::NodeCompleted {
            run_id,
            node_id,
            output_key,
            timestamp,
        },
        WorkItemResult::Failed { run_id, node_id, error } => ExecutionEvent::NodeFailed {
            run_id,
            node_id,
            error,
            timestamp,
        },
    }
}

/// The message of a run that failed because nodes failed.
pub open spec fn node_failure_message() -> Seq<char> {
    "workflow failed due to node failures"@
}

/// The views of input pairs (port, object store key).
pub open spec fn pairs_view(v: Seq<(String, String)>) -> Seq<(Seq<char>, Seq<char>)> {
    Seq::new(v.len(), |i: int| (v[i].0@, v[i].1@))
}

/// The ports of input pairs are distinct.
pub open spec fn distinct_ports(v: Seq<(Seq<char>, Seq<char>)>) -> bool {
    forall|i: int, j: int| 0 <= i < j < v.len() ==> v[i].0 != v[j].0
}

/// The members of the JSON object of the first `k` input pairs: each pair
/// sets member `port` to the string `key`.
pub open spec fn inputs_members(v: Seq<(Seq<char>, Seq<char>)>, k: int) -> Seq<(Seq<char>, JsonView)>
    decreases k,
{
    if k <= 0 {
        Seq::empty()
    } else {
        members_insert(inputs_members(v, k - 1), v[k - 1].0, JsonView::Str(v[k - 1].1))
    }
}

/// Sets the value of `port` in a list of input pairs: replaced in place, or
/// added at the end.
fn set_input(inputs: &mut Vec<(String, String)>, port: String, key: String)
    requires
        distinct_ports(pairs_view(old(inputs)@)),
    ensures
        distinct_ports(pairs_view(final(inputs)@)),
        forall|p: Seq<char>, v: Seq<char>|
            #[trigger] pairs_view(final(inputs)@).contains((p, v)) <==> (p == port@ && v == key@) || (p != port@
                && pairs_view(old(inputs)@).contains((p, v))),
{
    let ghost before = pairs_view(inputs@);
    let mut k: usize = 0;
    while k < inputs.len()
        invariant
            k <= inputs.len(),
            inputs@ == old(inputs)@,
            before == pairs_view(inputs@),
            distinct_ports(before),
            forall|j: int| 0 <= j < k ==> inputs@[j].0@ != port@,
        decreases inputs.len() - k,
    {
        if crate::support::text::str_eq(inputs[k].0.as_str(), port.as_str()) {
            let ghost kk = k as int;
            inputs.set(k, (port, key));
            proof {
                let after = pairs_view(inputs@);
                assert(after =~= before.update(kk, (port@, key@)));
                assert(before[kk].0 == port@);
                assert forall|a: int, b: int| 0 <= a < b < after.len() implies after[a].0 != after[b].0 by {
                    assert(before[a].0 != before[b].0);
                }
                assert forall|p: Seq<char>, v: Seq<char>|
                    #[trigger] after.contains((p, v)) <==> (p == port@ && v == key@) || (p != port@ && before.contains(
                        (p, v),
                    )) by {
                    if after.contains((p, v)) {
                        let j = choose|j: int| 0 <= j < after.len() && after[j] == (p, v);
                        if j != kk {
                            assert(before[j] == (p, v));
                            assert(before[j].0 != before[kk].0);
                        }
                    }
                    if p != port@ && before.contains((p, v)) {
                        let j = choose|j: int| 0 <= j < before.len() && before[j] == (p, v);
                        assert(j != kk);
                        assert(after[j] == (p, v));
                    }
                    if p == port@ && v == key@ {
                        assert(after[kk] == (p, v));
                    }
                }
            }
            return;
        }
        k = k + 1;
    }
    inputs.push((port, key));
    proof {
        let after = pairs_view(inputs@);
        assert(after =~= before.push((port@, key@)));
        assert forall|p: Seq<char>, v: Seq<char>|
            #[trigger] after.contains((p, v)) <==> (p == port@ && v == key@) || (p != port@ && before.contains((p, v))) by {
            if after.contains((p, v)) {
                let j = choose|j: int| 0 <= j < after.len() && after[j] == (p, v);
                if j < before.len() {
                    assert(before[j] == (p, v));
                }
            }
            if p != port@ && before.contains((p, v)) {
                let j = choose|j: int| 0 <= j < before.len() && before[j] == (p, v);
                assert(after[j] == (p, v));
            }
            if p == port@ && v == key@ {
                assert(after[before.len() as int] == (p, v));
            }
        }
    }
}

/// The JSON object of input pairs: each port a member whose value is the
/// object store key as a string, members in key order.
pub fn inputs_json(inputs: &Vec<(String, String)>) -> (r: Json)
    ensures
        r@ == JsonView::Object(inputs_members(pairs_view(inputs@), inputs@.len() as int)),
{
    let ghost pv = pairs_view(inputs@);
    let mut members: Vec<(String, Json)> = Vec::new();
    let mut k: usize = 0;
    assert(members_view(members@) =~= inputs_members(pv, 0));
    while k < inputs.len()
        invariant
            k <= inputs.len(),
            pv == pairs_view(inputs@),
            members_view(members@) == inputs_members(pv, k as int),
        decreases inputs.len() - k,
    {
        let port = owned(inputs[k].0.as_str());
        let key = owned(inputs[k].1.as_str());
        members = insert_member(members, port, Json::Str(key));
        k = k + 1;
    }
    let r = Json::Object(members);
    proof {
        crate::support::json::lemma_object_view(r);
        assert(crate::support::json::object_members(r@) =~= members_view(members@));
    }
    r
}

/// One orchestrator per run.
pub struct Orchestrator {
    workflow: Workflow,
    state: Option<RunState>,
}

impl Orchestrator {
    /// The workflow executed.
    pub closed spec fn flow(&self) -> Workflow {
        self.workflow
    }

    /// The state of the run, once there is one.
    pub closed spec fn run(&self) -> Option<RunState> {
        self.state
    }

    /// The workflow executed.
    pub fn workflow(&self) -> (r: &Workflow)
        ensures
            *r == self.flow(),
    {
        &self.workflow
    }

    /// Well-formedness: the state of the run is well formed.
    pub open spec fn wf(&self) -> bool {
        self.run() matches Some(s) ==> s.wf()
    }

    /// An input pair of node `node_id`: an edge into the node (found by its
    /// identifier) leads to port `port`, and the record of its source node
    /// holds the output key `key`.
    pub open spec fn input_source(&self, s: RunState, node_id: NodeId, port: Seq<char>, key: Seq<char>) -> bool {
        let g = self.flow().graph;
        g.lookup_index(node_id) matches Some(i) && exists|t: int, w: Edge|
            #![trigger g.edge_set().count((t, i, w))]
            0 <= t < g.node_seq().len() && g.edge_set().count((t, i, w)) > 0 && w.target_port@ == port
                && s.node_states@.contains_key(g.node_seq()[t].id.0) && s.node_states@[g.node_seq()[t].id.0].output_key
                is Some && s.node_states@[g.node_seq()[t].id.0].output_key->Some_0@ == key
    }

    /// The key that the first `k` edges into node `i`, in the graph's order,
    /// leave for `port`: that of the last of them leading to the port whose
    /// source node has an output.
    pub open spec fn last_input_key(&self, s: RunState, i: int, port: Seq<char>, k: int) -> Option<Seq<char>>
        decreases k,
    {
        if k <= 0 {
            None
        } else {
            let g = self.flow().graph;
            let e = g.predecessor_order(i)[k - 1];
            let id = g.node_seq()[e.0].id.0;
            if e.1.target_port@ == port && s.node_states@.contains_key(id) && s.node_states@[id].output_key is Some {
                Some(s.node_states@[id].output_key->Some_0@)
            } else {
                self.last_input_key(s, i, port, k - 1)
            }
        }
    }

    /// `inputs` are the inputs of node `node_id`: each port once; a port is
    /// present exactly when some input source leads to it, and its key comes
    /// from the last such edge in the graph's order of edges into the node.
    pub open spec fn is_input_list(&self, s: RunState, node_id: NodeId, inputs: Seq<(Seq<char>, Seq<char>)>) -> bool {
        &&& distinct_ports(inputs)
        &&& self.flow().graph.lookup_index(node_id) matches Some(i) ==> forall|p: Seq<char>, k: Seq<char>|
            #[trigger] inputs.contains((p, k)) ==> self.last_input_key(
                s,
                i,
                p,
                self.flow().graph.predecessor_order(i).len() as int,
            ) == Some(k)
        &&& forall|p: Seq<char>, k: Seq<char>| #[trigger] inputs.contains((p, k)) ==> self.input_source(s, node_id, p, k)
        &&& forall|p: Seq<char>, k: Seq<char>|
            self.input_source(s, node_id, p, k) ==> exists|k2: Seq<char>| #[trigger] inputs.contains((p, k2))
    }

    /// A new orchestrator for the workflow; no run yet.
    pub fn new(workflow: Workflow) -> (r: Self)
        ensures
            r.flow() == workflow,
            r.run() is None,
            r.wf(),
    {
        Orchestrator { workflow, state: None }
    }

    /// The event that queues a new run of the workflow.
    pub fn queue_event(&self, run_id: WorkflowRunId, timestamp: i64) -> (r: ExecutionEvent)
        ensures
            r == (ExecutionEvent::RunQueued {
                run_id,
                workflow_id: self.flow().id,
                trigger_id: None,
                input: None,
                timestamp,
            }),
    {
        ExecutionEvent::RunQueued { run_id, workflow_id: self.workflow.id, trigger_id: None, input: None, timestamp }
    }

    /// Installs a new run once its queueing event has been published: the
    /// state of the run is rebuilt from that event alone.
    pub fn install_run(&mut self, event: ExecutionEvent) -> (r: Result<(), OrchestratorError>)
        requires
            old(self).flow().graph.successor_entry_total(old(self).flow().graph.node_seq().len() as int) + 1
                <= INDEX_LIMIT,
        ensures
            final(self).flow() == old(self).flow(),
            final(self).wf() || !old(self).wf() && r is Err,
            r is Ok <==> event is RunQueued,
            r is Err ==> r == Err::<(), OrchestratorError>(OrchestratorError::RunState(RunStateError::MissingRunQueued))
                && final(self).run() == old(self).run(),
            r is Ok ==> final(self).run() is Some && rebuild_outcome(
                &old(self).flow().graph,
                seq![event],
                Ok::<RunState, RunStateError>(final(self).run()->Some_0),
            ),
    {
        let ghost ev = event;
        let mut events: Vec<ExecutionEvent> = Vec::new();
        events.push(event);
        assert(events@ =~= seq![ev]);
        match rebuild_run(&self.workflow.graph, events) {
            Ok(state) => {
                self.state = Some(state);
                Ok(())
            },
            Err(e) => {
                assert(!(ev is RunQueued));
                Err(OrchestratorError::RunState(e))
            },
        }
    }

    /// Resumes a run from its loaded events. No events: the run is not
    /// found; events that cannot be replayed: that error; a run already in a
    /// final state cannot be resumed.
    pub fn resume_from(&mut self, run_id: WorkflowRunId, events: Vec<ExecutionEvent>) -> (r: Result<
        (),
        OrchestratorError,
    >)
        requires
            old(self).flow().graph.successor_entry_total(old(self).flow().graph.node_seq().len() as int)
                + events@.len() <= INDEX_LIMIT,
        ensures
            final(self).flow() == old(self).flow(),
            events@.len() == 0 ==> r == Err::<(), OrchestratorError>(OrchestratorError::RunNotFound { run_id }),
            r is Err ==> final(self).run() == old(self).run(),
            events@.len() > 0 ==> exists|o: Result<RunState, RunStateError>|
                #[trigger] rebuild_outcome(&old(self).flow().graph, events@, o) && match o {
                    Err(e) => r == Err::<(), OrchestratorError>(OrchestratorError::RunState(e)),
                    Ok(s) => if run_terminal(s.execution_state) {
                        r == Err::<(), OrchestratorError>(OrchestratorError::RunAlreadyTerminal { run_id })
                    } else {
                        r is Ok && final(self).run() == Some(s)
                    },
                },
            old(self).wf() ==> final(self).wf(),
    {
        if events.len() == 0 {
            return Err(OrchestratorError::RunNotFound { run_id });
        }
        let ghost evs = events@;
        let built = rebuild_run(&self.workflow.graph, events);
        let ghost o = built;
        let state = match built {
            Ok(s) => s,
            Err(e) => {
                return Err(OrchestratorError::RunState(e));
            },
        };
        if state.execution_state.is_terminal() {
            return Err(OrchestratorError::RunAlreadyTerminal { run_id });
        }
        self.state = Some(state);
        Ok(())
    }

    /// The event that starts the run: none when the run is no longer queued
    /// (it already started); the run must exist.
    pub fn start_event(&self, timestamp: i64) -> (r: Result<Option<ExecutionEvent>, OrchestratorError>)
        ensures
            self.run() is None ==> r is Err && r->Err_0 is RunNotFound,
            self.run() matches Some(s) ==> r == Ok::<Option<ExecutionEvent>, OrchestratorError>(
                if s.execution_state == ExecutionState::Queued {
                    Some(ExecutionEvent::RunStarted { run_id: s.run_id, timestamp })
                } else {
                    None
                },
            ),
    {
        match &self.state {
            None => Err(OrchestratorError::RunNotFound { run_id: WorkflowRunId::new() }),
            Some(state) => {
                if state.execution_state != ExecutionState::Queued {
                    return Ok(None);
                }
                Ok(Some(ExecutionEvent::RunStarted { run_id: state.run_id, timestamp }))
            },
        }
    }

    /// Records that the run started (after its event was published).
    pub fn record_run_started(&mut self, timestamp: i64)
        requires
            old(self).wf(),
        ensures
            final(self).wf(),
            final(self).flow() == old(self).flow(),
            old(self).run() is None ==> final(self).run() is None,
            old(self).run() matches Some(s) ==> final(self).run() == Some(
                RunState { execution_state: ExecutionState::Running, started_at: Some(timestamp), ..s },
            ),
            old(self).run() matches Some(s) ==> event_applied(
                s,
                ExecutionEvent::RunStarted { run_id: s.run_id, timestamp },
                final(self).run()->Some_0,
            ),
    {
        let taken = self.state.take();
        match taken {
            None => {},
            Some(mut state) => {
                state.execution_state = ExecutionState::Running;
                state.started_at = Some(timestamp);
                self.state = Some(state);
            },
        }
    }

    /// The inputs of a node: for each edge into it whose source node has an
    /// output, the target port and the key of that output (a later edge to
    /// the same port replaces an earlier one).
    fn collect_inputs(&self, state: &RunState, node_id: NodeId) -> (r: Vec<(String, String)>)
        ensures
            self.is_input_list(*state, node_id, pairs_view(r@)),
    {
        let preds = self.workflow.graph.predecessors(node_id);
        let ghost g = self.workflow.graph;
        let mut inputs: Vec<(String, String)> = Vec::new();
        let mut k: usize = 0;
        assert(pairs_view(inputs@) =~= Seq::<(Seq<char>, Seq<char>)>::empty());
        while k < preds.len()
            invariant
                g == self.flow().graph,
                k <= preds.len(),
                g.lookup_index(node_id) is None ==> preds@.len() == 0,
                g.lookup_index(node_id) matches Some(i) ==> g.is_predecessor_list(i, preds@),
                distinct_ports(pairs_view(inputs@)),
                forall|p: Seq<char>, v: Seq<char>|
                    #[trigger] pairs_view(inputs@).contains((p, v)) ==> self.input_source(*state, node_id, p, v),
                forall|j: int|
                    #![trigger preds@[j]]
                    0 <= j < k && state.node_states@.contains_key(preds@[j].0.id.0)
                        && state.node_states@[preds@[j].0.id.0].output_key is Some ==> exists|v: Seq<char>|
                        pairs_view(inputs@).contains((preds@[j].1.target_port@, v)),
                g.lookup_index(node_id) matches Some(i) ==> {
                    &&& preds@.len() == g.predecessor_order(i).len()
                    &&& forall|j: int|
                        0 <= j < preds@.len() ==> *preds@[j].0 == g.node_seq()[g.predecessor_order(i)[j].0]
                            && *preds@[j].1 == g.predecessor_order(i)[j].1
                    &&& forall|p: Seq<char>, v: Seq<char>|
                        #[trigger] pairs_view(inputs@).contains((p, v)) ==> self.last_input_key(*state, i, p, k as int)
                            == Some(v)
                },
            decreases preds.len() - k,
        {
            let (pred, edge) = preds[k];
            match state.node_states.get(&pred.id.0) {
                Some(exec) => match &exec.output_key {
                    Some(key) => {
                        let ghost before = pairs_view(inputs@);
                        let ghost i = g.lookup_index(node_id)->Some_0;
                        proof {
                            assert(g.is_in_entry(i, *pred, *edge));
                            let t = choose|t: int|
                                0 <= t < g.node_seq().len() && *pred == g.node_seq()[t] && g.edge_set().count((t, i, *edge))
                                    > 0;
                            assert(self.input_source(*state, node_id, edge.target_port@, key@));
                        }
                        set_input(&mut inputs, owned(edge.target_port.as_str()), owned(key.as_str()));
                        proof {
                            assert(pairs_view(inputs@).contains((edge.target_port@, key@)));
                            assert forall|j: int|
                                #![trigger preds@[j]]
                                0 <= j < k + 1 && state.node_states@.contains_key(preds@[j].0.id.0)
                                    && state.node_states@[preds@[j].0.id.0].output_key is Some implies exists|v: Seq<char>|
                                    pairs_view(inputs@).contains((preds@[j].1.target_port@, v)) by {
                                if j < k {
                                    let v = choose|v: Seq<char>| before.contains((preds@[j].1.target_port@, v));
                                    if preds@[j].1.target_port@ == edge.target_port@ {
                                        assert(pairs_view(inputs@).contains((edge.target_port@, key@)));
                                    } else {
                                        assert(pairs_view(inputs@).contains((preds@[j].1.target_port@, v)));
                                    }
                                } else {
                                    assert(pairs_view(inputs@).contains((edge.target_port@, key@)));
                                }
                            }
                        }
                    },
                    None => {},
                },
                None => {},
            }
            k = k + 1;
        }
        proof {
            assert forall|p: Seq<char>, v: Seq<char>| self.input_source(*state, node_id, p, v) implies exists|k2: Seq<char>|
                #[trigger] pairs_view(inputs@).contains((p, k2)) by {
                let i = g.lookup_index(node_id)->Some_0;
                let (t, w) = choose|t: int, w: Edge|
                    #![trigger g.edge_set().count((t, i, w))]
                    0 <= t < g.node_seq().len() && g.edge_set().count((t, i, w)) > 0 && w.target_port@ == p
                        && state.node_states@.contains_key(g.node_seq()[t].id.0)
                        && state.node_states@[g.node_seq()[t].id.0].output_key is Some
                        && state.node_states@[g.node_seq()[t].id.0].output_key->Some_0@ == v;
                let j = choose|j: int| 0 <= j < preds@.len() && *preds@[j].0 == g.node_seq()[t] && *preds@[j].1 == w;
                assert(state.node_states@.contains_key(preds@[j].0.id.0));
            }
        }
        inputs
    }

    /// The work items of the nodes ready now, in index order, each with its
    /// inputs; the run must exist.
    pub fn plan_ready_nodes(&self) -> (r: Result<Vec<WorkItem>, OrchestratorError>)
        requires
            self.wf(),
        ensures
            self.run() is None ==> r is Err && r->Err_0 is RunNotFound,
            self.run() matches Some(s) ==> r is Ok && r->Ok_0@.len() == s.work().ready_spec().len() && forall|k: int|
                0 <= k < r->Ok_0@.len() ==> {
                    let item = #[trigger] r->Ok_0@[k];
                    &&& item.run_id == s.run_id
                    &&& item.node_id == s.work().ready_spec()[k]
                    &&& self.is_input_list(s, item.node_id, pairs_view(item.inputs@))
                },
    {
        match &self.state {
            None => Err(OrchestratorError::RunNotFound { run_id: WorkflowRunId::new() }),
            Some(state) => {
                let ready = state.ready_nodes();
                let mut items: Vec<WorkItem> = Vec::new();
                let mut k: usize = 0;
                while k < ready.len()
                    invariant
                        self.run() == Some(*state),
                        ready@ == state.work().ready_spec(),
                        k <= ready.len(),
                        items@.len() == k,
                        forall|j: int|
                            0 <= j < k ==> {
                                let item = #[trigger] items@[j];
                                &&& item.run_id == state.run_id
                                &&& item.node_id == ready@[j]
                                &&& self.is_input_list(*state, item.node_id, pairs_view(item.inputs@))
                            },
                    decreases ready.len() - k,
                {
                    let node_id = ready[k];
                    let inputs = self.collect_inputs(state, node_id);
                    items.push(WorkItem { run_id: state.run_id, node_id, inputs });
                    k = k + 1;
                }
                Ok(items)
            },
        }
    }

    /// The event that starts a planned work item's node with the given
    /// input.
    pub fn started_event(item: &WorkItem, input: Json, timestamp: i64) -> (r: ExecutionEvent)
        ensures
            r == (ExecutionEvent::NodeStarted { run_id: item.run_id, node_id: item.node_id, input: Some(input), timestamp }),
    {
        ExecutionEvent::NodeStarted { run_id: item.run_id, node_id: item.node_id, input: Some(input), timestamp }
    }

    /// Records that a node was scheduled with the given input (after its
    /// start event and work item were published).
    pub fn mark_scheduled(&mut self, node_id: NodeId, input: Json)
        requires
            old(self).wf(),
        ensures
            final(self).wf(),
            final(self).flow() == old(self).flow(),
            old(self).run() is None ==> final(self).run() is None,
            old(self).run() matches Some(s) ==> (final(self).run() matches Some(t) && {
                &&& crate::workflow::run_state::run_kept(s, t)
                &&& crate::workflow::run_state::outcome_kept(s, t)
                &&& crate::workflow::remaining_work::executing_marked(s.work(), t.work(), node_id)
                &&& crate::workflow::run_state::record_updated(
                    s.node_states@,
                    t.node_states@,
                    node_id,
                    |a: crate::workflow::execution::NodeExecution, b: crate::workflow::execution::NodeExecution|
                        crate::workflow::execution::record_started(a, b, Some(input)),
                )
                &&& forall|ts: i64|
                    #[trigger] event_applied(
                        s,
                        ExecutionEvent::NodeStarted { run_id: s.run_id, node_id, input: Some(input), timestamp: ts },
                        t,
                    )
            }),
    {
        let taken = self.state.take();
        match taken {
            None => {},
            Some(mut state) => {
                state.mark_node_executing(node_id, Some(input));
                self.state = Some(state);
            },
        }
    }

    /// The event that records a work result; the run must exist.
    pub fn result_event(&self, result: &WorkItemResult, timestamp: i64) -> (r: Result<ExecutionEvent, OrchestratorError>)
        ensures
            self.run() is None ==> r is Err && r->Err_0 is RunNotFound,
            self.run() is Some ==> r is Ok && match *result {
                WorkItemResult::Completed { run_id, node_id, output_key } => r->Ok_0 matches ExecutionEvent::NodeCompleted {
                    run_id: a,
                    node_id: b,
                    output_key: c,
                    timestamp: d,
                } && a == run_id && b == node_id && c@ == output_key@ && d == timestamp,
                WorkItemResult::Failed { run_id, node_id, error } => r->Ok_0 matches ExecutionEvent::NodeFailed {
                    run_id: a,
                    node_id: b,
                    error: c,
                    timestamp: d,
                } && a == run_id && b == node_id && c@ == error@ && d == timestamp,
            },
    {
        if self.state.is_none() {
            return Err(OrchestratorError::RunNotFound { run_id: WorkflowRunId::new() });
        }
        match result {
            WorkItemResult::Completed { run_id, node_id, output_key } => Ok(
                ExecutionEvent::NodeCompleted {
                    run_id: *run_id,
                    node_id: *node_id,
                    output_key: owned(output_key.as_str()),
                    timestamp,
                },
            ),
            WorkItemResult::Failed { run_id, node_id, error } => Ok(
                ExecutionEvent::NodeFailed { run_id: *run_id, node_id: *node_id, error: owned(error.as_str()), timestamp },
            ),
        }
    }

    /// Records a work result (after its event was published) and says what
    /// comes next: finalize when nothing more can run, else schedule the
    /// nodes ready now.
    pub fn record_result(&mut self, result: WorkItemResult) -> (r: Result<NextStep, OrchestratorError>)
        requires
            old(self).wf(),
            old(self).run() matches Some(s) ==> s.work().link_count() < INDEX_LIMIT,
        ensures
            final(self).wf(),
            final(self).flow() == old(self).flow(),
            old(self).run() is None ==> r is Err && r->Err_0 is RunNotFound && final(self).run() is None,
            old(self).run() matches Some(s) ==> (final(self).run() matches Some(t) && r is Ok && {
                &&& crate::workflow::run_state::run_kept(s, t)
                &&& crate::workflow::run_state::outcome_kept(s, t)
                &&& match result {
                    WorkItemResult::Completed { node_id, output_key, .. } => {
                        &&& crate::workflow::remaining_work::completed_marked(s.work(), t.work(), node_id)
                        &&& crate::workflow::run_state::record_updated(
                            s.node_states@,
                            t.node_states@,
                            node_id,
                            |a: crate::workflow::execution::NodeExecution, b: crate::workflow::execution::NodeExecution|
                                crate::workflow::execution::record_completed(a, b, output_key),
                        )
                    },
                    WorkItemResult::Failed { node_id, error, .. } => {
                        &&& crate::workflow::remaining_work::failed_marked(s.work(), t.work(), node_id)
                        &&& crate::workflow::run_state::record_updated(
                            s.node_states@,
                            t.node_states@,
                            node_id,
                            |a: crate::workflow::execution::NodeExecution, b: crate::workflow::execution::NodeExecution|
                                crate::workflow::execution::record_failed(a, b, error),
                        )
                    },
                }
                &&& forall|ts: i64|
                    #[trigger] event_applied(
                        s,
                        reported_event(result, ts),
                        t,
                    )
                &&& r->Ok_0 == if t.work().executing_seq().len() == 0 && t.work().ready_spec().len() == 0 {
                    NextStep::Finalize
                } else {
                    NextStep::ScheduleReady
                }
            }),
    {
        let taken = self.state.take();
        match taken {
            None => Err(OrchestratorError::RunNotFound { run_id: WorkflowRunId::new() }),
            Some(mut state) => {
                match result {
                    WorkItemResult::Completed { node_id, output_key, .. } => {
                        state.mark_node_completed(node_id, output_key);
                    },
                    WorkItemResult::Failed { node_id, error, .. } => {
                        state.mark_node_failed(node_id, error);
                    },
                }
                let done = state.remaining_work().is_complete();
                self.state = Some(state);
                if done {
                    Ok(NextStep::Finalize)
                } else {
                    Ok(NextStep::ScheduleReady)
                }
            },
        }
    }

    /// The event that finalizes the run: failed when a node failed, else
    /// completed (without output); the run must exist.
    pub fn final_event(&self, timestamp: i64) -> (r: Result<ExecutionEvent, OrchestratorError>)
        ensures
            self.run() is None ==> r is Err && r->Err_0 is RunNotFound,
            self.run() matches Some(s) ==> r is Ok && if s.work().failed_seq().len() > 0 {
                r->Ok_0 matches ExecutionEvent::RunFailed { run_id, error, timestamp: t } && run_id == s.run_id && error@
                    == node_failure_message() && t == timestamp
            } else {
                r->Ok_0 == ExecutionEvent::RunCompleted { run_id: s.run_id, output: None, timestamp }
            },
    {
        match &self.state {
            None => Err(OrchestratorError::RunNotFound { run_id: WorkflowRunId::new() }),
            Some(state) => {
                if state.has_failures() {
                    Ok(
                        ExecutionEvent::RunFailed {
                            run_id: state.run_id,
                            error: owned("workflow failed due to node failures"),
                            timestamp,
                        },
                    )
                } else {
                    Ok(ExecutionEvent::RunCompleted { run_id: state.run_id, output: None, timestamp })
                }
            },
        }
    }

    /// Records the end of the run (after its final event was published):
    /// failed when a node failed, else completed.
    pub fn record_final(&mut self, timestamp: i64)
        requires
            old(self).wf(),
        ensures
            final(self).wf(),
            final(self).flow() == old(self).flow(),
            old(self).run() is None ==> final(self).run() is None,
            old(self).run() matches Some(s) ==> (final(self).run() matches Some(t) && {
                &&& crate::workflow::run_state::run_kept(s, t)
                &&& crate::workflow::run_state::nodes_kept(s, t)
                &&& t.finished_at == Some(timestamp)
                &&& t.started_at == s.started_at
                &&& if s.work().failed_seq().len() > 0 {
                    &&& t.execution_state == ExecutionState::Failed
                    &&& t.error matches Some(e) && e@ == node_failure_message()
                    &&& t.output == s.output
                } else {
                    &&& t.execution_state == ExecutionState::Completed
                    &&& t.output is None
                    &&& t.error == s.error
                }
            }),
            old(self).run() matches Some(s) ==> if s.work().failed_seq().len() > 0 {
                exists|e: String|
                    e@ == node_failure_message() && #[trigger] event_applied(
                        s,
                        ExecutionEvent::RunFailed { run_id: s.run_id, error: e, timestamp },
                        final(self).run()->Some_0,
                    )
            } else {
                event_applied(
                    s,
                    ExecutionEvent::RunCompleted { run_id: s.run_id, output: None, timestamp },
                    final(self).run()->Some_0,
                )
            },
    {
        let taken = self.state.take();
        match taken {
            None => {},
            Some(mut state) => {
                let ghost s0 = state;
                if state.has_failures() {
                    state.fail(owned("workflow failed due to node failures"), timestamp);
                    proof {
                        let e = state.error->Some_0;
                        assert(event_applied(
                            s0,
                            ExecutionEvent::RunFailed { run_id: s0.run_id, error: e, timestamp },
                            state,
                        ));
                    }
                } else {
                    state.complete(None, timestamp);
                }
                self.state = Some(state);
            },
        }
    }

    /// The state of the run, once there is one.
    pub fn state(&self) -> (r: Option<&RunState>)
        ensures
            r matches Some(s) ==> self.run() == Some(*s),
            r is None <==> self.run() is None,
    {
        match &self.state {
            Some(s) => Some(s),
            None => None,
        }
    }

    /// The identifier of the run, once there is one.
    pub fn run_id(&self) -> (r: Option<WorkflowRunId>)
        ensures
            r matches Some(id) ==> self.run() matches Some(s) && s.run_id == id,
            r is None <==> self.run() is None,
    {
        match &self.state {
            Some(s) => Some(s.run_id),
            None => None,
        }
    }

    /// Whether there is a run and it is complete.
    pub fn is_complete(&self) -> (r: bool)
        requires
            self.wf(),
        ensures
            r == (self.run() matches Some(s) && (run_terminal(s.execution_state) || (s.work().executing_seq().len() == 0
                && s.work().ready_spec().len() == 0))),
    {
        match &self.state {
            Some(s) => s.is_complete(),
            None => false,
        }
    }
}

/// The live states `runs` of a run follow its published events `evs`: the
/// first state is what `install_run` rebuilt from the queueing event alone,
/// and each later state is its predecessor with the next event applied, as
/// `record_run_started`, `mark_scheduled`, `record_result` and `record_final`
/// each state of the event they publish.
pub open spec fn follows_events(g: &WorkflowGraph, evs: Seq<ExecutionEvent>, runs: Seq<RunState>) -> bool {
    &&& evs.len() >= 1
    &&& runs.len() == evs.len()
    &&& rebuild_outcome(g, seq![evs[0]], Ok::<RunState, RunStateError>(runs[0]))
    &&& forall|k: int| 0 <= k < runs.len() ==> (#[trigger] runs[k]).wf()
    &&& forall|k: int| 0 < k < runs.len() ==> #[trigger] event_applied(runs[k - 1], evs[k], runs[k])
}

/// Replaying the events a run published gives the run's own live state:
/// rebuilding from the first `k` events gives the state after them.
proof fn lemma_replay_prefix(g: &WorkflowGraph, evs: Seq<ExecutionEvent>, runs: Seq<RunState>, k: int)
    requires
        follows_events(g, evs, runs),
        1 <= k <= evs.len(),
    ensures
        rebuild_outcome(g, evs.take(k), Ok::<RunState, RunStateError>(runs[k - 1])),
    decreases k,
{
    if k == 1 {
        assert(evs.take(1) =~= seq![evs[0]]);
    } else {
        lemma_replay_prefix(g, evs, runs, k - 1);
        assert(event_applied(runs[k - 2], evs[k - 1], runs[k - 1])) by {
            let j = k - 1;
            assert(event_applied(runs[j - 1], evs[j], runs[j]));
        }
        law_rebuild_extends(g, evs.take(k - 1), runs[k - 2], evs[k - 1], runs[k - 1]);
        assert(evs.take(k - 1).push(evs[k - 1]) =~= evs.take(k));
    }
}

/// A run whose live state has followed every event it published: its live
/// state is a rebuild of those events, in publishing order.
pub proof fn law_live_state_is_replay(g: &WorkflowGraph, evs: Seq<ExecutionEvent>, runs: Seq<RunState>)
    requires
        follows_events(g, evs, runs),
    ensures
        rebuild_outcome(g, evs, Ok::<RunState, RunStateError>(runs.last())),
{
    lemma_replay_prefix(g, evs, runs, evs.len() as int);
    assert(evs.take(evs.len() as int) =~= evs);
}

/// Rebuilding a run from the events it published, in publishing order,
/// succeeds and gives a state that agrees with its live state on every run
/// field, on every node's state, input, output key and error, on the
/// remaining work, and so on the ready nodes, on whether any node failed and
/// on whether the run is complete (record identifiers and node times are the
/// ones left open).
pub proof fn law_rebuild_gives_live_state(
    g: &WorkflowGraph,
    evs: Seq<ExecutionEvent>,
    runs: Seq<RunState>,
    r: Result<RunState, RunStateError>,
)
    requires
        follows_events(g, evs, runs),
        rebuild_outcome(g, evs, r),
    ensures
        r is Ok,
        states_agree(r->Ok_0, runs.last()),
        r->Ok_0.work().ready_spec() == runs.last().work().ready_spec(),
        (r->Ok_0.work().failed_seq().len() > 0) == (runs.last().work().failed_seq().len() > 0),
        (r->Ok_0.work().executing_seq().len() == 0) == (runs.last().work().executing_seq().len() == 0),
{
    law_live_state_is_replay(g, evs, runs);
    law_rebuild_unique(g, evs, r->Ok_0, runs.last());
    let a = r->Ok_0.work();
    let b = runs.last().work();
    if a.failed_seq().len() > 0 {
        assert(a.failed_set().contains(a.failed_seq()[0]));
        assert(b.failed_seq().contains(a.failed_seq()[0]));
    }
    if b.failed_seq().len() > 0 {
        assert(b.failed_set().contains(b.failed_seq()[0]));
        assert(a.failed_seq().contains(b.failed_seq()[0]));
    }
    if a.executing_seq().len() > 0 {
        assert(a.executing_set().contains(a.executing_seq()[0]));
        assert(b.executing_seq().contains(a.executing_seq()[0]));
    }
    if b.executing_seq().len() > 0 {
        assert(b.executing_set().contains(b.executing_seq()[0]));
        assert(a.executing_seq().contains(b.executing_seq()[0]));
    }
}

} // verus!
