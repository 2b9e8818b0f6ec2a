//! The execution state machine of workflow runs: the state of a run, the
//! state of each node within it, and the events that record every change.

use vstd::prelude::*;
use vstd::string::*;
use crate::support::clock::{now_millis, MAX_MILLIS};
use crate::support::json::Json;
use crate::platform_core::id::{NodeExecutionId, TriggerId, WorkflowId, WorkflowRunId};
use crate::workflow::node::NodeId;

verus! {

/// The overall state of a workflow run.
#[derive(Debug, Clone, Copy, PartialEq, Eq, Structural)]
pub enum ExecutionState {
    /// Waiting for an orchestrator.
    Queued,
    /// Executing.
    Running,
    /// Finished: every node completed or was skipped.
    Completed,
    /// Finished: a node failed and blocked the rest.
    Failed,
    /// Cancelled by a user or the system.
    Cancelled,
}

/// Whether a run state is final.
pub open spec fn run_terminal(s: ExecutionState) -> bool {
    s == ExecutionState::Completed || s == ExecutionState::Failed || s == ExecutionState::Cancelled
}

impl ExecutionState {
    /// Whether this state is final (completed, failed or cancelled).
    pub fn is_terminal(&self) -> (r: bool)
        ensures
            r == run_terminal(*self),
    {
        match self {
            ExecutionState::Completed | ExecutionState::Failed | ExecutionState::Cancelled => true,
            _ => false,
        }
    }
}

/// The execution state of one node within a run.
#[derive(Debug, Clone, Copy, PartialEq, Eq, Structural)]
pub enum NodeExecutionState {
    /// Waiting for predecessors.
    Pending,
    /// Every predecessor is done.
    Ready,
    /// Executing.
    Running,
    /// Finished successfully.
    Completed,
    /// Failed.
    Failed,
    /// Skipped (e.g. a branch not taken).
    Skipped,
}

impl NodeExecutionState {
    /// Whether this state is final (completed, failed or skipped).
    pub fn is_terminal(&self) -> (r: bool)
        ensures
            r == (*self == NodeExecutionState::Completed || *self == NodeExecutionState::Failed || *self
                == NodeExecutionState::Skipped),
    {
        match self {
            NodeExecutionState::Completed | NodeExecutionState::Failed | NodeExecutionState::Skipped => true,
            _ => false,
        }
    }

    /// Whether a node in this state blocks the nodes downstream of it: only a
    /// failed node does.
    pub fn blocks_downstream(&self) -> (r: bool)
        ensures
            r == (*self == NodeExecutionState::Failed),
    {
        match self {
            NodeExecutionState::Failed => true,
            _ => false,
        }
    }
}

/// A record of one workflow run. Instants are milliseconds since the Unix epoch.
#[derive(Debug)]
pub struct WorkflowRun {
    /// Identifier of this run.
    pub id: WorkflowRunId,
    /// The workflow being executed.
    pub workflow_id: WorkflowId,
    /// The trigger that started the run, if any.
    pub trigger_id: Option<TriggerId>,
    /// Current state.
    pub state: ExecutionState,
    /// When the run was queued.
    pub queued_at: i64,
    /// When the run started.
    pub started_at: Option<i64>,
    /// When the run finished.
    pub finished_at: Option<i64>,
    /// Input data of the run.
    pub input: Option<Json>,
    /// Final output (if completed).
    pub output: Option<Json>,
    /// Error message (if failed).
    pub error: Option<String>,
}

impl WorkflowRun {
    /// A new run, queued now.
    pub fn new(workflow_id: WorkflowId, trigger_id: Option<TriggerId>, input: Option<Json>) -> (r: Self)
        ensures
            r.workflow_id == workflow_id,
            r.trigger_id == trigger_id,
            r.state == ExecutionState::Queued,
            r.started_at is None,
            r.finished_at is None,
            r.input == input,
            r.output is None,
            r.error is None,
    {
        WorkflowRun {
            id: WorkflowRunId::new(),
            workflow_id,
            trigger_id,
            state: ExecutionState::Queued,
            queued_at: now_millis(),
            started_at: None,
            finished_at: None,
            input,
            output: None,
            error: None,
        }
    }

    /// Starts the run now.
    pub fn start(&mut self)
        ensures
            final(self).started_at is Some,
            *final(self) == (WorkflowRun {
                state: ExecutionState::Running,
                started_at: final(self).started_at,
                ..*old(self)
            }),
    {
        self.state = ExecutionState::Running;
        self.started_at = Some(now_millis());
    }

    /// Completes the run now with the given output.
    pub fn complete(&mut self, output: Option<Json>)
        ensures
            final(self).finished_at is Some,
            *final(self) == (WorkflowRun {
                state: ExecutionState::Completed,
                finished_at: final(self).finished_at,
                output: output,
                ..*old(self)
            }),
    {
        self.state = ExecutionState::Completed;
        self.finished_at = Some(now_millis());
        self.output = output;
    }

    /// Fails the run now with the given error.
    pub fn fail(&mut self, error: String)
        ensures
            final(self).finished_at is Some,
            *final(self) == (WorkflowRun {
                state: ExecutionState::Failed,
                finished_at: final(self).finished_at,
                error: Some(error),
                ..*old(self)
            }),
    {
        self.state = ExecutionState::Failed;
        self.finished_at = Some(now_millis());
        self.error = Some(error);
    }

    /// Cancels the run now.
    pub fn cancel(&mut self)
        ensures
            final(self).finished_at is Some,
            *final(self) == (WorkflowRun {
                state: ExecutionState::Cancelled,
                finished_at: final(self).finished_at,
                ..*old(self)
            }),
    {
        self.state = ExecutionState::Cancelled;
        self.finished_at = Some(now_millis());
    }

    /// The duration of the run in milliseconds, measured up to `now` while it
    /// is unfinished; none if it has not started.
    pub fn duration_at(&self, now: i64) -> (r: Option<i64>)
        requires
            self.started_at matches Some(s) ==> -MAX_MILLIS <= s <= MAX_MILLIS,
            self.finished_at matches Some(f) ==> -MAX_MILLIS <= f <= MAX_MILLIS,
            -MAX_MILLIS <= now <= MAX_MILLIS,
        ensures
            self.started_at is None ==> r is None,
            self.started_at matches Some(s) ==> r == Some((match self.finished_at {
                Some(f) => f,
                None => now,
            } - s) as i64),
    {
        match self.started_at {
            None => None,
            Some(start) => {
                let end = match self.finished_at {
                    Some(f) => f,
                    None => now,
                };
                Some(end - start)
            },
        }
    }

    /// The duration of the run in milliseconds, up to the current time while
    /// it is unfinished; none if it has not started.
    pub fn duration(&self) -> (r: Option<i64>)
        requires
            self.started_at matches Some(s) ==> -MAX_MILLIS <= s <= MAX_MILLIS,
            self.finished_at matches Some(f) ==> -MAX_MILLIS <= f <= MAX_MILLIS,
        ensures
            self.started_at is None ==> r is None,
            self.started_at is Some && self.finished_at is Some ==> r == Some(
                (self.finished_at->0 - self.started_at->0) as i64,
            ),
            self.started_at is Some && self.finished_at is None ==> r is Some,
    {
        let now = now_millis();
        self.duration_at(now)
    }
}

/// The execution record of one node within a run.
#[derive(Debug)]
pub struct NodeExecution {
    /// Identifier of this record.
    pub id: NodeExecutionId,
    /// The run it belongs to.
    pub run_id: WorkflowRunId,
    /// The node executed.
    pub node_id: NodeId,
    /// Current state.
    pub state: NodeExecutionState,
    /// When execution started.
    pub started_at: Option<i64>,
    /// When execution finished.
    pub finished_at: Option<i64>,
    /// Input data received.
    pub input: Option<Json>,
    /// Object store key of the output.
    pub output_key: Option<String>,
    /// Error message (if failed).
    pub error: Option<String>,
}

impl NodeExecution {
    /// A new pending record.
    pub fn new(run_id: WorkflowRunId, node_id: NodeId) -> (r: Self)
        ensures
            r.run_id == run_id,
            r.node_id == node_id,
            r.state == NodeExecutionState::Pending,
            r.started_at is None,
            r.finished_at is None,
            r.input is None,
            r.output_key is None,
            r.error is None,
    {
        NodeExecution {
            id: NodeExecutionId::new(),
            run_id,
            node_id,
            state: NodeExecutionState::Pending,
            started_at: None,
            finished_at: None,
            input: None,
            output_key: None,
            error: None,
        }
    }

    /// Marks the node ready.
    pub fn mark_ready(&mut self)
        ensures
            *final(self) == (NodeExecution { state: NodeExecutionState::Ready, ..*old(self) }),
    {
        self.state = NodeExecutionState::Ready;
    }

    /// Starts execution now with the given input.
    pub fn start(&mut self, input: Option<Json>)
        ensures
            record_started(*old(self), *final(self), input),

    {
        self.state = NodeExecutionState::Running;
        self.started_at = Some(now_millis());
        self.input = input;
    }

    /// Completes execution now with the key of the stored output.
    pub fn complete(&mut self, output_key: String)
        ensures
            record_completed(*old(self), *final(self), output_key),

    {
        self.state = NodeExecutionState::Completed;
        self.finished_at = Some(now_millis());
        self.output_key = Some(output_key);
    }

    /// Fails execution now with the given error.
    pub fn fail(&mut self, error: String)
        ensures
            record_failed(*old(self), *final(self), error),

    {
        self.state = NodeExecutionState::Failed;
        self.finished_at = Some(now_millis());
        self.error = Some(error);
    }

    /// Skips the node now.
    pub fn skip(&mut self)
        ensures
            record_skipped(*old(self), *final(self)),

    {
        self.state = NodeExecutionState::Skipped;
        self.finished_at = Some(now_millis());
    }
}

/// `b` is `a` started at some time with the given input.
pub open spec fn record_started(a: NodeExecution, b: NodeExecution, input: Option<Json>) -> bool {
    &&& b.started_at is Some
    &&& b == NodeExecution { state: NodeExecutionState::Running, started_at: b.started_at, input: input, ..a }
}

/// `b` is `a` completed at some time with the key of its stored output.
pub open spec fn record_completed(a: NodeExecution, b: NodeExecution, output_key: String) -> bool {
    &&& b.finished_at is Some
    &&& b == NodeExecution {
        state: NodeExecutionState::Completed,
        finished_at: b.finished_at,
        output_key: Some(output_key),
        ..a
    }
}

/// `b` is `a` failed at some time with the given error.
pub open spec fn record_failed(a: NodeExecution, b: NodeExecution, error: String) -> bool {
    &&& b.finished_at is Some
    &&& b == NodeExecution { state: NodeExecutionState::Failed, finished_at: b.finished_at, error: Some(error), ..a }
}

/// `b` is `a` skipped at some time.
pub open spec fn record_skipped(a: NodeExecution, b: NodeExecution) -> bool {
    &&& b.finished_at is Some
    &&& b == NodeExecution { state: NodeExecutionState::Skipped, finished_at: b.finished_at, ..a }
}

/// Events of workflow execution; the event stream is the source of truth of
/// a run's state.
#[derive(Debug)]
pub enum ExecutionEvent {
    /// The run was queued.
    RunQueued {
        run_id: WorkflowRunId,
        workflow_id: WorkflowId,
        trigger_id: Option<TriggerId>,
        input: Option<Json>,
        timestamp: i64,
    },
    /// The run started.
    RunStarted { run_id: WorkflowRunId, timestamp: i64 },
    /// A node started.
    NodeStarted { run_id: WorkflowRunId, node_id: NodeId, input: Option<Json>, timestamp: i64 },
    /// A node completed.
    NodeCompleted { run_id: WorkflowRunId, node_id: NodeId, output_key: String, timestamp: i64 },
    /// A node failed.
    NodeFailed { run_id: WorkflowRunId, node_id: NodeId, error: String, timestamp: i64 },
    /// A node was skipped.
    NodeSkipped { run_id: WorkflowRunId, node_id: NodeId, reason: String, timestamp: i64 },
    /// The run completed.
    RunCompleted { run_id: WorkflowRunId, output: Option<Json>, timestamp: i64 },
    /// The run failed.
    RunFailed { run_id: WorkflowRunId, error: String, timestamp: i64 },
    /// The run was cancelled.
    RunCancelled { run_id: WorkflowRunId, reason: String, timestamp: i64 },
}

/// The run an event belongs to.
pub open spec fn event_run_id(e: ExecutionEvent) -> WorkflowRunId {
    match e {
        ExecutionEvent::RunQueued { run_id, .. } => run_id,
        ExecutionEvent::RunStarted { run_id, .. } => run_id,
        ExecutionEvent::NodeStarted { run_id, .. } => run_id,
        ExecutionEvent::NodeCompleted { run_id, .. } => run_id,
        ExecutionEvent::NodeFailed { run_id, .. } => run_id,
        ExecutionEvent::NodeSkipped { run_id, .. } => run_id,
        ExecutionEvent::RunCompleted { run_id, .. } => run_id,
        ExecutionEvent::RunFailed { run_id, .. } => run_id,
        ExecutionEvent::RunCancelled { run_id, .. } => run_id,
    }
}

/// When an event happened.
pub open spec fn event_timestamp(e: ExecutionEvent) -> i64 {
    match e {
        ExecutionEvent::RunQueued { timestamp, .. } => timestamp,
        ExecutionEvent::RunStarted { timestamp, .. } => timestamp,
        ExecutionEvent::NodeStarted { timestamp, .. } => timestamp,
        ExecutionEvent::NodeCompleted { timestamp, .. } => timestamp,
        ExecutionEvent::NodeFailed { timestamp, .. } => timestamp,
        ExecutionEvent::NodeSkipped { timestamp, .. } => timestamp,
        ExecutionEvent::RunCompleted { timestamp, .. } => timestamp,
        ExecutionEvent::RunFailed { timestamp, .. } => timestamp,
        ExecutionEvent::RunCancelled { timestamp, .. } => timestamp,
    }
}

impl ExecutionEvent {
    /// The run this event belongs to.
    pub fn run_id(&self) -> (r: WorkflowRunId)
        ensures
            r == event_run_id(*self),
    {
        match self {
            ExecutionEvent::RunQueued { run_id, .. } => *run_id,
            ExecutionEvent::RunStarted { run_id, .. } => *run_id,
            ExecutionEvent::NodeStarted { run_id, .. } => *run_id,
            ExecutionEvent::NodeCompleted { run_id, .. } => *run_id,
            ExecutionEvent::NodeFailed { run_id, .. } => *run_id,
            ExecutionEvent::NodeSkipped { run_id, .. } => *run_id,
            ExecutionEvent::RunCompleted { run_id, .. } => *run_id,
            ExecutionEvent::RunFailed { run_id, .. } => *run_id,
            ExecutionEvent::RunCancelled { run_id, .. } => *run_id,
        }
    }

    /// When this event happened.
    pub fn timestamp(&self) -> (r: i64)
        ensures
            r == event_timestamp(*self),
    {
        match self {
            ExecutionEvent::RunQueued { timestamp, .. } => *timestamp,
            ExecutionEvent::RunStarted { timestamp, .. } => *timestamp,
            ExecutionEvent::NodeStarted { timestamp, .. } => *timestamp,
            ExecutionEvent::NodeCompleted { timestamp, .. } => *timestamp,
            ExecutionEvent::NodeFailed { timestamp, .. } => *timestamp,
            ExecutionEvent::NodeSkipped { timestamp, .. } => *timestamp,
            ExecutionEvent::RunCompleted { timestamp, .. } => *timestamp,
            ExecutionEvent::RunFailed { timestamp, .. } => *timestamp,
            ExecutionEvent::RunCancelled { timestamp, .. } => *timestamp,
        }
    }
}

} // verus!
