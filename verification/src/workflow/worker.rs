//! Workers execute nodes: a worker takes a work item, reads the node's
//! inputs from the object store, executes the node, stores the output and
//! reports the result. This module holds the errors of that process, the
//! mapping of its outcome to a reported result, and the outputs of the two
//! simple executors used for testing.

use vstd::prelude::*;
use crate::support::json::{Json, JsonView, members_view, insert_member, members_insert};
use crate::support::text::{owned, concat2, concat4};
use crate::workflow::orchestrator::{WorkItem, WorkItemResult};

verus! {

/// Errors of object storage.
#[derive(Debug, Clone, PartialEq, Eq)]
pub enum ObjectStoreError {
    /// Could not store data.
    StoreFailed { message: String },
    /// No object under the key.
    NotFound { key: String },
    /// Could not retrieve data.
    RetrieveFailed { message: String },
    /// Could not delete data.
    DeleteFailed { message: String },
}

/// The message of an object store error.
pub open spec fn object_store_error_text(e: ObjectStoreError) -> Seq<char> {
    match e {
        ObjectStoreError::StoreFailed { message } => "object store put failed: "@ + message@,
        ObjectStoreError::NotFound { key } => "object not found: "@ + key@,
        ObjectStoreError::RetrieveFailed { message } => "object store get failed: "@ + message@,
        ObjectStoreError::DeleteFailed { message } => "object store delete failed: "@ + message@,
    }
}

impl ObjectStoreError {
    /// The message of this error.
    pub fn to_string(&self) -> (s: String)
        ensures
            s@ == object_store_error_text(*self),
    {
        match self {
            ObjectStoreError::StoreFailed { message } => concat2("object store put failed: ", message.as_str()),
            ObjectStoreError::NotFound { key } => concat2("object not found: ", key.as_str()),
            ObjectStoreError::RetrieveFailed { message } => concat2("object store get failed: ", message.as_str()),
            ObjectStoreError::DeleteFailed { message } => concat2("object store delete failed: ", message.as_str()),
        }
    }
}

/// Errors of node execution.
#[derive(Debug, Clone, PartialEq, Eq)]
pub enum NodeExecutionError {
    /// The input is not valid.
    InvalidInput { message: String },
    /// Execution failed.
    ExecutionFailed { message: String },
    /// No executor for this kind of node.
    UnsupportedNodeType { node_type: String },
    /// An external service failed.
    ExternalServiceError { service: String, message: String },
    /// Execution took too long.
    Timeout,
}

/// The message of a node execution error.
pub open spec fn node_execution_error_text(e: NodeExecutionError) -> Seq<char> {
    match e {
        NodeExecutionError::InvalidInput { message } => "invalid input: "@ + message@,
        NodeExecutionError::ExecutionFailed { message } => "execution failed: "@ + message@,
        NodeExecutionError::UnsupportedNodeType { node_type } => "unsupported node type: "@ + node_type@,
        NodeExecutionError::ExternalServiceError { service, message } => "external service error ("@ + service@
            + "): "@ + message@,
        NodeExecutionError::Timeout => "execution timed out"@,
    }
}

impl NodeExecutionError {
    /// The message of this error.
    pub fn to_string(&self) -> (s: String)
        ensures
            s@ == node_execution_error_text(*self),
    {
        match self {
            NodeExecutionError::InvalidInput { message } => concat2("invalid input: ", message.as_str()),
            NodeExecutionError::ExecutionFailed { message } => concat2("execution failed: ", message.as_str()),
            NodeExecutionError::UnsupportedNodeType { node_type } => concat2(
                "unsupported node type: ",
                node_type.as_str(),
            ),
            NodeExecutionError::ExternalServiceError { service, message } => concat4(
                "external service error (",
                service.as_str(),
                "): ",
                message.as_str(),
            ),
            NodeExecutionError::Timeout => owned("execution timed out"),
        }
    }
}

/// Errors of a worker.
#[derive(Debug, Clone, PartialEq, Eq)]
pub enum WorkerError {
    /// The object store failed.
    ObjectStore(ObjectStoreError),
    /// The node failed.
    Execution(NodeExecutionError),
    /// The node is not in the workflow.
    NodeNotFound { node_id: String },
    /// Data could not be decoded or encoded.
    DeserializationFailed { message: String },
}

/// The message of a worker error.
pub open spec fn worker_error_text(e: WorkerError) -> Seq<char> {
    match e {
        WorkerError::ObjectStore(x) => "object store error: "@ + object_store_error_text(x),
        WorkerError::Execution(x) => "execution error: "@ + node_execution_error_text(x),
        WorkerError::NodeNotFound { node_id } => "node not found: "@ + node_id@,
        WorkerError::DeserializationFailed { message } => "deserialization failed: "@ + message@,
    }
}

impl WorkerError {
    /// The message of this error.
    pub fn to_string(&self) -> (s: String)
        ensures
            s@ == worker_error_text(*self),
    {
        match self {
            WorkerError::ObjectStore(x) => concat2("object store error: ", x.to_string().as_str()),
            WorkerError::Execution(x) => concat2("execution error: ", x.to_string().as_str()),
            WorkerError::NodeNotFound { node_id } => concat2("node not found: ", node_id.as_str()),
            WorkerError::DeserializationFailed { message } => concat2("deserialization failed: ", message.as_str()),
        }
    }
}

impl From<ObjectStoreError> for WorkerError {
    fn from(e: ObjectStoreError) -> (r: Self) {
        WorkerError::ObjectStore(e)
    }
}

impl vstd::std_specs::convert::FromSpecImpl<ObjectStoreError> for WorkerError {
    open spec fn obeys_from_spec() -> bool {
        true
    }

    open spec fn from_spec(e: ObjectStoreError) -> Self {
        WorkerError::ObjectStore(e)
    }
}

impl From<NodeExecutionError> for WorkerError {
    fn from(e: NodeExecutionError) -> (r: Self) {
        WorkerError::Execution(e)
    }
}

impl vstd::std_specs::convert::FromSpecImpl<NodeExecutionError> for WorkerError {
    open spec fn obeys_from_spec() -> bool {
        true
    }

    open spec fn from_spec(e: NodeExecutionError) -> Self {
        WorkerError::Execution(e)
    }
}

/// What a worker reports for a work item, given how executing it went: the
/// key of the stored output, or the error, as its message.
pub fn result_of(work_item: &WorkItem, outcome: Result<String, WorkerError>) -> (r: WorkItemResult)
    ensures
        outcome matches Ok(key) ==> r == (WorkItemResult::Completed {
            run_id: work_item.run_id,
            node_id: work_item.node_id,
            output_key: key,
        }),
        outcome matches Err(e) ==> (r matches WorkItemResult::Failed { run_id, node_id, error } && run_id
            == work_item.run_id && node_id == work_item.node_id && error@ == worker_error_text(e)),
{
    match outcome {
        Ok(output_key) => WorkItemResult::Completed { run_id: work_item.run_id, node_id: work_item.node_id, output_key },
        Err(e) => WorkItemResult::Failed { run_id: work_item.run_id, node_id: work_item.node_id, error: e.to_string() },
    }
}

/// The members of the object that echoes the first `k` inputs: each input
/// sets the member named by its port.
pub open spec fn echo_members(inputs: Seq<(Seq<char>, JsonView)>, k: int) -> Seq<(Seq<char>, JsonView)>
    decreases k,
{
    if k <= 0 {
        Seq::empty()
    } else {
        members_insert(echo_members(inputs, k - 1), inputs[k - 1].0, inputs[k - 1].1)
    }
}

/// The output of the echo executor: an object with one member per input
/// (port name and value), in key order.
pub fn echo_output(inputs: Vec<(String, Json)>) -> (r: Json)
    ensures
        r@ == JsonView::Object(echo_members(members_view(inputs@), inputs@.len() as int)),
{
    let ghost iv = members_view(inputs@);
    let n = inputs.len();
    let mut pending = inputs;
    let mut rest: Vec<(String, Json)> = Vec::new();
    while pending.len() > 0
        invariant
            pending@.len() + rest@.len() == n,
            n == iv.len(),
            members_view(pending@) == iv.subrange(0, pending@.len() as int),
            forall|k: int| 0 <= k < rest@.len() ==> (#[trigger] rest@[k]).0@ == iv[n - 1 - k].0 && rest@[k].1@
                == iv[n - 1 - k].1,
        decreases pending@.len(),
    {
        let ghost before = pending@;
        let e = pending.pop().unwrap();
        proof {
            assert(members_view(before)[before.len() - 1] == (e.0@, e.1@));
            assert(members_view(pending@) =~= members_view(before).drop_last());
        }
        rest.push(e);
    }
    let mut members: Vec<(String, Json)> = Vec::new();
    let mut i: usize = 0;
    assert(members_view(members@) =~= echo_members(iv, 0));
    while rest.len() > 0
        invariant
            n == iv.len(),
            i + rest@.len() == n,
            forall|k: int| 0 <= k < rest@.len() ==> (#[trigger] rest@[k]).0@ == iv[n - 1 - k].0 && rest@[k].1@
                == iv[n - 1 - k].1,
            members_view(members@) == echo_members(iv, i as int),
        decreases rest@.len(),
    {
        let e = rest.pop().unwrap();
        let (port, value) = e;
        members = insert_member(members, port, value);
        i = i + 1;
    }
    let r = Json::Object(members);
    proof {
        crate::support::json::lemma_object_view(r);
        assert(crate::support::json::object_members(r@) =~= members_view(members@));
    }
    r
}

/// An executor for tests that fails with a fixed error or succeeds with a
/// fixed output.
#[derive(Debug)]
pub struct MockExecutor {
    /// When set, every execution fails with this error.
    pub fail_with: Option<NodeExecutionError>,
    /// The output of a successful execution.
    pub output: Json,
}

impl MockExecutor {
    /// An executor that succeeds with the given output.
    pub fn succeeding(output: Json) -> (r: Self)
        ensures
            r.fail_with is None,
            r.output == output,
    {
        MockExecutor { fail_with: None, output }
    }

    /// An executor that fails with the given error.
    pub fn failing(error: NodeExecutionError) -> (r: Self)
        ensures
            r.fail_with == Some(error),
            r.output@ == JsonView::Null,
    {
        MockExecutor { fail_with: Some(error), output: Json::Null }
    }

    /// What an execution gives: the configured error, else the output.
    pub fn outcome(&self) -> (r: Result<Json, NodeExecutionError>)
        ensures
            self.fail_with matches Some(e) ==> r is Err && node_execution_error_text(r->Err_0) == node_execution_error_text(e),
            self.fail_with is None ==> r is Ok && r->Ok_0@ == self.output@,
    {
        match &self.fail_with {
            Some(e) => Err(copy_execution_error(e)),
            None => Ok(self.output.deep_clone()),
        }
    }
}

/// A copy of a node execution error.
fn copy_execution_error(e: &NodeExecutionError) -> (r: NodeExecutionError)
    ensures
        node_execution_error_text(r) == node_execution_error_text(*e),
{
    match e {
        NodeExecutionError::InvalidInput { message } => NodeExecutionError::InvalidInput { message: owned(message.as_str()) },
        NodeExecutionError::ExecutionFailed { message } => NodeExecutionError::ExecutionFailed {
            message: owned(message.as_str()),
        },
        NodeExecutionError::UnsupportedNodeType { node_type } => NodeExecutionError::UnsupportedNodeType {
            node_type: owned(node_type.as_str()),
        },
        NodeExecutionError::ExternalServiceError { service, message } => NodeExecutionError::ExternalServiceError {
            service: owned(service.as_str()),
            message: owned(message.as_str()),
        },
        NodeExecutionError::Timeout => NodeExecutionError::Timeout,
    }
}


/// What a worker does next for a work item.
#[derive(Debug)]
pub enum WorkerAction {
    /// Fetch the stored input under this key.
    FetchInput { key: String },
    /// Run the executor on the inputs gathered.
    Execute,
    /// Store the executor's output.
    Store { output: Json },
    /// Report this outcome: the key of the stored output, or the error.
    Report { outcome: Result<String, WorkerError> },
}

/// What happened in the worker's last action.
#[derive(Debug)]
pub enum WorkerEvent {
    /// The worker took up the work item.
    Started,
    /// The next input was fetched and decoded, or could not be.
    InputFetched(Result<Json, WorkerError>),
    /// The executor ran.
    Executed(Result<Json, NodeExecutionError>),
    /// The output was encoded and stored under the returned key, or not.
    Stored(Result<String, WorkerError>),
}

/// The inputs a worker has gathered for a work item, port name and value,
/// in the order of the work item's inputs.
#[derive(Debug)]
pub struct WorkerRun {
    /// The inputs gathered so far.
    pub inputs: Vec<(String, Json)>,
}

/// The action after the first `k` inputs are gathered: fetch the next one,
/// or execute when all are there.
pub open spec fn after_inputs(item: WorkItem, k: int) -> WorkerAction {
    if k < item.inputs@.len() {
        WorkerAction::FetchInput { key: item.inputs@[k].1 }
    } else {
        WorkerAction::Execute
    }
}

impl WorkerRun {
    /// A run that has gathered nothing.
    pub fn new() -> (r: Self)
        ensures
            r.inputs@.len() == 0,
    {
        WorkerRun { inputs: Vec::new() }
    }

    /// Decides the next action on an event. Inputs are fetched one by one
    /// in order; a failed fetch is reported and the executor never runs; a
    /// failed execution is reported and nothing is stored; a stored output is
    /// reported by its key.
    pub fn step(&mut self, item: &WorkItem, event: WorkerEvent) -> (a: WorkerAction)
        requires
            event is InputFetched ==> old(self).inputs@.len() < item.inputs@.len(),
        ensures
            event is Started ==> final(self).inputs@.len() == 0 && a == after_inputs(*item, 0),
            event matches WorkerEvent::InputFetched(Ok(v)) ==> {
                let k = old(self).inputs@.len() as int;
                &&& final(self).inputs@.len() == k + 1
                &&& final(self).inputs@.subrange(0, k) == old(self).inputs@
                &&& final(self).inputs@[k].0@ == item.inputs@[k].0@
                &&& final(self).inputs@[k].1 == v
                &&& a == after_inputs(*item, k + 1)
            },
            event matches WorkerEvent::InputFetched(Err(e)) ==> final(self).inputs@ == old(self).inputs@ && a
                == (WorkerAction::Report { outcome: Err(e) }),
            event matches WorkerEvent::Executed(Ok(out)) ==> final(self).inputs@ == old(self).inputs@ && a
                == (WorkerAction::Store { output: out }),
            event matches WorkerEvent::Executed(Err(e)) ==> final(self).inputs@ == old(self).inputs@ && a
                == (WorkerAction::Report { outcome: Err(WorkerError::Execution(e)) }),
            event matches WorkerEvent::Stored(o) ==> final(self).inputs@ == old(self).inputs@ && a
                == (WorkerAction::Report { outcome: o }),
    {
        match event {
            WorkerEvent::Started => {
                self.inputs = Vec::new();
                self.next_input(item)
            },
            WorkerEvent::InputFetched(Ok(v)) => {
                let k = self.inputs.len();
                let port = item.inputs[k].0.clone();
                self.inputs.push((port, v));
                self.next_input(item)
            },
            WorkerEvent::InputFetched(Err(e)) => WorkerAction::Report { outcome: Err(e) },
            WorkerEvent::Executed(Ok(out)) => WorkerAction::Store { output: out },
            WorkerEvent::Executed(Err(e)) => WorkerAction::Report { outcome: Err(WorkerError::Execution(e)) },
            WorkerEvent::Stored(o) => WorkerAction::Report { outcome: o },
        }
    }

    /// The next input to fetch, or execution when all are gathered.
    fn next_input(&self, item: &WorkItem) -> (a: WorkerAction)
        ensures
            a == after_inputs(*item, self.inputs@.len() as int),
    {
        let k = self.inputs.len();
        if k < item.inputs.len() {
            WorkerAction::FetchInput { key: item.inputs[k].1.clone() }
        } else {
            WorkerAction::Execute
        }
    }
}

} // verus!
