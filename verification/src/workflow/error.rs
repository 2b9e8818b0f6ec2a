//! Error kinds of the workflow engine, with their messages.

use vstd::prelude::*;
use vstd::string::*;
use crate::platform_core::id::{WorkflowId, id_text};
use crate::workflow::node::NodeId;

verus! {

/// Errors from graph operations.
#[derive(Debug)]
pub enum GraphError {
    /// No node with the given identifier is in the graph.
    NodeNotFound { node_id: NodeId },
    /// The source node has no output port with the given name.
    SourcePortNotFound { node_id: NodeId, port_name: String },
    /// The target node has no input port with the given name.
    TargetPortNotFound { node_id: NodeId, port_name: String },
    /// The two ports' schemas are incompatible.
    IncompatibleSchemas { source_node: NodeId, source_port: String, target_node: NodeId, target_port: String },
    /// A required input port has no incoming edge.
    RequiredInputMissing { node_id: NodeId, port_name: String },
    /// The graph contains a cycle.
    CycleDetected,
}

/// The text form of a node identifier.
pub open spec fn node_text(n: NodeId) -> Seq<char> {
    id_text("node"@, n.0)
}

/// The message of a graph error.
pub open spec fn graph_error_text(e: GraphError) -> Seq<char> {
    match e {
        GraphError::NodeNotFound { node_id } => "node not found: "@ + node_text(node_id),
        GraphError::SourcePortNotFound { node_id, port_name } => "source port '"@ + port_name@
            + "' not found on node "@ + node_text(node_id),
        GraphError::TargetPortNotFound { node_id, port_name } => "target port '"@ + port_name@
            + "' not found on node "@ + node_text(node_id),
        GraphError::IncompatibleSchemas { source_node, source_port, target_node, target_port } =>
            "incompatible schemas: "@ + node_text(source_node) + ":"@ + source_port@ + " -> "@
            + node_text(target_node) + ":"@ + target_port@,
        GraphError::RequiredInputMissing { node_id, port_name } => "required input port '"@
            + port_name@ + "' on node "@ + node_text(node_id) + " has no incoming edge"@,
        GraphError::CycleDetected => "graph contains cycles"@,
    }
}

impl GraphError {
    /// The error's message.
    pub fn to_string(&self) -> (s: String)
        ensures
            s@ == graph_error_text(*self),
    {
        match self {
            GraphError::NodeNotFound { node_id } => {
                String::from_str("node not found: ").concat(node_id.to_string().as_str())
            },
            GraphError::SourcePortNotFound { node_id, port_name } => {
                String::from_str("source port '").concat(port_name.as_str()).concat(
                    "' not found on node ",
                ).concat(node_id.to_string().as_str())
            },
            GraphError::TargetPortNotFound { node_id, port_name } => {
                String::from_str("target port '").concat(port_name.as_str()).concat(
                    "' not found on node ",
                ).concat(node_id.to_string().as_str())
            },
            GraphError::IncompatibleSchemas { source_node, source_port, target_node, target_port } => {
                String::from_str("incompatible schemas: ").concat(source_node.to_string().as_str()).concat(
                    ":",
                ).concat(source_port.as_str()).concat(" -> ").concat(target_node.to_string().as_str()).concat(
                    ":",
                ).concat(target_port.as_str())
            },
            GraphError::RequiredInputMissing { node_id, port_name } => {
                String::from_str("required input port '").concat(port_name.as_str()).concat(
                    "' on node ",
                ).concat(node_id.to_string().as_str()).concat(" has no incoming edge")
            },
            GraphError::CycleDetected => String::from_str("graph contains cycles"),
        }
    }
}

/// Errors during workflow execution.
#[derive(Debug)]
pub enum ExecutionError {
    /// A node failed.
    NodeFailed { node_id: NodeId, reason: String },
    /// A node timed out.
    NodeTimeout { node_id: NodeId },
    /// Required input data was not provided.
    MissingInput { node_id: NodeId, port_name: String },
    /// Output schema validation failed.
    OutputValidationFailed { node_id: NodeId, reason: String },
    /// The execution was cancelled.
    Cancelled,
}

/// The message of an execution error.
pub open spec fn execution_error_text(e: ExecutionError) -> Seq<char> {
    match e {
        ExecutionError::NodeFailed { node_id, reason } => "node "@ + node_text(node_id) + " failed: "@
            + reason@,
        ExecutionError::NodeTimeout { node_id } => "node "@ + node_text(node_id) + " timed out"@,
        ExecutionError::MissingInput { node_id, port_name } => "missing input '"@ + port_name@
            + "' for node "@ + node_text(node_id),
        ExecutionError::OutputValidationFailed { node_id, reason } =>
            "output validation failed for node "@ + node_text(node_id) + ": "@ + reason@,
        ExecutionError::Cancelled => "execution cancelled"@,
    }
}

impl ExecutionError {
    /// The error's message.
    pub fn to_string(&self) -> (s: String)
        ensures
            s@ == execution_error_text(*self),
    {
        match self {
            ExecutionError::NodeFailed { node_id, reason } => {
                String::from_str("node ").concat(node_id.to_string().as_str()).concat(" failed: ").concat(
                    reason.as_str(),
                )
            },
            ExecutionError::NodeTimeout { node_id } => {
                String::from_str("node ").concat(node_id.to_string().as_str()).concat(" timed out")
            },
            ExecutionError::MissingInput { node_id, port_name } => {
                String::from_str("missing input '").concat(port_name.as_str()).concat("' for node ").concat(
                    node_id.to_string().as_str(),
                )
            },
            ExecutionError::OutputValidationFailed { node_id, reason } => {
                String::from_str("output validation failed for node ").concat(
                    node_id.to_string().as_str(),
                ).concat(": ").concat(reason.as_str())
            },
            ExecutionError::Cancelled => String::from_str("execution cancelled"),
        }
    }
}

/// High-level workflow errors.
#[derive(Debug)]
pub enum WorkflowError {
    /// The workflow was not found.
    NotFound { workflow_id: WorkflowId },
    /// An invalid state transition was attempted.
    InvalidStateTransition { from: String, to: String },
    /// A graph operation failed for this workflow.
    GraphOperation { workflow_id: WorkflowId },
    /// Execution failed for this workflow.
    Execution { workflow_id: WorkflowId },
}

/// The message of a workflow error.
pub open spec fn workflow_error_text(e: WorkflowError) -> Seq<char> {
    match e {
        WorkflowError::NotFound { workflow_id } => "workflow not found: "@ + id_text("wf"@, workflow_id.0),
        WorkflowError::InvalidStateTransition { from, to } => "invalid state transition from "@ + from@
            + " to "@ + to@,
        WorkflowError::GraphOperation { workflow_id } => "graph operation failed for workflow "@
            + id_text("wf"@, workflow_id.0),
        WorkflowError::Execution { workflow_id } => "execution failed for workflow "@ + id_text(
            "wf"@,
            workflow_id.0,
        ),
    }
}

impl WorkflowError {
    /// The error's message.
    pub fn to_string(&self) -> (s: String)
        ensures
            s@ == workflow_error_text(*self),
    {
        match self {
            WorkflowError::NotFound { workflow_id } => {
                String::from_str("workflow not found: ").concat(workflow_id.to_string().as_str())
            },
            WorkflowError::InvalidStateTransition { from, to } => {
                String::from_str("invalid state transition from ").concat(from.as_str()).concat(" to ").concat(
                    to.as_str(),
                )
            },
            WorkflowError::GraphOperation { workflow_id } => {
                String::from_str("graph operation failed for workflow ").concat(
                    workflow_id.to_string().as_str(),
                )
            },
            WorkflowError::Execution { workflow_id } => {
                String::from_str("execution failed for workflow ").concat(workflow_id.to_string().as_str())
            },
        }
    }
}

} // verus!
