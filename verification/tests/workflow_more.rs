use silver_telegram::platform_core::id::WorkflowId;
use silver_telegram::support::json::Json;
use silver_telegram::workflow::definition::{Workflow, WorkflowMetadata, WorkflowSummary};
use silver_telegram::workflow::envelope::{Envelope, RawEnvelope, CURRENT_VERSION};
use silver_telegram::workflow::error::{ExecutionError, GraphError, WorkflowError};
use silver_telegram::workflow::node::NodeId;

#[derive(Debug, Clone, PartialEq, Eq)]
struct TestPayload {
    message: String,
    count: u32,
}

#[test]
fn workflow_creation() {
    let workflow = Workflow::new("Test Workflow");
    assert_eq!(workflow.name(), "Test Workflow");
    assert!(workflow.is_enabled());
    assert_eq!(workflow.graph.node_count(), 0);
}

#[test]
fn workflow_enable_disable() {
    let mut workflow = Workflow::new("Test");
    workflow.disable();
    assert!(!workflow.is_enabled());
    workflow.enable();
    assert!(workflow.is_enabled());
}

#[test]
fn workflow_metadata_builder() {
    let metadata = WorkflowMetadata::new("My Workflow")
        .with_description("Does something useful")
        .with_version("1.0.0")
        .with_tag("daily")
        .with_tag("email");
    assert_eq!(metadata.name, "My Workflow");
    assert_eq!(metadata.description, Some("Does something useful".to_string()));
    assert_eq!(metadata.version, "1.0.0");
    assert_eq!(metadata.tags, vec!["daily", "email"]);
}

#[test]
fn workflow_summary_from_workflow() {
    let workflow = Workflow::new("Summary Test");
    let summary = WorkflowSummary::from_workflow(&workflow);
    assert_eq!(summary.id, workflow.id);
    assert_eq!(summary.name, "Summary Test");
    assert_eq!(summary.node_count, 0);
}

#[test]
fn empty_workflow_validates() {
    let workflow = Workflow::with_id(WorkflowId::new(), "w");
    assert!(workflow.validate().is_ok());
}

#[test]
fn envelope_creation() {
    let payload = TestPayload { message: "hello".to_string(), count: 42 };
    let envelope = Envelope::new(payload.clone());
    assert_eq!(envelope.version, CURRENT_VERSION);
    assert_eq!(envelope.payload(), &payload);
    assert!(envelope.is_current_version());
    assert_eq!(envelope.into_payload(), payload);
}

#[test]
fn envelope_of_older_version_is_not_current() {
    let envelope = Envelope { version: CURRENT_VERSION + 1, payload: 3u8 };
    assert!(!envelope.is_current_version());
}

#[test]
fn raw_envelope_reports_version() {
    let raw = RawEnvelope { version: CURRENT_VERSION, payload: Json::null() };
    assert_eq!(raw.version(), CURRENT_VERSION);
}

#[test]
fn graph_error_display() {
    let err = GraphError::NodeNotFound { node_id: NodeId::new() };
    assert!(err.to_string().contains("node not found"));
}

#[test]
fn graph_error_source_port_not_found() {
    let err = GraphError::SourcePortNotFound { node_id: NodeId::new(), port_name: "output".to_string() };
    assert!(err.to_string().contains("source port 'output' not found"));
}

#[test]
fn execution_error_display() {
    let err = ExecutionError::NodeFailed { node_id: NodeId::new(), reason: "timeout".to_string() };
    assert!(err.to_string().contains("failed"));
    assert!(err.to_string().contains("timeout"));
}

#[test]
fn workflow_not_found_error_display() {
    let err = WorkflowError::NotFound { workflow_id: WorkflowId::new() };
    assert!(err.to_string().contains("workflow not found"));
}
