use silver_telegram::platform_core::error::{AiError, ConversationError, IntegrationError, Result, WorkflowError};
use silver_telegram::platform_core::id::{UserId, WorkflowId, WorkflowRunId};

#[test]
fn result_type_works() {
    let ok: Result<i32> = Ok(42);
    assert_eq!(ok.expect("should be ok"), 42);
}

#[test]
fn error_workflow_error_display() {
    let err = WorkflowError::NotFound { id: "wf-123".to_string() };
    assert_eq!(err.to_string(), "workflow not found: wf-123");
}

#[test]
fn conversation_error_display() {
    let err = ConversationError::SessionNotFound { id: "sess-456".to_string() };
    assert_eq!(err.to_string(), "session not found: sess-456");
}

#[test]
fn error_integration_error_display() {
    let err = IntegrationError::RateLimitExceeded {
        service: "gmail".to_string(),
        retry_after_secs: Some(60),
    };
    assert_eq!(err.to_string(), "rate limit exceeded for gmail, retry after 60s");
}

#[test]
fn ai_error_display() {
    let err = AiError::MaxIterationsExceeded { max: 10, goal: "plan trip".to_string() };
    assert_eq!(err.to_string(), "coordinate loop exceeded 10 iterations for goal: plan trip");
}

#[test]
fn user_id_display_format() {
    let id = UserId::new();
    let display = id.to_string();
    assert!(display.starts_with("usr_"));
}

#[test]
fn workflow_id_display_format() {
    let id = WorkflowId::new();
    let display = id.to_string();
    assert!(display.starts_with("wf_"));
}

#[test]
fn parse_with_prefix() {
    let id = WorkflowId::new();
    let display = id.to_string();
    let parsed: WorkflowId = display.parse().expect("should parse");
    assert_eq!(id, parsed);
}

#[test]
fn parse_without_prefix() {
    let ulid = ulid::Ulid::new();
    let id: WorkflowId = ulid.to_string().parse().expect("should parse");
    assert_eq!(id.as_ulid(), ulid.0);
}

#[test]
fn parse_invalid_ulid() {
    let result: std::result::Result<WorkflowId, _> = "not_a_ulid".parse();
    assert!(result.is_err());
    let err = result.unwrap_err();
    assert_eq!(err.id_type, "WorkflowId");
}

#[test]
fn id_equality() {
    let ulid = ulid::Ulid::new();
    let id1 = UserId::from_ulid(ulid.0);
    let id2 = UserId::from_ulid(ulid.0);
    assert_eq!(id1, id2);
}

#[test]
fn id_hash() {
    let id1 = WorkflowId::new();
    let id2 = WorkflowId::new();
    let mut set = std::collections::HashSet::new();
    set.insert(id1);
    set.insert(id2);
    set.insert(id1);
    assert_eq!(set.len(), 2);
}

#[test]
fn run_id_text_roundtrip() {
    let id = WorkflowRunId::from_ulid(0x0123_4567_89ab_cdef_0123_4567_89ab_cdef);
    let text = id.to_string();
    assert!(text.starts_with("run_"));
    assert_eq!(text.len(), 4 + 26);
    assert_eq!(WorkflowRunId::parse_str(&text).expect("parses"), id);
    // The bare ULID parses too.
    assert_eq!(WorkflowRunId::parse_str(&text[4..]).expect("parses"), id);
}

#[test]
fn parse_error_message_names_type() {
    let err = UserId::parse_str("usr_???").unwrap_err();
    assert!(err.to_string().starts_with("failed to parse UserId: "));
}

#[test]
fn workflow_error_connection_message() {
    let err = WorkflowError::InvalidPortConnection {
        source_node: "a".to_string(),
        source_port: "out".to_string(),
        target_node: "b".to_string(),
        target_port: "in".to_string(),
        reason: "type mismatch".to_string(),
    };
    assert_eq!(err.to_string(), "invalid connection from a:out to b:in: type mismatch");
    let err = WorkflowError::RequiredInputMissing { node_id: "n1".to_string(), port_name: "p".to_string() };
    assert_eq!(err.to_string(), "required input port p on node n1 has no incoming edge");
}

#[test]
fn integration_error_without_retry() {
    let err = IntegrationError::RateLimitExceeded { service: "gmail".to_string(), retry_after_secs: None };
    assert_eq!(err.to_string(), "rate limit exceeded for gmail");
}
