use silver_telegram::ai::backend::{LlmBackendConfig, LlmMessage, LlmProvider, LlmRequest, MessageRole, TokenUsage};
use silver_telegram::ai::coordinate::{ActionExecution, CoordinateConfig, CoordinateResult, CoordinateSessionId, Coordinator, ToolDefinition};
use silver_telegram::ai::error::{AiError, CoordinateError, FeedbackError, LlmError, PromptError};
use silver_telegram::ai::feedback::{Feedback, FeedbackLevel, FeedbackSignal, FeedbackStats};
use silver_telegram::ai::llm_call::{LlmCall, LlmCallConfig, LlmInvocationId, LlmInvocationRecord};
use silver_telegram::platform_core::id::{UserId, WorkflowRunId};
use silver_telegram::support::json::{compact_text, Json};

fn obj(key: &str, value: Json) -> Json {
    Json::Object(vec![(key.to_string(), value)])
}

#[test]
fn llm_request_builder() {
    let request = LlmRequest::new("Hello, world!")
        .with_system("You are a helpful assistant.")
        .with_temperature(0.7f32.to_bits())
        .with_max_tokens(100);
    assert_eq!(request.prompt, "Hello, world!");
    assert_eq!(request.system, Some("You are a helpful assistant.".to_string()));
    assert_eq!(request.temperature.map(f32::from_bits), Some(0.7));
    assert_eq!(request.max_tokens, Some(100));
}

#[test]
fn llm_message_creation() {
    let user_msg = LlmMessage::user("What is the weather?");
    assert_eq!(user_msg.role, MessageRole::User);
    let assistant_msg = LlmMessage::assistant("I don't have access to weather data.");
    assert_eq!(assistant_msg.role, MessageRole::Assistant);
}

#[test]
fn token_usage_total() {
    let usage = TokenUsage { input_tokens: 100, output_tokens: 50 };
    assert_eq!(usage.total(), 150);
}

#[test]
fn backend_config_constructors() {
    let config = LlmBackendConfig::ollama("http://localhost:11434", "llama2");
    assert_eq!(config.provider, LlmProvider::Ollama);
    assert_eq!(config.model, "llama2");
    assert!(config.api_key.is_none());
    let config = LlmBackendConfig::anthropic("key", "large-model");
    assert_eq!(config.provider, LlmProvider::Anthropic);
    assert_eq!(config.base_url, "https://api.anthropic.com");
    assert_eq!(config.api_key, Some("key".to_string()));
}

#[test]
fn coordinate_config_builder() {
    let config = CoordinateConfig::new("Plan a trip to Japan")
        .with_max_iterations(15)
        .with_tool(ToolDefinition::new("search_flights", "Search for flights"))
        .with_tool(ToolDefinition::new("search_hotels", "Search for hotels"));
    assert_eq!(config.goal, "Plan a trip to Japan");
    assert_eq!(config.max_iterations, 15);
    assert_eq!(config.available_tools.len(), 2);
    assert_eq!(config.available_tools[1].name, "search_hotels");
}

#[test]
fn coordinate_tool_definition_builder() {
    let tool = ToolDefinition::new("calculate", "Perform calculations")
        .with_input_schema(obj("type", Json::Str("object".to_string())))
        .with_output_schema(obj("type", Json::Str("number".to_string())));
    assert_eq!(tool.name, "calculate");
    assert!(tool.output_schema.is_some());
    assert!(ToolDefinition::new("x", "y").input_schema.is_empty_object());
}

#[test]
fn action_execution_success() {
    let action = ActionExecution::success(
        "search",
        obj("query", Json::Str("flights".to_string())),
        obj("results", Json::Array(vec![])),
        150,
    );
    assert!(action.is_success());
    assert!(action.output.is_some());
    assert!(action.error.is_none());
}

#[test]
fn action_execution_failure() {
    let action = ActionExecution::failure("api_call", Json::empty_object(), "Connection timeout", 5000);
    assert!(!action.is_success());
    assert!(action.output.is_none());
    assert_eq!(action.error, Some("Connection timeout".to_string()));
}

#[test]
fn coordinate_result_counts_steps() {
    let session_id = CoordinateSessionId::new();
    let started = chrono::Utc::now().timestamp_millis();
    let result = CoordinateResult::success(session_id, "Test goal".to_string(), obj("answer", Json::from_u64(42)), vec![], started);
    assert_eq!(result.session_id, session_id);
    assert!(result.success);
    assert_eq!(result.iteration_count, 0);
    assert!(result.duration() >= 0);
    let failed = CoordinateResult::failure(session_id, "g".to_string(), "boom".to_string(), vec![], started);
    assert!(!failed.success);
    assert_eq!(failed.error, Some("boom".to_string()));
    assert!(session_id.to_string().starts_with("coord_"));
}

#[test]
fn coordinator_builder() {
    let c = Coordinator::new("goal")
        .with_max_iterations(3)
        .with_tool(ToolDefinition::new("t", "d"))
        .with_context(obj("k", Json::boolean(true)));
    assert_eq!(c.config().goal, "goal");
    assert_eq!(c.config().max_iterations, 3);
    assert_eq!(c.config().available_tools.len(), 1);
    assert!(c.initial_context().is_some());
    assert_eq!(Coordinator::new("g").config().max_iterations, 10);
}

#[test]
fn llm_call_builder() {
    let call = LlmCall::new("Classify this email")
        .with_system_prompt("You are a helpful classifier.")
        .with_temperature(0.3f32.to_bits())
        .with_context(obj("email", Json::Str("Hello world".to_string())));
    let request = call.build_request();
    assert!(request.prompt.contains("Classify this email"));
    assert!(request.prompt.contains("Hello world"));
    assert_eq!(request.system, Some("You are a helpful classifier.".to_string()));
    assert_eq!(request.temperature.map(f32::from_bits), Some(0.3));
}

#[test]
fn llm_call_prompt_layout() {
    let call = LlmCall::new("Do it").with_context(obj("a", Json::from_u64(1)));
    let request = call.build_request();
    assert_eq!(request.prompt, "Context:\n{\"a\":1}\n\nDo it");
    let plain = LlmCall::new("Do it").build_request();
    assert_eq!(plain.prompt, "Do it");
    assert!(plain.system.is_none());
}

#[test]
fn compact_text_is_serde_json_display() {
    let v = Json::Object(vec![
        ("a".to_string(), Json::Array(vec![Json::Null, Json::boolean(false), Json::from_u64(7)])),
        ("b".to_string(), Json::Str("x\"y".to_string())),
    ]);
    assert_eq!(compact_text(&v), "{\"a\":[null,false,7],\"b\":\"x\\\"y\"}");
}

#[test]
fn llm_call_config_builder() {
    let config = LlmCallConfig::new("Generate a summary")
        .with_system_prompt("Be concise")
        .with_output_schema(obj("type", Json::Str("string".to_string())));
    assert_eq!(config.prompt, "Generate a summary");
    assert_eq!(config.system_prompt, Some("Be concise".to_string()));
    let call = LlmCall::from_config(config);
    let request = call.build_request();
    assert!(request.output_schema.unwrap().equals(&obj("type", Json::Str("string".to_string()))));
}

#[test]
fn invocation_id_display() {
    let id = LlmInvocationId::new();
    assert!(id.to_string().starts_with("llm_"));
}

#[test]
fn invocation_record_failure_holds_message() {
    let record = LlmInvocationRecord::failure(LlmRequest::new("p"), &LlmError::Timeout);
    assert_eq!(record.error, Some("LLM request timed out".to_string()));
    assert!(record.response.is_none());
}

#[test]
fn llm_error_display() {
    let err = LlmError::ProviderUnavailable { provider: "ollama".to_string(), reason: "connection refused".to_string() };
    assert!(err.to_string().contains("ollama"));
    assert!(err.to_string().contains("connection refused"));
    assert_eq!(LlmError::RateLimited { retry_after_secs: Some(30) }.to_string(), "rate limited, retry after 30s");
    assert_eq!(LlmError::RateLimited { retry_after_secs: None }.to_string(), "rate limited");
}

#[test]
fn prompt_error_display() {
    let err = PromptError::MissingVariable { template: "classify_email".to_string(), variable: "content".to_string() };
    assert!(err.to_string().contains("content"));
    assert!(err.to_string().contains("classify_email"));
    assert_eq!(err.to_string(), "missing required variable 'content' in template 'classify_email'");
}

#[test]
fn coordinate_error_display() {
    let err = CoordinateError::MaxIterationsExceeded { max: 10, goal: "plan trip".to_string() };
    assert!(err.to_string().contains("10"));
    assert!(err.to_string().contains("plan trip"));
}

#[test]
fn feedback_error_display() {
    let err = FeedbackError::StoreFailed { reason: "database unavailable".to_string() };
    assert!(err.to_string().contains("database unavailable"));
}

#[test]
fn ai_error_names_invocation() {
    let id = LlmInvocationId::new();
    let err = AiError::LlmCall { invocation_id: id };
    assert_eq!(err.to_string(), format!("LLM call {} failed", id.to_string()));
}

#[test]
fn positive_feedback_creation() {
    let feedback = Feedback::positive_llm_output(UserId::new(), LlmInvocationId::new(), obj("category", Json::Str("spam".to_string())));
    assert_eq!(feedback.signal, FeedbackSignal::Positive);
    assert_eq!(feedback.level, FeedbackLevel::PerOutput);
    assert!(feedback.correction.is_none());
}

#[test]
fn negative_feedback_with_correction() {
    let correction = obj("category", Json::Str("important".to_string()));
    let feedback = Feedback::negative_llm_output(
        UserId::new(),
        LlmInvocationId::new(),
        obj("category", Json::Str("spam".to_string())),
        correction.clone(),
    );
    assert_eq!(feedback.signal, FeedbackSignal::Negative);
    assert!(feedback.correction.unwrap().equals(&correction));
}

#[test]
fn feedback_with_comment() {
    let feedback = Feedback::workflow_run(UserId::new(), WorkflowRunId::new(), FeedbackSignal::Positive)
        .with_comment("Great results!");
    assert_eq!(feedback.comment, Some("Great results!".to_string()));
    assert_eq!(feedback.level, FeedbackLevel::PerWorkflowRun);
}

#[test]
fn feedback_stats_start_at_zero() {
    let stats = FeedbackStats::default();
    assert_eq!(stats.total_count, 0);
    assert_eq!(stats.by_level.per_workflow_run, 0);
}
