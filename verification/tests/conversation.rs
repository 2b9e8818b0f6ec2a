use silver_telegram::conversation::context::{ContextFact, FactQuery, FactSource};
use silver_telegram::conversation::error::{ContextError, SessionError, ToolError};
use silver_telegram::conversation::message::{Message, MessageRole, ToolCall, ToolResult as CallResult};
use silver_telegram::conversation::session::{Session, SessionState};
use silver_telegram::conversation::tool::{ToolCategory, ToolDefinition, ToolRegistry, ToolResult};
use silver_telegram::platform_core::id::{ConversationSessionId, UserId};
use silver_telegram::support::json::Json;

fn obj(key: &str, value: Json) -> Json {
    Json::Object(vec![(key.to_string(), value)])
}

#[test]
fn message_creation() {
    let msg = Message::user("Hello!");
    assert_eq!(msg.role, MessageRole::User);
    assert_eq!(msg.content, "Hello!");
}

#[test]
fn message_with_tool_calls() {
    let tool_call = ToolCall::new("call_1", "search", obj("query", Json::Str("weather".to_string())));
    let msg = Message::assistant("Let me search for that.").with_tool_call(tool_call);
    assert!(msg.has_tool_calls());
    assert_eq!(msg.tool_calls.len(), 1);
    assert_eq!(msg.tool_calls[0].name, "search");
}

#[test]
fn message_tool_result_success() {
    let result = CallResult::success("call_1", obj("answer", Json::from_u64(42)));
    assert!(result.is_success());
}

#[test]
fn message_tool_result_failure() {
    let result = CallResult::failure("call_1", "Connection timeout");
    assert!(!result.is_success());
    assert_eq!(result.error, Some("Connection timeout".to_string()));
}

#[test]
fn tool_message_has_empty_content() {
    let msg = Message::tool("call_9", Json::null());
    assert_eq!(msg.role, MessageRole::Tool);
    assert_eq!(msg.content, "");
    assert_eq!(msg.tool_result.as_ref().unwrap().tool_call_id, "call_9");
}

#[test]
fn tool_tool_definition_builder() {
    let tool = ToolDefinition::new("search_emails", "Search through emails")
        .with_input_schema(obj("type", Json::Str("object".to_string())))
        .with_category(ToolCategory::Integration)
        .requires_confirmation();
    assert_eq!(tool.name, "search_emails");
    assert!(tool.requires_confirmation);
    assert_eq!(tool.category, ToolCategory::Integration);
}

#[test]
fn tool_tool_result_success() {
    let result = ToolResult::success(obj("emails", Json::Array(vec![])));
    assert!(result.success);
    assert!(result.data.is_some());
}

#[test]
fn tool_tool_result_failure() {
    let result = ToolResult::failure("Connection failed");
    assert!(!result.success);
    assert_eq!(result.error, Some("Connection failed".to_string()));
}

#[test]
fn tool_registry_operations() {
    let mut registry = ToolRegistry::new();
    registry.register(ToolDefinition::new("tool1", "First tool").with_category(ToolCategory::Integration));
    registry.register(ToolDefinition::new("tool2", "Second tool").with_category(ToolCategory::Search));
    assert_eq!(registry.len(), 2);
    assert!(registry.get("tool1").is_some());
    assert!(registry.get("nonexistent").is_none());
    let integration_tools = registry.by_category(ToolCategory::Integration);
    assert_eq!(integration_tools.len(), 1);
}

#[test]
fn tool_registry_register_replaces_same_name() {
    let mut registry = ToolRegistry::new();
    registry.register(ToolDefinition::new("t", "old"));
    registry.register(ToolDefinition::new("t", "new"));
    assert_eq!(registry.len(), 1);
    assert_eq!(registry.get("t").unwrap().description, "new");
    assert_eq!(registry.all().len(), 1);
    assert!(!registry.is_empty());
}

#[test]
fn tool_registry_llm_format() {
    let mut registry = ToolRegistry::new();
    registry.register(ToolDefinition::new("calculate", "Do math").with_input_schema(obj("type", Json::Str("object".to_string()))));
    let llm_format = registry.to_llm_format();
    assert_eq!(llm_format.len(), 1);
    assert!(llm_format[0].get("name").unwrap().equals(&Json::Str("calculate".to_string())));
    assert!(llm_format[0].get("description").unwrap().equals(&Json::Str("Do math".to_string())));
}

#[test]
fn session_creation() {
    let user_id = UserId::new();
    let session = Session::new(user_id);
    assert_eq!(session.user_id, user_id);
    assert_eq!(session.state, SessionState::Active);
    assert!(session.messages.is_empty());
}

#[test]
fn session_add_message() {
    let mut session = Session::new(UserId::new());
    session.add_message(Message::new(MessageRole::User, "Hello!"));
    assert_eq!(session.message_count(), 1);
    assert_eq!(session.last_message().unwrap().content, "Hello!");
}

#[test]
fn session_authoring_mode() {
    let mut session = Session::new(UserId::new());
    assert!(session.state.can_accept_messages());
    session.enter_authoring_mode();
    assert_eq!(session.state, SessionState::Authoring);
    assert!(session.state.can_accept_messages());
    session.exit_authoring_mode();
    assert_eq!(session.state, SessionState::Active);
}

#[test]
fn session_end() {
    let mut session = Session::new(UserId::new());
    session.end();
    assert!(session.state.is_ended());
    assert!(!session.state.can_accept_messages());
}

#[test]
fn session_generate_title() {
    let mut session = Session::new(UserId::new());
    session.add_message(Message::new(MessageRole::User, "What's the weather today?"));
    session.add_message(Message::new(MessageRole::Assistant, "I can help with that."));
    session.generate_title();
    assert_eq!(session.metadata.title, Some("What's the weather today?".to_string()));
}

#[test]
fn session_generate_title_cuts_long_text() {
    let mut session = Session::new(UserId::new());
    let long = "a".repeat(60);
    session.add_message(Message::new(MessageRole::User, &long));
    session.generate_title();
    assert_eq!(session.metadata.title, Some(format!("{}...", "a".repeat(47))));
}

#[test]
fn explicit_fact_creation() {
    let fact = ContextFact::explicit(UserId::new(), "preference", "timezone", Json::Str("America/New_York".to_string()));
    assert_eq!(fact.source, FactSource::Explicit);
    assert!(fact.is_core);
    assert!(fact.confidence_bits.is_none());
}

#[test]
fn inferred_fact_creation() {
    let fact = ContextFact::inferred(
        UserId::new(),
        "preference",
        "coffee_preference",
        Json::Str("black".to_string()),
        0.75f64.to_bits(),
    );
    assert_eq!(fact.source, FactSource::Inferred);
    assert!(!fact.is_core);
    assert_eq!(fact.confidence_bits.map(f64::from_bits), Some(0.75));
}

#[test]
fn fact_update() {
    let mut fact = ContextFact::explicit(UserId::new(), "preference", "color", Json::Str("blue".to_string()));
    let original_updated = fact.updated_at;
    fact.update_value(Json::Str("green".to_string()));
    assert!(fact.value.equals(&Json::Str("green".to_string())));
    assert!(fact.updated_at >= original_updated);
}

#[test]
fn fact_query_builder() {
    let user_id = UserId::new();
    let query = FactQuery::for_user(user_id).with_category("preference").core_only();
    assert_eq!(query.user_id, Some(user_id));
    assert_eq!(query.category, Some("preference".to_string()));
    assert!(query.core_only);
}

#[test]
fn session_error_display() {
    let id = ConversationSessionId::new();
    let err = SessionError::NotFound { id };
    assert!(err.to_string().contains("session not found"));
    assert!(err.to_string().contains(&id.to_string()));
}

#[test]
fn context_error_display() {
    let err = ContextError::FactNotFound { id: "fact_123".to_string() };
    assert!(err.to_string().contains("fact not found"));
    assert!(err.to_string().contains("fact_123"));
}

#[test]
fn tool_error_display() {
    let err = ToolError::ExecutionFailed { name: "search_emails".to_string(), reason: "timeout".to_string() };
    assert!(err.to_string().contains("search_emails"));
    assert!(err.to_string().contains("timeout"));
}
