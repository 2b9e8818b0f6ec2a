use silver_telegram::integration::connector::{ConnectorCapability, ConnectorInfo, Operation, OperationMetadata, OperationResult};
use silver_telegram::integration::credential::{Credential, CredentialData, CredentialType};
use silver_telegram::integration::error::{ConnectorError, CredentialError, IntegrationError};
use silver_telegram::platform_core::id::{CredentialId, IntegrationAccountId, UserId};
use silver_telegram::support::json::Json;

#[test]
fn operation_builder() {
    let op = Operation::new("fetch_emails")
        .with_param("folder", Json::Str("inbox".to_string()))
        .with_param("limit", Json::from_u64(10));
    assert_eq!(op.name, "fetch_emails");
    assert!(op.parameters.get("folder").unwrap().equals(&Json::Str("inbox".to_string())));
    assert!(op.parameters.get("limit").unwrap().equals(&Json::from_u64(10)));
}

#[test]
fn operation_with_param_replaces_existing_key() {
    let op = Operation::new("x").with_param("k", Json::from_u64(1)).with_param("k", Json::from_u64(2));
    assert!(op.parameters.get("k").unwrap().equals(&Json::from_u64(2)));
}

#[test]
fn operation_result_success() {
    let result = OperationResult::success(
        Json::Object(vec![("emails".to_string(), Json::Array(vec![]))]),
        OperationMetadata { latency_ms: 150, api_calls: 1, rate_limit_remaining: Some(99) },
    );
    assert!(result.success);
    assert!(result.data.is_some());
    assert!(result.error.is_none());
}

#[test]
fn operation_result_failure() {
    let result = OperationResult::failure("Connection timeout", OperationMetadata::default());
    assert!(!result.success);
    assert!(result.data.is_none());
    assert_eq!(result.error, Some("Connection timeout".to_string()));
}

#[test]
fn connector_info_supports_capabilities() {
    let info = ConnectorInfo {
        id: "email_imap".to_string(),
        name: "IMAP Email".to_string(),
        description: "Email access via IMAP protocol".to_string(),
        protocol: "imap".to_string(),
        operations: vec![],
        capabilities: vec![ConnectorCapability::Read, ConnectorCapability::Write],
    };
    assert!(info.supports(ConnectorCapability::Read));
    assert!(!info.supports(ConnectorCapability::Subscribe));
    assert_eq!(info.capabilities.len(), 2);
}

#[test]
fn oauth2_credential_data() {
    assert_eq!(CredentialData::oauth2("access_token_123").credential_type(), CredentialType::Oauth2);
}

#[test]
fn api_key_credential_data() {
    assert_eq!(CredentialData::api_key("my_api_key").credential_type(), CredentialType::ApiKey);
}

#[test]
fn basic_auth_credential_data() {
    assert_eq!(CredentialData::basic_auth("user", "pass").credential_type(), CredentialType::BasicAuth);
}

#[test]
fn oauth2_needs_refresh() {
    let now = chrono::Utc::now().timestamp_millis();
    let expired = CredentialData::Oauth2 {
        access_token: "token".to_string(),
        refresh_token: Some("refresh".to_string()),
        token_type: "Bearer".to_string(),
        expires_at: Some(now - 3_600_000),
        scope: None,
    };
    assert!(expired.needs_refresh());
    let valid = CredentialData::Oauth2 {
        access_token: "token".to_string(),
        refresh_token: None,
        token_type: "Bearer".to_string(),
        expires_at: Some(now + 3_600_000),
        scope: None,
    };
    assert!(!valid.needs_refresh());
    assert!(!CredentialData::api_key("k").needs_refresh_at(now));
}

#[test]
fn credential_creation() {
    let cred = Credential::new(IntegrationAccountId::new(), UserId::new(), "Gmail Token", CredentialType::Oauth2);
    assert_eq!(cred.name, "Gmail Token");
    assert_eq!(cred.credential_type, CredentialType::Oauth2);
    assert!(cred.last_used_at.is_none());
}

#[test]
fn connector_error_display() {
    let err = ConnectorError::ConnectionFailed { reason: "host unreachable".to_string() };
    assert!(err.to_string().contains("connection failed"));
    assert!(err.to_string().contains("host unreachable"));
}

#[test]
fn connector_error_rate_limited() {
    let err = ConnectorError::RateLimited { retry_after_secs: Some(60) };
    assert!(err.to_string().contains("60s"));
}

#[test]
fn credential_error_display() {
    let err = CredentialError::NotFound { id: CredentialId::new() };
    assert!(err.to_string().contains("credential not found"));
}

#[test]
fn connector_operation_error_display() {
    let err = IntegrationError::ConnectorOperation { connector_id: "gmail".to_string(), operation: "fetch_emails".to_string() };
    assert!(err.to_string().contains("gmail"));
    assert!(err.to_string().contains("fetch_emails"));
}
