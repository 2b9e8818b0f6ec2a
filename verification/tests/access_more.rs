use silver_telegram::platform_access::auth::AuthenticatedUser;
use silver_telegram::platform_access::error::{AuthenticationError, AuthorizationError};
use silver_telegram::platform_access::oidc::OidcConfig;
use silver_telegram::platform_access::role::RoleSet;
use silver_telegram::platform_access::session::{Session, SessionId};
use silver_telegram::platform_access::user::User;
use silver_telegram::platform_core::id::UserId;

fn example_config() -> OidcConfig {
    OidcConfig::new(
        "https://auth.example.com".to_string(),
        "client-id".to_string(),
        "client-secret".to_string(),
        "https://app.example.com/auth/callback".to_string(),
    )
}

#[test]
fn new_config_has_defaults() {
    let config = example_config();
    assert_eq!(config.issuer_url(), "https://auth.example.com");
    assert_eq!(config.client_id(), "client-id");
    assert_eq!(config.client_secret(), "client-secret");
    assert_eq!(config.redirect_uri(), "https://app.example.com/auth/callback");
    assert!(config.scopes().contains(&"openid"));
    assert!(config.scopes().contains(&"email"));
    assert!(config.scopes().contains(&"profile"));
    assert_eq!(config.groups_claim(), "groups");
    assert_eq!(config.user_group(), "platform-users");
    assert_eq!(config.admin_group(), "platform-admins");
}

#[test]
fn builder_allows_customization() {
    let config = OidcConfig::builder(
        "https://auth.example.com".to_string(),
        "client-id".to_string(),
        "client-secret".to_string(),
        "https://app.example.com/auth/callback".to_string(),
    )
    .groups_claim("cognito:groups".to_string())
    .user_group("MyApp-Users".to_string())
    .admin_group("MyApp-Admins".to_string())
    .add_scope("groups".to_string())
    .build();
    assert_eq!(config.groups_claim(), "cognito:groups");
    assert_eq!(config.user_group(), "MyApp-Users");
    assert_eq!(config.admin_group(), "MyApp-Admins");
    assert!(config.scopes().contains(&"groups"));
}

#[test]
fn builder_add_scope_does_not_duplicate() {
    let config = OidcConfig::builder(
        "https://auth.example.com".to_string(),
        "client-id".to_string(),
        "client-secret".to_string(),
        "https://app.example.com/auth/callback".to_string(),
    )
    .add_scope("openid".to_string())
    .add_scope("custom".to_string())
    .build();
    let openid_count = config.scopes().iter().filter(|s| **s == "openid").count();
    assert_eq!(openid_count, 1);
    assert!(config.scopes().contains(&"custom"));
}

#[test]
fn scopes_parses_comma_separated() {
    let config = OidcConfig::builder("i".to_string(), "c".to_string(), "s".to_string(), "r".to_string())
        .scopes(vec!["openid".to_string(), "email".to_string()])
        .build();
    assert_eq!(config.scopes_raw(), "openid,email");
    assert_eq!(config.scopes(), vec!["openid", "email"]);
}

#[test]
fn new_user_has_generated_id() {
    let user = User::new("sub_123".to_string(), "https://auth.example.com".to_string());
    assert!(user.id().to_string().starts_with("usr_"));
}

#[test]
fn new_user_has_subject_and_issuer() {
    let user = User::new("user|abc123".to_string(), "https://auth.example.com".to_string());
    assert_eq!(user.subject(), "user|abc123");
    assert_eq!(user.issuer(), "https://auth.example.com");
}

#[test]
fn new_user_has_no_optional_fields() {
    let user = User::new("sub_123".to_string(), "https://auth.example.com".to_string());
    assert!(user.email().is_none());
    assert!(user.display_name().is_none());
    assert!(user.timezone().is_none());
}

#[test]
fn new_user_has_timestamps() {
    let before = chrono::Utc::now().timestamp_millis();
    let user = User::new("sub_123".to_string(), "https://auth.example.com".to_string());
    let after = chrono::Utc::now().timestamp_millis();
    assert!(user.created_at() >= before);
    assert!(user.created_at() <= after);
    assert_eq!(user.created_at(), user.updated_at());
}

#[test]
fn setters_update_fields() {
    let mut user = User::new("sub_123".to_string(), "https://auth.example.com".to_string());
    let original = user.updated_at();
    user.set_email(Some("a@b.c".to_string()));
    user.set_display_name(Some("Ann".to_string()));
    user.set_timezone(Some("Europe/Paris".to_string()));
    assert_eq!(user.email(), Some("a@b.c"));
    assert_eq!(user.display_name(), Some("Ann"));
    assert_eq!(user.timezone(), Some("Europe/Paris"));
    assert!(user.updated_at() >= original);
}

#[test]
fn with_all_fields_preserves_values() {
    let id = UserId::new();
    let user = User::with_all_fields(
        id,
        "sub".to_string(),
        "iss".to_string(),
        Some("e@x.y".to_string()),
        None,
        Some("UTC".to_string()),
        10,
        20,
    );
    assert_eq!(user.id(), id);
    assert_eq!(user.email(), Some("e@x.y"));
    assert_eq!(user.display_name(), None);
    assert_eq!(user.created_at(), 10);
    assert_eq!(user.updated_at(), 20);
}

#[test]
fn authenticated_user_has_user_info() {
    let user = User::new("sub_123".to_string(), "https://auth.example.com".to_string());
    let session = Session::new(SessionId::new("sess_abc".to_string()), user.id(), RoleSet::user(), 3_600_000);
    let auth_user = AuthenticatedUser::new(session.clone(), user.clone());
    assert_eq!(auth_user.user_id(), user.id());
    assert_eq!(auth_user.user().subject(), "sub_123");
    assert!(!auth_user.is_admin());
}

#[test]
fn authenticated_user_with_admin() {
    let user = User::new("sub_admin".to_string(), "https://auth.example.com".to_string());
    let session = Session::new(SessionId::new("sess_admin".to_string()), user.id(), RoleSet::admin(), 3_600_000);
    let auth_user = AuthenticatedUser::new(session, user);
    assert!(auth_user.is_admin());
}

#[test]
fn authentication_error_invalid_token_display() {
    let err = AuthenticationError::InvalidToken { reason: "signature mismatch".to_string() };
    assert!(err.to_string().contains("invalid token"));
    assert!(err.to_string().contains("signature mismatch"));
}

#[test]
fn authentication_error_token_expired_display() {
    assert!(AuthenticationError::TokenExpired.to_string().contains("expired"));
}

#[test]
fn authentication_error_invalid_session_display() {
    let err = AuthenticationError::InvalidSession { session_id: "sess_123".to_string() };
    assert!(err.to_string().contains("invalid session"));
    assert!(err.to_string().contains("sess_123"));
}

#[test]
fn authentication_error_provider_error_display() {
    let err = AuthenticationError::ProviderError { provider: "keycloak".to_string(), reason: "connection timeout".to_string() };
    assert!(err.to_string().contains("keycloak"));
    assert!(err.to_string().contains("connection timeout"));
}

#[test]
fn authorization_error_not_authenticated_display() {
    assert!(AuthorizationError::NotAuthenticated.to_string().contains("not authenticated"));
}

#[test]
fn authorization_error_permission_denied_display() {
    let err = AuthorizationError::PermissionDenied {
        user_id: UserId::new(),
        action: "read".to_string(),
        resource: "workflow:123".to_string(),
    };
    assert!(err.to_string().contains("lacks permission"));
    assert!(err.to_string().contains("read"));
    assert!(err.to_string().contains("workflow:123"));
}
