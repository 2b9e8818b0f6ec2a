use silver_telegram::platform_access::auth::OidcClaims;
use silver_telegram::platform_access::role::{Role, RoleSet};
use silver_telegram::platform_access::session::{Session, SessionId};
use silver_telegram::platform_core::id::UserId;

const HOUR_MS: i64 = 3_600_000;

fn test_session_id() -> SessionId {
    SessionId::new("sess_test_123".to_string())
}

#[test]
fn role_is_admin() {
    assert!(!Role::User.is_admin());
    assert!(Role::Admin.is_admin());
}

#[test]
fn role_set_none_has_no_access() {
    let roles = RoleSet::none();
    assert!(!roles.has_access());
    assert!(!roles.is_admin());
    assert!(roles.roles().is_empty());
}

#[test]
fn role_set_user_has_access_not_admin() {
    let roles = RoleSet::user();
    assert!(roles.has_access());
    assert!(!roles.is_admin());
    assert_eq!(roles.roles(), &[Role::User]);
}

#[test]
fn role_set_admin_has_both_roles() {
    let roles = RoleSet::admin();
    assert!(roles.has_access());
    assert!(roles.is_admin());
    assert!(roles.roles().contains(&Role::User));
    assert!(roles.roles().contains(&Role::Admin));
}

#[test]
fn from_groups_no_matching_groups() {
    let groups = vec!["other-group".to_string(), "unrelated".to_string()];
    let roles = RoleSet::from_groups(&groups, "platform-users", "platform-admins");
    assert!(!roles.has_access());
    assert!(!roles.is_admin());
}

#[test]
fn from_groups_user_group_only() {
    let groups = vec!["platform-users".to_string(), "other".to_string()];
    let roles = RoleSet::from_groups(&groups, "platform-users", "platform-admins");
    assert!(roles.has_access());
    assert!(!roles.is_admin());
}

#[test]
fn from_groups_admin_group_only() {
    let groups = vec!["platform-admins".to_string()];
    let roles = RoleSet::from_groups(&groups, "platform-users", "platform-admins");
    assert!(roles.has_access());
    assert!(roles.is_admin());
}

#[test]
fn from_groups_both_groups() {
    let groups = vec!["platform-users".to_string(), "platform-admins".to_string()];
    let roles = RoleSet::from_groups(&groups, "platform-users", "platform-admins");
    assert!(roles.has_access());
    assert!(roles.is_admin());
    assert_eq!(roles.roles().iter().filter(|r| **r == Role::User).count(), 1);
}

#[test]
fn admin_role_always_grants_access() {
    // Law: whoever is admin has access, whatever the groups.
    for groups in [vec![], vec!["platform-admins".to_string()], vec!["x".to_string(), "platform-admins".to_string()]] {
        let roles = RoleSet::from_groups(&groups, "platform-users", "platform-admins");
        assert!(!roles.is_admin() || roles.has_access());
    }
}

#[test]
fn session_id_display() {
    let id = test_session_id();
    assert_eq!(id.to_string(), "sess_test_123");
}

#[test]
fn session_id_from_string() {
    let id: SessionId = "test_session".to_string().into();
    assert_eq!(id.as_str(), "test_session");
}

#[test]
fn session_id_from_str() {
    let id: SessionId = "test_session".into();
    assert_eq!(id.as_str(), "test_session");
}

#[test]
fn new_session_has_correct_fields() {
    let session_id = test_session_id();
    let user_id = UserId::new();
    let roles = RoleSet::user();
    let before = chrono::Utc::now().timestamp_millis();
    let session = Session::new(session_id.clone(), user_id, roles.clone(), HOUR_MS);
    let after = chrono::Utc::now().timestamp_millis();
    assert_eq!(session.id(), &session_id);
    assert_eq!(session.user_id(), user_id);
    assert_eq!(session.roles(), &roles);
    assert!(session.created_at() >= before);
    assert!(session.created_at() <= after);
    assert!(session.expires_at() > session.created_at());
    assert!(session.access_token().is_none());
    assert!(session.refresh_token().is_none());
}

#[test]
fn session_with_tokens() {
    let session = Session::with_tokens(
        test_session_id(),
        UserId::new(),
        RoleSet::user(),
        HOUR_MS,
        "access_token_123".to_string(),
        Some("refresh_token_456".to_string()),
    );
    assert_eq!(session.access_token(), Some("access_token_123"));
    assert_eq!(session.refresh_token(), Some("refresh_token_456"));
}

#[test]
fn session_expiration() {
    let session = Session::new(test_session_id(), UserId::new(), RoleSet::user(), -1000);
    assert!(session.is_expired());
    assert!(!session.is_valid());
}

#[test]
fn session_not_expired() {
    let session = Session::new(test_session_id(), UserId::new(), RoleSet::user(), HOUR_MS);
    assert!(!session.is_expired());
    assert!(session.is_valid());
}

#[test]
fn session_access_from_roles() {
    let user_session = Session::new(test_session_id(), UserId::new(), RoleSet::user(), HOUR_MS);
    assert!(user_session.has_access());
    assert!(!user_session.is_admin());
    let admin_session = Session::new(test_session_id(), UserId::new(), RoleSet::admin(), HOUR_MS);
    assert!(admin_session.has_access());
    assert!(admin_session.is_admin());
    let no_access_session = Session::new(test_session_id(), UserId::new(), RoleSet::none(), HOUR_MS);
    assert!(!no_access_session.has_access());
    assert!(!no_access_session.is_admin());
}

#[test]
fn session_refresh() {
    let mut session = Session::new(test_session_id(), UserId::new(), RoleSet::user(), 1000);
    let old_expires = session.expires_at();
    session.refresh("new_access_token".to_string(), Some("new_refresh_token".to_string()), 2 * HOUR_MS);
    assert_eq!(session.access_token(), Some("new_access_token"));
    assert_eq!(session.refresh_token(), Some("new_refresh_token"));
    assert!(session.expires_at() > old_expires);
}

#[test]
fn session_expiry_boundary() {
    let session = Session::new(test_session_id(), UserId::new(), RoleSet::user(), HOUR_MS);
    let end = session.expires_at();
    assert!(!session.is_expired_at(end - 1));
    assert!(session.is_expired_at(end + 1));
}

#[test]
fn oidc_claims_builder() {
    let claims = OidcClaims::new("sub_123".to_string(), "https://auth.example.com".to_string())
        .with_email(Some("user@example.com".to_string()))
        .with_display_name(Some("Test User".to_string()))
        .with_groups(vec!["platform-users".to_string()]);
    assert_eq!(claims.subject, "sub_123");
    assert_eq!(claims.issuer, "https://auth.example.com");
    assert_eq!(claims.email, Some("user@example.com".to_string()));
    assert_eq!(claims.display_name, Some("Test User".to_string()));
    assert_eq!(claims.groups, vec!["platform-users"]);
}
