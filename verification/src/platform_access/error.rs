//! Errors of authentication and authorization.

use vstd::prelude::*;
use crate::support::text::{owned, concat2, concat3, concat4};
use crate::platform_core::id::{UserId, id_text};

verus! {

/// Authentication failures (OIDC, sessions).
#[derive(Debug, Clone, PartialEq, Eq)]
pub enum AuthenticationError {
    /// The token is malformed or its signature is wrong.
    InvalidToken { reason: String },
    /// The token has expired.
    TokenExpired,
    /// The session is not valid.
    InvalidSession { session_id: String },
    /// The session has expired.
    SessionExpired { session_id: String },
    /// The OIDC provider failed.
    ProviderError { provider: String, reason: String },
    /// A required claim is missing.
    MissingClaim { claim: String },
    /// No user has this subject.
    UserNotFound { subject: String },
}

/// The message of an authentication error.
pub open spec fn authentication_error_text(e: AuthenticationError) -> Seq<char> {
    match e {
        AuthenticationError::InvalidToken { reason } => "invalid token: "@ + reason@,
        AuthenticationError::TokenExpired => "token has expired"@,
        AuthenticationError::InvalidSession { session_id } => "invalid session: "@ + session_id@,
        AuthenticationError::SessionExpired { session_id } => "session has expired: "@ + session_id@,
        AuthenticationError::ProviderError { provider, reason } => "OIDC provider '"@ + provider@ + "' error: "@
            + reason@,
        AuthenticationError::MissingClaim { claim } => "missing required claim: "@ + claim@,
        AuthenticationError::UserNotFound { subject } => "user not found for subject: "@ + subject@,
    }
}

impl AuthenticationError {
    /// The message of this error.
    pub fn to_string(&self) -> (s: String)
        ensures
            s@ == authentication_error_text(*self),
    {
        match self {
            AuthenticationError::InvalidToken { reason } => concat2("invalid token: ", reason.as_str()),
            AuthenticationError::TokenExpired => owned("token has expired"),
            AuthenticationError::InvalidSession { session_id } => concat2("invalid session: ", session_id.as_str()),
            AuthenticationError::SessionExpired { session_id } => concat2("session has expired: ", session_id.as_str()),
            AuthenticationError::ProviderError { provider, reason } => concat4(
                "OIDC provider '",
                provider.as_str(),
                "' error: ",
                reason.as_str(),
            ),
            AuthenticationError::MissingClaim { claim } => concat2("missing required claim: ", claim.as_str()),
            AuthenticationError::UserNotFound { subject } => concat2("user not found for subject: ", subject.as_str()),
        }
    }
}

/// Authorization failures (permission checks).
#[derive(Debug, Clone, PartialEq, Eq)]
pub enum AuthorizationError {
    /// Nobody is authenticated.
    NotAuthenticated,
    /// The user may not perform the action on the resource.
    PermissionDenied { user_id: UserId, action: String, resource: String },
    /// The check itself failed.
    CheckFailed { reason: String },
}

/// The message of an authorization error.
pub open spec fn authorization_error_text(e: AuthorizationError) -> Seq<char> {
    match e {
        AuthorizationError::NotAuthenticated => "user is not authenticated"@,
        AuthorizationError::PermissionDenied { user_id, action, resource } => "user "@ + id_text("usr"@, user_id.0)
            + " lacks permission to "@ + action@ + " on "@ + resource@,
        AuthorizationError::CheckFailed { reason } => "authorization check failed: "@ + reason@,
    }
}

impl AuthorizationError {
    /// The message of this error.
    pub fn to_string(&self) -> (s: String)
        ensures
            s@ == authorization_error_text(*self),
    {
        match self {
            AuthorizationError::NotAuthenticated => owned("user is not authenticated"),
            AuthorizationError::PermissionDenied { user_id, action, resource } => {
                let head = concat3("user ", user_id.to_string().as_str(), " lacks permission to ");
                concat4(head.as_str(), action.as_str(), " on ", resource.as_str())
            },
            AuthorizationError::CheckFailed { reason } => concat2("authorization check failed: ", reason.as_str()),
        }
    }
}

} // verus!
