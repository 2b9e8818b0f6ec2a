//! Authentication primitives of the web layer: the authenticated user of a
//! request, the claims of an OIDC ID token, and the outcomes of
//! authentication and of the login callback.

use vstd::prelude::*;
use crate::platform_core::id::UserId;
use crate::platform_access::error::AuthenticationError;
use crate::platform_access::role::{Role, RoleSet};
use crate::platform_access::session::{Session, SessionId};
use crate::platform_access::user::User;

verus! {

/// A user authenticated by a valid session.
#[derive(Debug, Clone)]
pub struct AuthenticatedUser {
    session: Session,
    user: User,
}

impl AuthenticatedUser {
    /// The session.
    pub closed spec fn session_view(&self) -> Session {
        self.session
    }

    /// The user.
    pub closed spec fn user_view(&self) -> User {
        self.user
    }

    /// The authenticated user of a session.
    pub fn new(session: Session, user: User) -> (r: Self)
        ensures
            r.session_view() == session,
            r.user_view() == user,
    {
        AuthenticatedUser { session, user }
    }

    /// The user's identifier, as the session records it.
    pub fn user_id(&self) -> (r: UserId)
        ensures
            r == self.session_view().user_view(),
    {
        self.session.user_id()
    }

    /// The session.
    pub fn session(&self) -> (r: &Session)
        ensures
            *r == self.session_view(),
    {
        &self.session
    }

    /// The user.
    pub fn user(&self) -> (r: &User)
        ensures
            *r == self.user_view(),
    {
        &self.user
    }

    /// The roles of the session.
    pub fn roles(&self) -> (r: &RoleSet)
        ensures
            *r == self.session_view().roles_view(),
    {
        self.session.roles()
    }

    /// Whether the session grants admin access.
    pub fn is_admin(&self) -> (r: bool)
        ensures
            r == self.session_view().roles_view().roles_seq().contains(Role::Admin),
    {
        self.session.is_admin()
    }
}

/// The claims of an OIDC ID token that the platform reads.
#[derive(Debug, Clone)]
pub struct OidcClaims {
    /// Subject (unique user identifier at the provider).
    pub subject: String,
    /// Issuer.
    pub issuer: String,
    /// Email address, if given.
    pub email: Option<String>,
    /// Display name, if given.
    pub display_name: Option<String>,
    /// Group memberships.
    pub groups: Vec<String>,
}

impl OidcClaims {
    /// Claims with only a subject and an issuer.
    pub fn new(subject: String, issuer: String) -> (r: Self)
        ensures
            r.subject == subject,
            r.issuer == issuer,
            r.email is None,
            r.display_name is None,
            r.groups@.len() == 0,
    {
        OidcClaims { subject, issuer, email: None, display_name: None, groups: Vec::new() }
    }

    /// The claims with this email address.
    pub fn with_email(self, email: Option<String>) -> (r: Self)
        ensures
            r == (OidcClaims { email, ..self }),
    {
        OidcClaims { email, ..self }
    }

    /// The claims with this display name.
    pub fn with_display_name(self, name: Option<String>) -> (r: Self)
        ensures
            r == (OidcClaims { display_name: name, ..self }),
    {
        OidcClaims { display_name: name, ..self }
    }

    /// The claims with these groups.
    pub fn with_groups(self, groups: Vec<String>) -> (r: Self)
        ensures
            r == (OidcClaims { groups, ..self }),
    {
        OidcClaims { groups, ..self }
    }
}

/// The outcome of authenticating a request.
#[derive(Debug)]
pub enum AuthResult {
    /// A valid session with access.
    Authenticated(Box<AuthenticatedUser>),
    /// No session.
    Unauthenticated,
    /// The session has expired.
    SessionExpired { session_id: SessionId },
    /// The user has no access to the platform.
    AccessDenied { user_id: UserId },
}

/// The outcome of the OIDC login callback.
#[derive(Debug)]
pub enum CallbackResult {
    /// Login succeeded.
    Success { user: Box<User>, session: Box<Session>, is_new_user: bool },
    /// The user authenticated but has no access.
    AccessDenied { subject: String },
    /// Login failed.
    Failed(AuthenticationError),
}

/// What starting a login gives: where to send the user, and what the
/// callback must be checked against.
#[derive(Debug, Clone)]
pub struct LoginInitiation {
    /// Authorization URL at the provider.
    pub authorization_url: String,
    /// CSRF state.
    pub state: String,
    /// PKCE verifier.
    pub pkce_verifier: String,
    /// Nonce of the ID token.
    pub nonce: String,
}

/// The parameters of the OIDC callback.
#[derive(Debug, Clone)]
pub struct CallbackData {
    /// Authorization code.
    pub code: String,
    /// CSRF state, to check.
    pub state: String,
}

} // verus!
