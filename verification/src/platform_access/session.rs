//! User sessions: created after a successful OIDC login, holding the user's
//! roles and the provider's tokens, valid until they expire.

use vstd::prelude::*;
use crate::support::text::owned;
use crate::support::clock::{now_millis, MAX_MILLIS, duration_in_range, is_instant};
use crate::platform_core::id::UserId;
use crate::platform_access::role::RoleSet;

verus! {

/// Identifier of a session (opaque text).
#[derive(Debug, Clone, PartialEq, Eq, Hash)]
pub struct SessionId(String);

impl SessionId {
    /// The text of the identifier.
    pub closed spec fn text(&self) -> Seq<char> {
        self.0@
    }

    /// The identifier with the given text.
    pub fn new(id: String) -> (r: Self)
        ensures
            r.text() == id@,
    {
        SessionId(id)
    }

    /// The text of the identifier.
    pub fn as_str(&self) -> (r: &str)
        ensures
            r@ == self.text(),
    {
        self.0.as_str()
    }

    /// The text of the identifier, owned (its display form).
    pub fn to_string(&self) -> (r: String)
        ensures
            r@ == self.text(),
    {
        owned(self.0.as_str())
    }
}

impl From<String> for SessionId {
    fn from(s: String) -> (r: Self)
        ensures
            r.text() == s@,
    {
        SessionId(s)
    }
}

impl vstd::std_specs::convert::FromSpecImpl<String> for SessionId {
    open spec fn obeys_from_spec() -> bool {
        true
    }

    closed spec fn from_spec(s: String) -> Self {
        SessionId(s)
    }
}

impl<'a> From<&'a str> for SessionId {
    fn from(s: &'a str) -> (r: Self)
        ensures
            r.text() == s@,
    {
        SessionId(owned(s))
    }
}

impl<'a> vstd::std_specs::convert::FromSpecImpl<&'a str> for SessionId {
    open spec fn obeys_from_spec() -> bool {
        false
    }

    open spec fn from_spec(s: &'a str) -> Self {
        vstd::pervasive::arbitrary()
    }
}

/// An authenticated session.
#[derive(Debug, Clone, PartialEq, Eq)]
pub struct Session {
    id: SessionId,
    user_id: UserId,
    roles: RoleSet,
    created_at: i64,
    expires_at: i64,
    access_token: Option<String>,
    refresh_token: Option<String>,
}

/// The view of an optional string.
pub open spec fn opt_text(o: Option<String>) -> Option<Seq<char>> {
    match o {
        Some(s) => Some(s@),
        None => None,
    }
}

impl Session {
    /// The identifier.
    pub closed spec fn id_view(&self) -> SessionId {
        self.id
    }

    /// The user.
    pub closed spec fn user_view(&self) -> UserId {
        self.user_id
    }

    /// The roles.
    pub closed spec fn roles_view(&self) -> RoleSet {
        self.roles
    }

    /// When the session was created (milliseconds since the epoch).
    pub closed spec fn created_view(&self) -> i64 {
        self.created_at
    }

    /// When the session expires (milliseconds since the epoch).
    pub closed spec fn expires_view(&self) -> i64 {
        self.expires_at
    }

    /// The provider's access token, if any.
    pub closed spec fn access_view(&self) -> Option<Seq<char>> {
        opt_text(self.access_token)
    }

    /// The provider's refresh token, if any.
    pub closed spec fn refresh_view(&self) -> Option<Seq<char>> {
        opt_text(self.refresh_token)
    }

    /// A session created now that lasts `duration` milliseconds, without tokens.
    pub fn new(id: SessionId, user_id: UserId, roles: RoleSet, duration: i64) -> (r: Self)
        requires
            duration_in_range(duration),
        ensures
            r.id_view() == id,
            r.user_view() == user_id,
            r.roles_view() == roles,
            -MAX_MILLIS <= r.created_view() <= MAX_MILLIS,
            r.expires_view() == r.created_view() + duration,
            r.access_view() is None,
            r.refresh_view() is None,
    {
        let now = now_millis();
        Session { id, user_id, roles, created_at: now, expires_at: now + duration, access_token: None, refresh_token: None }
    }

    /// A session created now with the provider's tokens.
    pub fn with_tokens(
        id: SessionId,
        user_id: UserId,
        roles: RoleSet,
        duration: i64,
        access_token: String,
        refresh_token: Option<String>,
    ) -> (r: Self)
        requires
            duration_in_range(duration),
        ensures
            r.id_view() == id,
            r.user_view() == user_id,
            r.roles_view() == roles,
            -MAX_MILLIS <= r.created_view() <= MAX_MILLIS,
            r.expires_view() == r.created_view() + duration,
            r.access_view() == Some(access_token@),
            r.refresh_view() == opt_text(refresh_token),
    {
        let mut session = Session::new(id, user_id, roles, duration);
        session.access_token = Some(access_token);
        session.refresh_token = refresh_token;
        session
    }

    /// The identifier.
    pub fn id(&self) -> (r: &SessionId)
        ensures
            *r == self.id_view(),
    {
        &self.id
    }

    /// The user.
    pub fn user_id(&self) -> (r: UserId)
        ensures
            r == self.user_view(),
    {
        self.user_id
    }

    /// The roles.
    pub fn roles(&self) -> (r: &RoleSet)
        ensures
            *r == self.roles_view(),
    {
        &self.roles
    }

    /// When the session was created.
    pub fn created_at(&self) -> (r: i64)
        ensures
            r == self.created_view(),
    {
        self.created_at
    }

    /// When the session expires.
    pub fn expires_at(&self) -> (r: i64)
        ensures
            r == self.expires_view(),
    {
        self.expires_at
    }

    /// The access token, if any.
    pub fn access_token(&self) -> (r: Option<&str>)
        ensures
            r is Some <==> self.access_view() is Some,
            r matches Some(t) ==> t@ == self.access_view()->Some_0,
    {
        match &self.access_token {
            Some(t) => Some(t.as_str()),
            None => None,
        }
    }

    /// The refresh token, if any.
    pub fn refresh_token(&self) -> (r: Option<&str>)
        ensures
            r is Some <==> self.refresh_view() is Some,
            r matches Some(t) ==> t@ == self.refresh_view()->Some_0,
    {
        match &self.refresh_token {
            Some(t) => Some(t.as_str()),
            None => None,
        }
    }

    /// Whether the session has expired at the instant `now`.
    pub fn is_expired_at(&self, now: i64) -> (r: bool)
        ensures
            r == (now >= self.expires_view()),
    {
        now >= self.expires_at
    }

    /// Whether the session has expired (at the current time).
    pub fn is_expired(&self) -> (r: bool)
        ensures
            exists|now: i64| #[trigger] is_instant(now) && r == (now >= self.expires_view()),
    {
        let now = now_millis();
        assert(is_instant(now));
        self.is_expired_at(now)
    }

    /// Whether the session is still valid (not expired at the current time).
    pub fn is_valid(&self) -> (r: bool)
        ensures
            exists|now: i64| #[trigger] is_instant(now) && r == (now < self.expires_view()),
    {
        !self.is_expired()
    }

    /// Whether the session grants access to the platform.
    pub fn has_access(&self) -> (r: bool)
        ensures
            r == self.roles_view().roles_seq().contains(crate::platform_access::role::Role::User),
    {
        self.roles.has_access()
    }

    /// Whether the session grants admin access.
    pub fn is_admin(&self) -> (r: bool)
        ensures
            r == self.roles_view().roles_seq().contains(crate::platform_access::role::Role::Admin),
    {
        self.roles.is_admin()
    }

    /// Replaces the tokens and extends the session to `duration` from now.
    pub fn refresh(&mut self, access_token: String, refresh_token: Option<String>, duration: i64)
        requires
            duration_in_range(duration),
        ensures
            final(self).id_view() == old(self).id_view(),
            final(self).user_view() == old(self).user_view(),
            final(self).roles_view() == old(self).roles_view(),
            final(self).created_view() == old(self).created_view(),
            final(self).access_view() == Some(access_token@),
            final(self).refresh_view() == opt_text(refresh_token),
            exists|now: i64| #[trigger] is_instant(now) && final(self).expires_view() == now + duration,
    {
        self.access_token = Some(access_token);
        self.refresh_token = refresh_token;
        let now = now_millis();
        assert(is_instant(now));
        self.expires_at = now + duration;
    }
}

} // verus!
