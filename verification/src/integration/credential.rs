//! Credentials of integration accounts. Their secret data is kept encrypted
//! at rest by a vault; this module holds the records and the data.

use vstd::prelude::*;
use crate::support::text::owned;
use crate::support::clock::{now_millis, is_instant};
use crate::support::json::Json;
use crate::platform_core::id::{CredentialId, IntegrationAccountId, UserId};

verus! {

/// Five minutes in milliseconds: OAuth2 tokens are refreshed that long
/// before they expire.
pub const REFRESH_MARGIN_MILLIS: i64 = 300_000i64;

/// The kinds of credential.
#[derive(Debug, Clone, Copy, PartialEq, Eq, Structural)]
pub enum CredentialType {
    Oauth2,
    ApiKey,
    BasicAuth,
    BearerToken,
    Custom,
}

/// The secret data of a credential.
#[derive(Debug)]
pub enum CredentialData {
    /// OAuth2 tokens.
    Oauth2 {
        access_token: String,
        refresh_token: Option<String>,
        token_type: String,
        /// When the access token expires (milliseconds since the epoch).
        expires_at: Option<i64>,
        scope: Option<String>,
    },
    /// An API key.
    ApiKey { key: String, header_name: Option<String> },
    /// User name and password.
    BasicAuth { username: String, password: String },
    /// A bearer token.
    BearerToken { token: String },
    /// Anything else.
    Custom { data: Json },
}

/// The kind of credential data.
pub open spec fn data_type(d: CredentialData) -> CredentialType {
    match d {
        CredentialData::Oauth2 { .. } => CredentialType::Oauth2,
        CredentialData::ApiKey { .. } => CredentialType::ApiKey,
        CredentialData::BasicAuth { .. } => CredentialType::BasicAuth,
        CredentialData::BearerToken { .. } => CredentialType::BearerToken,
        CredentialData::Custom { .. } => CredentialType::Custom,
    }
}

/// Whether credential data needs a refresh at `now`: an OAuth2 token that
/// expires within five minutes.
pub open spec fn refresh_due(d: CredentialData, now: int) -> bool {
    match d {
        CredentialData::Oauth2 { expires_at: Some(e), .. } => e < now + REFRESH_MARGIN_MILLIS,
        _ => false,
    }
}

impl CredentialData {
    /// An OAuth2 bearer access token, without refresh token, expiry or scope.
    pub fn oauth2(access_token: &str) -> (r: Self)
        ensures
            r matches CredentialData::Oauth2 { access_token: a, refresh_token, token_type, expires_at, scope } && a@
                == access_token@ && refresh_token is None && token_type@ == "Bearer"@ && expires_at is None
                && scope is None,
    {
        CredentialData::Oauth2 {
            access_token: owned(access_token),
            refresh_token: None,
            token_type: owned("Bearer"),
            expires_at: None,
            scope: None,
        }
    }

    /// An API key sent in the default header.
    pub fn api_key(key: &str) -> (r: Self)
        ensures
            r matches CredentialData::ApiKey { key: k, header_name } && k@ == key@ && header_name is None,
    {
        CredentialData::ApiKey { key: owned(key), header_name: None }
    }

    /// User name and password.
    pub fn basic_auth(username: &str, password: &str) -> (r: Self)
        ensures
            r matches CredentialData::BasicAuth { username: u, password: p } && u@ == username@ && p@ == password@,
    {
        CredentialData::BasicAuth { username: owned(username), password: owned(password) }
    }

    /// The kind of this data.
    pub fn credential_type(&self) -> (r: CredentialType)
        ensures
            r == data_type(*self),
    {
        match self {
            CredentialData::Oauth2 { .. } => CredentialType::Oauth2,
            CredentialData::ApiKey { .. } => CredentialType::ApiKey,
            CredentialData::BasicAuth { .. } => CredentialType::BasicAuth,
            CredentialData::BearerToken { .. } => CredentialType::BearerToken,
            CredentialData::Custom { .. } => CredentialType::Custom,
        }
    }

    /// Whether the data needs a refresh at the instant `now`.
    pub fn needs_refresh_at(&self, now: i64) -> (r: bool)
        requires
            is_instant(now),
        ensures
            r == refresh_due(*self, now as int),
    {
        match self {
            CredentialData::Oauth2 { expires_at: Some(expires), .. } => *expires < now + REFRESH_MARGIN_MILLIS,
            _ => false,
        }
    }

    /// Whether the data needs a refresh now.
    pub fn needs_refresh(&self) -> (r: bool)
        ensures
            exists|now: i64| #[trigger] is_instant(now) && r == refresh_due(*self, now as int),
    {
        let now = now_millis();
        assert(is_instant(now));
        self.needs_refresh_at(now)
    }
}

/// The record of a credential (without its secret data).
#[derive(Debug, Clone)]
pub struct Credential {
    /// Identifier.
    pub id: CredentialId,
    /// The integration account.
    pub integration_account_id: IntegrationAccountId,
    /// The owner.
    pub user_id: UserId,
    /// Name.
    pub name: String,
    /// Kind.
    pub credential_type: CredentialType,
    /// When it was created (milliseconds since the epoch).
    pub created_at: i64,
    /// When it was last updated.
    pub updated_at: i64,
    /// When it was last used.
    pub last_used_at: Option<i64>,
}

impl Credential {
    /// A new record, created now, never used.
    pub fn new(
        integration_account_id: IntegrationAccountId,
        user_id: UserId,
        name: &str,
        credential_type: CredentialType,
    ) -> (r: Self)
        ensures
            r.integration_account_id == integration_account_id,
            r.user_id == user_id,
            r.name@ == name@,
            r.credential_type == credential_type,
            r.created_at == r.updated_at,
            r.last_used_at is None,
    {
        let now = now_millis();
        Credential {
            id: CredentialId::new(),
            integration_account_id,
            user_id,
            name: owned(name),
            credential_type,
            created_at: now,
            updated_at: now,
            last_used_at: None,
        }
    }

    /// Records a use now.
    pub fn mark_used(&mut self)
        ensures
            final(self).last_used_at is Some,
            *final(self) == (Credential { last_used_at: final(self).last_used_at, ..*old(self) }),
    {
        self.last_used_at = Some(now_millis());
    }

    /// Records an update now.
    pub fn mark_updated(&mut self)
        ensures
            is_instant(final(self).updated_at),
            *final(self) == (Credential { updated_at: final(self).updated_at, ..*old(self) }),
    {
        self.updated_at = now_millis();
    }
}

} // verus!
