//! Errors of connectors, credentials and integrations.

use vstd::prelude::*;
use crate::support::text::{owned, concat2, concat3, concat4, decimal, u64_to_decimal};
use crate::platform_core::id::{CredentialId, IntegrationAccountId, id_text};

verus! {

/// Errors of connector operations.
#[derive(Debug, Clone, PartialEq, Eq)]
pub enum ConnectorError {
    ConnectionFailed { reason: String },
    AuthenticationFailed { reason: String },
    RateLimited { retry_after_secs: Option<u64> },
    OperationNotSupported { operation: String },
    InvalidParameters { operation: String, reason: String },
    ProtocolError { reason: String },
    Timeout,
}

/// The message of a connector error.
pub open spec fn connector_error_text(e: ConnectorError) -> Seq<char> {
    match e {
        ConnectorError::ConnectionFailed { reason } => "connection failed: "@ + reason@,
        ConnectorError::AuthenticationFailed { reason } => "authentication failed: "@ + reason@,
        ConnectorError::RateLimited { retry_after_secs } => match retry_after_secs {
            Some(secs) => "rate limited, retry after "@ + decimal(secs as nat) + "s"@,
            None => "rate limited"@,
        },
        ConnectorError::OperationNotSupported { operation } => "operation not supported: "@ + operation@,
        ConnectorError::InvalidParameters { operation, reason } => "invalid parameters for '"@ + operation@ + "': "@
            + reason@,
        ConnectorError::ProtocolError { reason } => "protocol error: "@ + reason@,
        ConnectorError::Timeout => "operation timed out"@,
    }
}

impl ConnectorError {
    /// The message of this error.
    pub fn to_string(&self) -> (s: String)
        ensures
            s@ == connector_error_text(*self),
    {
        match self {
            ConnectorError::ConnectionFailed { reason } => concat2("connection failed: ", reason.as_str()),
            ConnectorError::AuthenticationFailed { reason } => concat2("authentication failed: ", reason.as_str()),
            ConnectorError::RateLimited { retry_after_secs } => match retry_after_secs {
                Some(secs) => concat3("rate limited, retry after ", u64_to_decimal(*secs).as_str(), "s"),
                None => owned("rate limited"),
            },
            ConnectorError::OperationNotSupported { operation } => concat2(
                "operation not supported: ",
                operation.as_str(),
            ),
            ConnectorError::InvalidParameters { operation, reason } => concat4(
                "invalid parameters for '",
                operation.as_str(),
                "': ",
                reason.as_str(),
            ),
            ConnectorError::ProtocolError { reason } => concat2("protocol error: ", reason.as_str()),
            ConnectorError::Timeout => owned("operation timed out"),
        }
    }
}

/// Errors of credential storage.
#[derive(Debug, Clone, PartialEq, Eq)]
pub enum CredentialError {
    NotFound { id: CredentialId },
    EncryptionFailed { reason: String },
    DecryptionFailed { reason: String },
    InvalidFormat { reason: String },
    StorageFailed { reason: String },
}

/// The message of a credential error.
pub open spec fn credential_error_text(e: CredentialError) -> Seq<char> {
    match e {
        CredentialError::NotFound { id } => "credential not found: "@ + id_text("cred"@, id.0),
        CredentialError::EncryptionFailed { reason } => "encryption failed: "@ + reason@,
        CredentialError::DecryptionFailed { reason } => "decryption failed: "@ + reason@,
        CredentialError::InvalidFormat { reason } => "invalid credential format: "@ + reason@,
        CredentialError::StorageFailed { reason } => "storage operation failed: "@ + reason@,
    }
}

impl CredentialError {
    /// The message of this error.
    pub fn to_string(&self) -> (s: String)
        ensures
            s@ == credential_error_text(*self),
    {
        match self {
            CredentialError::NotFound { id } => concat2("credential not found: ", id.to_string().as_str()),
            CredentialError::EncryptionFailed { reason } => concat2("encryption failed: ", reason.as_str()),
            CredentialError::DecryptionFailed { reason } => concat2("decryption failed: ", reason.as_str()),
            CredentialError::InvalidFormat { reason } => concat2("invalid credential format: ", reason.as_str()),
            CredentialError::StorageFailed { reason } => concat2("storage operation failed: ", reason.as_str()),
        }
    }
}

/// Errors of integrations as a whole.
#[derive(Debug, Clone, PartialEq, Eq)]
pub enum IntegrationError {
    AccountNotFound { id: IntegrationAccountId },
    ConnectorOperation { connector_id: String, operation: String },
    CredentialOperation { credential_id: CredentialId },
}

/// The message of an integration error.
pub open spec fn integration_error_text(e: IntegrationError) -> Seq<char> {
    match e {
        IntegrationError::AccountNotFound { id } => "integration account not found: "@ + id_text("int"@, id.0),
        IntegrationError::ConnectorOperation { connector_id, operation } => "connector '"@ + connector_id@
            + "' operation '"@ + operation@ + "' failed"@,
        IntegrationError::CredentialOperation { credential_id } => "credential operation failed for "@ + id_text(
            "cred"@,
            credential_id.0,
        ),
    }
}

impl IntegrationError {
    /// The message of this error.
    pub fn to_string(&self) -> (s: String)
        ensures
            s@ == integration_error_text(*self),
    {
        match self {
            IntegrationError::AccountNotFound { id } => concat2("integration account not found: ", id.to_string().as_str()),
            IntegrationError::ConnectorOperation { connector_id, operation } => {
                let head = concat3("connector '", connector_id.as_str(), "' operation '");
                concat3(head.as_str(), operation.as_str(), "' failed")
            },
            IntegrationError::CredentialOperation { credential_id } => concat2(
                "credential operation failed for ",
                credential_id.to_string().as_str(),
            ),
        }
    }
}

} // verus!
