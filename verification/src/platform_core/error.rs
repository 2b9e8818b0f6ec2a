//! Error kinds of the platform's domain areas, each with its message.

use vstd::prelude::*;
use crate::support::text::{concat2, concat3, concat4, decimal, u64_to_decimal};

verus! {

/// The report type of `rootcause`, carried through results unchanged.
#[verifier::external_type_specification]
#[verifier::external_body]
#[verifier::reject_recursive_types(Context)]
#[verifier::reject_recursive_types(Ownership)]
#[verifier::reject_recursive_types(ThreadSafety)]
pub struct ExReport<Context: ?Sized + 'static, Ownership: 'static, ThreadSafety: 'static>(
    rootcause::Report<Context, Ownership, ThreadSafety>,
);

/// A result whose error is a `rootcause` report.
pub type Result<T, C = ()> = core::result::Result<T, rootcause::Report<C>>;

/// Errors of workflow operations.
#[derive(Debug, Clone, PartialEq, Eq)]
pub enum WorkflowError {
    NotFound { id: String },
    InvalidStateTransition { from: String, to: String },
    InvalidDefinition { reason: String },
    NodeNotFound { workflow_id: String, node_id: String },
    InvalidPortConnection {
        source_node: String,
        source_port: String,
        target_node: String,
        target_port: String,
        reason: String,
    },
    SchemaValidation { node_id: String, reason: String },
    ExecutionFailed { run_id: String, reason: String },
    RequiredInputMissing { node_id: String, port_name: String },
}

/// The message of a workflow error.
pub open spec fn workflow_error_text(e: WorkflowError) -> Seq<char> {
    match e {
        WorkflowError::NotFound { id } => "workflow not found: "@ + id@,
        WorkflowError::InvalidStateTransition { from, to } => "invalid state transition from "@ + from@ + " to "@
            + to@,
        WorkflowError::InvalidDefinition { reason } => "invalid workflow definition: "@ + reason@,
        WorkflowError::NodeNotFound { workflow_id, node_id } => "node "@ + node_id@ + " not found in workflow "@
            + workflow_id@,
        WorkflowError::InvalidPortConnection { source_node, source_port, target_node, target_port, reason } =>
            "invalid connection from "@ + source_node@ + ":"@ + source_port@ + " to "@ + target_node@ + ":"@
            + target_port@ + ": "@ + reason@,
        WorkflowError::SchemaValidation { node_id, reason } => "schema validation failed for node "@ + node_id@
            + ": "@ + reason@,
        WorkflowError::ExecutionFailed { run_id, reason } => "workflow run "@ + run_id@ + " failed: "@ + reason@,
        WorkflowError::RequiredInputMissing { node_id, port_name } => "required input port "@ + port_name@
            + " on node "@ + node_id@ + " has no incoming edge"@,
    }
}

impl WorkflowError {
    /// The message of this error.
    pub fn to_string(&self) -> (s: String)
        ensures
            s@ == workflow_error_text(*self),
    {
        match self {
            WorkflowError::NotFound { id } => concat2("workflow not found: ", id.as_str()),
            WorkflowError::InvalidStateTransition { from, to } => concat4(
                "invalid state transition from ",
                from.as_str(),
                " to ",
                to.as_str(),
            ),
            WorkflowError::InvalidDefinition { reason } => concat2("invalid workflow definition: ", reason.as_str()),
            WorkflowError::NodeNotFound { workflow_id, node_id } => {
                let head = concat3("node ", node_id.as_str(), " not found in workflow ");
                concat2(head.as_str(), workflow_id.as_str())
            },
            WorkflowError::InvalidPortConnection { source_node, source_port, target_node, target_port, reason } => {
                let a = concat4("invalid connection from ", source_node.as_str(), ":", source_port.as_str());
                let b = concat4(a.as_str(), " to ", target_node.as_str(), ":");
                concat4(b.as_str(), target_port.as_str(), ": ", reason.as_str())
            },
            WorkflowError::SchemaValidation { node_id, reason } => concat4(
                "schema validation failed for node ",
                node_id.as_str(),
                ": ",
                reason.as_str(),
            ),
            WorkflowError::ExecutionFailed { run_id, reason } => concat4(
                "workflow run ",
                run_id.as_str(),
                " failed: ",
                reason.as_str(),
            ),
            WorkflowError::RequiredInputMissing { node_id, port_name } => {
                let head = concat4("required input port ", port_name.as_str(), " on node ", node_id.as_str());
                concat2(head.as_str(), " has no incoming edge")
            },
        }
    }
}

/// Errors of conversation operations.
#[derive(Debug, Clone, PartialEq, Eq)]
pub enum ConversationError {
    SessionNotFound { id: String },
    SessionExpired { id: String },
    InvalidMessage { reason: String },
    ContextRetrievalFailed { reason: String },
    ToolInvocationFailed { tool_name: String, reason: String },
}

/// The message of a conversation error.
pub open spec fn conversation_error_text(e: ConversationError) -> Seq<char> {
    match e {
        ConversationError::SessionNotFound { id } => "session not found: "@ + id@,
        ConversationError::SessionExpired { id } => "session expired: "@ + id@,
        ConversationError::InvalidMessage { reason } => "invalid message: "@ + reason@,
        ConversationError::ContextRetrievalFailed { reason } => "context retrieval failed: "@ + reason@,
        ConversationError::ToolInvocationFailed { tool_name, reason } => "tool "@ + tool_name@
            + " invocation failed: "@ + reason@,
    }
}

impl ConversationError {
    /// The message of this error.
    pub fn to_string(&self) -> (s: String)
        ensures
            s@ == conversation_error_text(*self),
    {
        match self {
            ConversationError::SessionNotFound { id } => concat2("session not found: ", id.as_str()),
            ConversationError::SessionExpired { id } => concat2("session expired: ", id.as_str()),
            ConversationError::InvalidMessage { reason } => concat2("invalid message: ", reason.as_str()),
            ConversationError::ContextRetrievalFailed { reason } => concat2(
                "context retrieval failed: ",
                reason.as_str(),
            ),
            ConversationError::ToolInvocationFailed { tool_name, reason } => concat4(
                "tool ",
                tool_name.as_str(),
                " invocation failed: ",
                reason.as_str(),
            ),
        }
    }
}

/// Errors of integration operations.
#[derive(Debug, Clone, PartialEq, Eq)]
pub enum IntegrationError {
    NotFound { id: String },
    ConnectionFailed { service: String, reason: String },
    AuthenticationFailed { service: String, reason: String },
    RateLimitExceeded { service: String, retry_after_secs: Option<u64> },
    InvalidCredentials { service: String },
    OperationNotSupported { service: String, operation: String },
    ProtocolError { service: String, reason: String },
}

/// The message of an integration error.
pub open spec fn integration_error_text(e: IntegrationError) -> Seq<char> {
    match e {
        IntegrationError::NotFound { id } => "integration not found: "@ + id@,
        IntegrationError::ConnectionFailed { service, reason } => "connection to "@ + service@ + " failed: "@
            + reason@,
        IntegrationError::AuthenticationFailed { service, reason } => "authentication with "@ + service@
            + " failed: "@ + reason@,
        IntegrationError::RateLimitExceeded { service, retry_after_secs } => match retry_after_secs {
            Some(secs) => "rate limit exceeded for "@ + service@ + ", retry after "@ + decimal(secs as nat) + "s"@,
            None => "rate limit exceeded for "@ + service@,
        },
        IntegrationError::InvalidCredentials { service } => "invalid credentials for "@ + service@,
        IntegrationError::OperationNotSupported { service, operation } => "operation "@ + operation@
            + " not supported by "@ + service@,
        IntegrationError::ProtocolError { service, reason } => "protocol error with "@ + service@ + ": "@
            + reason@,
    }
}

impl IntegrationError {
    /// The message of this error.
    pub fn to_string(&self) -> (s: String)
        ensures
            s@ == integration_error_text(*self),
    {
        match self {
            IntegrationError::NotFound { id } => concat2("integration not found: ", id.as_str()),
            IntegrationError::ConnectionFailed { service, reason } => concat4(
                "connection to ",
                service.as_str(),
                " failed: ",
                reason.as_str(),
            ),
            IntegrationError::AuthenticationFailed { service, reason } => concat4(
                "authentication with ",
                service.as_str(),
                " failed: ",
                reason.as_str(),
            ),
            IntegrationError::RateLimitExceeded { service, retry_after_secs } => match retry_after_secs {
                Some(secs) => {
                    let n = u64_to_decimal(*secs);
                    let head = concat3("rate limit exceeded for ", service.as_str(), ", retry after ");
                    concat3(head.as_str(), n.as_str(), "s")
                },
                None => concat2("rate limit exceeded for ", service.as_str()),
            },
            IntegrationError::InvalidCredentials { service } => concat2("invalid credentials for ", service.as_str()),
            IntegrationError::OperationNotSupported { service, operation } => concat4(
                "operation ",
                operation.as_str(),
                " not supported by ",
                service.as_str(),
            ),
            IntegrationError::ProtocolError { service, reason } => concat4(
                "protocol error with ",
                service.as_str(),
                ": ",
                reason.as_str(),
            ),
        }
    }
}

/// Errors of AI primitive operations.
#[derive(Debug, Clone, PartialEq, Eq)]
pub enum AiError {
    ProviderUnavailable { provider: String, reason: String },
    LlmCallFailed { reason: String },
    OutputParsingFailed { reason: String },
    SchemaConstraintViolation { expected: String, actual: String },
    MaxIterationsExceeded { max: u32, goal: String },
    PromptNotFound { name: String },
    InvalidPromptTemplate { name: String, reason: String },
}

/// The message of an AI error.
pub open spec fn ai_error_text(e: AiError) -> Seq<char> {
    match e {
        AiError::ProviderUnavailable { provider, reason } => "LLM provider "@ + provider@ + " unavailable: "@
            + reason@,
        AiError::LlmCallFailed { reason } => "LLM call failed: "@ + reason@,
        AiError::OutputParsingFailed { reason } => "output parsing failed: "@ + reason@,
        AiError::SchemaConstraintViolation { expected, actual } => "schema constraint violation: expected "@
            + expected@ + ", got "@ + actual@,
        AiError::MaxIterationsExceeded { max, goal } => "coordinate loop exceeded "@ + decimal(max as nat)
            + " iterations for goal: "@ + goal@,
        AiError::PromptNotFound { name } => "prompt template not found: "@ + name@,
        AiError::InvalidPromptTemplate { name, reason } => "invalid prompt template "@ + name@ + ": "@ + reason@,
    }
}

impl AiError {
    /// The message of this error.
    pub fn to_string(&self) -> (s: String)
        ensures
            s@ == ai_error_text(*self),
    {
        match self {
            AiError::ProviderUnavailable { provider, reason } => concat4(
                "LLM provider ",
                provider.as_str(),
                " unavailable: ",
                reason.as_str(),
            ),
            AiError::LlmCallFailed { reason } => concat2("LLM call failed: ", reason.as_str()),
            AiError::OutputParsingFailed { reason } => concat2("output parsing failed: ", reason.as_str()),
            AiError::SchemaConstraintViolation { expected, actual } => concat4(
                "schema constraint violation: expected ",
                expected.as_str(),
                ", got ",
                actual.as_str(),
            ),
            AiError::MaxIterationsExceeded { max, goal } => {
                let n = u64_to_decimal(*max as u64);
                concat4("coordinate loop exceeded ", n.as_str(), " iterations for goal: ", goal.as_str())
            },
            AiError::PromptNotFound { name } => concat2("prompt template not found: ", name.as_str()),
            AiError::InvalidPromptTemplate { name, reason } => concat4(
                "invalid prompt template ",
                name.as_str(),
                ": ",
                reason.as_str(),
            ),
        }
    }
}

/// Errors of scheduler operations.
#[derive(Debug, Clone, PartialEq, Eq)]
pub enum SchedulerError {
    InvalidCronExpression { expression: String, reason: String },
    TriggerNotFound { id: String },
    TriggerRegistrationFailed { reason: String },
    TriggerAlreadyExists { id: String },
}

/// The message of a scheduler error.
pub open spec fn scheduler_error_text(e: SchedulerError) -> Seq<char> {
    match e {
        SchedulerError::InvalidCronExpression { expression, reason } => "invalid cron expression '"@
            + expression@ + "': "@ + reason@,
        SchedulerError::TriggerNotFound { id } => "trigger not found: "@ + id@,
        SchedulerError::TriggerRegistrationFailed { reason } => "trigger registration failed: "@ + reason@,
        SchedulerError::TriggerAlreadyExists { id } => "trigger already exists: "@ + id@,
    }
}

impl SchedulerError {
    /// The message of this error.
    pub fn to_string(&self) -> (s: String)
        ensures
            s@ == scheduler_error_text(*self),
    {
        match self {
            SchedulerError::InvalidCronExpression { expression, reason } => concat4(
                "invalid cron expression '",
                expression.as_str(),
                "': ",
                reason.as_str(),
            ),
            SchedulerError::TriggerNotFound { id } => concat2("trigger not found: ", id.as_str()),
            SchedulerError::TriggerRegistrationFailed { reason } => concat2(
                "trigger registration failed: ",
                reason.as_str(),
            ),
            SchedulerError::TriggerAlreadyExists { id } => concat2("trigger already exists: ", id.as_str()),
        }
    }
}

/// Errors of credential vault operations.
#[derive(Debug, Clone, PartialEq, Eq)]
pub enum CredentialError {
    NotFound { id: String },
    EncryptionFailed { reason: String },
    DecryptionFailed { reason: String },
    InvalidFormat { reason: String },
}

/// The message of a credential error.
pub open spec fn credential_error_text(e: CredentialError) -> Seq<char> {
    match e {
        CredentialError::NotFound { id } => "credential not found: "@ + id@,
        CredentialError::EncryptionFailed { reason } => "encryption failed: "@ + reason@,
        CredentialError::DecryptionFailed { reason } => "decryption failed: "@ + reason@,
        CredentialError::InvalidFormat { reason } => "invalid credential format: "@ + reason@,
    }
}

impl CredentialError {
    /// The message of this error.
    pub fn to_string(&self) -> (s: String)
        ensures
            s@ == credential_error_text(*self),
    {
        match self {
            CredentialError::NotFound { id } => concat2("credential not found: ", id.as_str()),
            CredentialError::EncryptionFailed { reason } => concat2("encryption failed: ", reason.as_str()),
            CredentialError::DecryptionFailed { reason } => concat2("decryption failed: ", reason.as_str()),
            CredentialError::InvalidFormat { reason } => concat2("invalid credential format: ", reason.as_str()),
        }
    }
}

} // verus!
