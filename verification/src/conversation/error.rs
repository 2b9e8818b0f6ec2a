//! Errors of sessions, context facts, tools and conversations.

use vstd::prelude::*;
use crate::support::text::{concat2, concat3, concat4};
use crate::platform_core::id::{ConversationSessionId, id_text};

verus! {

/// Errors of session operations.
#[derive(Debug, Clone, PartialEq, Eq)]
pub enum SessionError {
    NotFound { id: ConversationSessionId },
    Expired { id: ConversationSessionId },
    InvalidStateTransition { from: String, to: String },
    StorageFailed { reason: String },
}

/// The message of a session error.
pub open spec fn session_error_text(e: SessionError) -> Seq<char> {
    match e {
        SessionError::NotFound { id } => "session not found: "@ + id_text("sess"@, id.0),
        SessionError::Expired { id } => "session expired: "@ + id_text("sess"@, id.0),
        SessionError::InvalidStateTransition { from, to } => "invalid state transition from "@ + from@ + " to "@ + to@,
        SessionError::StorageFailed { reason } => "session storage failed: "@ + reason@,
    }
}

impl SessionError {
    /// The message of this error.
    pub fn to_string(&self) -> (s: String)
        ensures
            s@ == session_error_text(*self),
    {
        match self {
            SessionError::NotFound { id } => concat2("session not found: ", id.to_string().as_str()),
            SessionError::Expired { id } => concat2("session expired: ", id.to_string().as_str()),
            SessionError::InvalidStateTransition { from, to } => concat4(
                "invalid state transition from ",
                from.as_str(),
                " to ",
                to.as_str(),
            ),
            SessionError::StorageFailed { reason } => concat2("session storage failed: ", reason.as_str()),
        }
    }
}

/// Errors of the context store.
#[derive(Debug, Clone, PartialEq, Eq)]
pub enum ContextError {
    FactNotFound { id: String },
    StorageFailed { reason: String },
    QueryFailed { reason: String },
    InvalidData { reason: String },
}

/// The message of a context error.
pub open spec fn context_error_text(e: ContextError) -> Seq<char> {
    match e {
        ContextError::FactNotFound { id } => "fact not found: "@ + id@,
        ContextError::StorageFailed { reason } => "context storage failed: "@ + reason@,
        ContextError::QueryFailed { reason } => "context query failed: "@ + reason@,
        ContextError::InvalidData { reason } => "invalid fact data: "@ + reason@,
    }
}

impl ContextError {
    /// The message of this error.
    pub fn to_string(&self) -> (s: String)
        ensures
            s@ == context_error_text(*self),
    {
        match self {
            ContextError::FactNotFound { id } => concat2("fact not found: ", id.as_str()),
            ContextError::StorageFailed { reason } => concat2("context storage failed: ", reason.as_str()),
            ContextError::QueryFailed { reason } => concat2("context query failed: ", reason.as_str()),
            ContextError::InvalidData { reason } => concat2("invalid fact data: ", reason.as_str()),
        }
    }
}

/// Errors of tool execution.
#[derive(Debug, Clone, PartialEq, Eq)]
pub enum ToolError {
    NotFound { name: String },
    ExecutionFailed { name: String, reason: String },
    InvalidInput { name: String, reason: String },
    RequiresConfirmation { name: String },
}

/// The message of a tool error.
pub open spec fn tool_error_text(e: ToolError) -> Seq<char> {
    match e {
        ToolError::NotFound { name } => "tool not found: "@ + name@,
        ToolError::ExecutionFailed { name, reason } => "tool '"@ + name@ + "' execution failed: "@ + reason@,
        ToolError::InvalidInput { name, reason } => "invalid input for tool '"@ + name@ + "': "@ + reason@,
        ToolError::RequiresConfirmation { name } => "tool '"@ + name@ + "' requires user confirmation"@,
    }
}

impl ToolError {
    /// The message of this error.
    pub fn to_string(&self) -> (s: String)
        ensures
            s@ == tool_error_text(*self),
    {
        match self {
            ToolError::NotFound { name } => concat2("tool not found: ", name.as_str()),
            ToolError::ExecutionFailed { name, reason } => concat4(
                "tool '",
                name.as_str(),
                "' execution failed: ",
                reason.as_str(),
            ),
            ToolError::InvalidInput { name, reason } => concat4(
                "invalid input for tool '",
                name.as_str(),
                "': ",
                reason.as_str(),
            ),
            ToolError::RequiresConfirmation { name } => concat3(
                "tool '",
                name.as_str(),
                "' requires user confirmation",
            ),
        }
    }
}

/// Errors of conversations as a whole.
#[derive(Debug, Clone, PartialEq, Eq)]
pub enum ConversationError {
    SessionOperation { session_id: ConversationSessionId },
    MessageProcessing { session_id: ConversationSessionId },
    InvalidMessage { reason: String },
}

/// The message of a conversation error.
pub open spec fn conversation_error_text(e: ConversationError) -> Seq<char> {
    match e {
        ConversationError::SessionOperation { session_id } => "session operation failed for "@ + id_text(
            "sess"@,
            session_id.0,
        ),
        ConversationError::MessageProcessing { session_id } => "message processing failed for session "@ + id_text(
            "sess"@,
            session_id.0,
        ),
        ConversationError::InvalidMessage { reason } => "invalid message: "@ + reason@,
    }
}

impl ConversationError {
    /// The message of this error.
    pub fn to_string(&self) -> (s: String)
        ensures
            s@ == conversation_error_text(*self),
    {
        match self {
            ConversationError::SessionOperation { session_id } => concat2(
                "session operation failed for ",
                session_id.to_string().as_str(),
            ),
            ConversationError::MessageProcessing { session_id } => concat2(
                "message processing failed for session ",
                session_id.to_string().as_str(),
            ),
            ConversationError::InvalidMessage { reason } => concat2("invalid message: ", reason.as_str()),
        }
    }
}

} // verus!
