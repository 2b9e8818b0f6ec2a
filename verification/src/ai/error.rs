//! Errors of LLM backends, prompts, coordination and feedback.

use vstd::prelude::*;
use crate::ai::coordinate::CoordinateSessionId;
use crate::ai::llm_call::LlmInvocationId;
use crate::platform_core::id::id_text;
use crate::support::text::{concat2, concat3, concat4, decimal, owned, u64_to_decimal};

verus! {

/// Errors of LLM backend operations.
#[derive(Debug, Clone, PartialEq, Eq)]
pub enum LlmError {
    ProviderUnavailable { provider: String, reason: String },
    RequestFailed { reason: String },
    ResponseParseFailed { reason: String },
    Timeout,
    RateLimited { retry_after_secs: Option<u64> },
    InvalidConfig { reason: String },
}

/// The message of an LLM error.
pub open spec fn llm_error_text(e: LlmError) -> Seq<char> {
    match e {
        LlmError::ProviderUnavailable { provider, reason } => "LLM provider '"@ + provider@ + "' unavailable: "@
            + reason@,
        LlmError::RequestFailed { reason } => "LLM request failed: "@ + reason@,
        LlmError::ResponseParseFailed { reason } => "failed to parse LLM response: "@ + reason@,
        LlmError::Timeout => "LLM request timed out"@,
        LlmError::RateLimited { retry_after_secs } => match retry_after_secs {
            Some(secs) => "rate limited, retry after "@ + decimal(secs as nat) + "s"@,
            None => "rate limited"@,
        },
        LlmError::InvalidConfig { reason } => "invalid LLM configuration: "@ + reason@,
    }
}

impl LlmError {
    /// The message of this error.
    pub fn to_string(&self) -> (s: String)
        ensures
            s@ == llm_error_text(*self),
    {
        match self {
            LlmError::ProviderUnavailable { provider, reason } => concat4(
                "LLM provider '",
                provider.as_str(),
                "' unavailable: ",
                reason.as_str(),
            ),
            LlmError::RequestFailed { reason } => concat2("LLM request failed: ", reason.as_str()),
            LlmError::ResponseParseFailed { reason } => concat2("failed to parse LLM response: ", reason.as_str()),
            LlmError::Timeout => owned("LLM request timed out"),
            LlmError::RateLimited { retry_after_secs } => match retry_after_secs {
                Some(secs) => {
                    let n = u64_to_decimal(*secs);
                    concat3("rate limited, retry after ", n.as_str(), "s")
                },
                None => owned("rate limited"),
            },
            LlmError::InvalidConfig { reason } => concat2("invalid LLM configuration: ", reason.as_str()),
        }
    }
}

/// Errors of prompt template operations.
#[derive(Debug, Clone, PartialEq, Eq)]
pub enum PromptError {
    TemplateNotFound { name: String },
    MissingVariable { template: String, variable: String },
    InvalidVariable { template: String, variable: String, reason: String },
    ParseFailed { reason: String },
}

/// The message of a prompt error.
pub open spec fn prompt_error_text(e: PromptError) -> Seq<char> {
    match e {
        PromptError::TemplateNotFound { name } => "prompt template not found: "@ + name@,
        PromptError::MissingVariable { template, variable } => "missing required variable '"@ + variable@
            + "' in template '"@ + template@ + "'"@,
        PromptError::InvalidVariable { template, variable, reason } => "invalid variable '"@ + variable@
            + "' in template '"@ + template@ + "': "@ + reason@,
        PromptError::ParseFailed { reason } => "failed to parse prompt template: "@ + reason@,
    }
}

impl PromptError {
    /// The message of this error.
    pub fn to_string(&self) -> (s: String)
        ensures
            s@ == prompt_error_text(*self),
    {
        match self {
            PromptError::TemplateNotFound { name } => concat2("prompt template not found: ", name.as_str()),
            PromptError::MissingVariable { template, variable } => {
                let head = concat4("missing required variable '", variable.as_str(), "' in template '", template.as_str());
                concat2(head.as_str(), "'")
            },
            PromptError::InvalidVariable { template, variable, reason } => {
                let head = concat4("invalid variable '", variable.as_str(), "' in template '", template.as_str());
                concat3(head.as_str(), "': ", reason.as_str())
            },
            PromptError::ParseFailed { reason } => concat2("failed to parse prompt template: ", reason.as_str()),
        }
    }
}

/// Errors of coordination sessions.
#[derive(Debug, Clone, PartialEq, Eq)]
pub enum CoordinateError {
    MaxIterationsExceeded { max: u32, goal: String },
    ToolFailed { tool_name: String, reason: String },
    ToolNotFound { tool_name: String },
    InvalidToolInput { tool_name: String, reason: String },
    DecisionParseFailed { reason: String },
}

/// The message of a coordination error.
pub open spec fn coordinate_error_text(e: CoordinateError) -> Seq<char> {
    match e {
        CoordinateError::MaxIterationsExceeded { max, goal } => "exceeded "@ + decimal(max as nat)
            + " iterations for goal: "@ + goal@,
        CoordinateError::ToolFailed { tool_name, reason } => "tool '"@ + tool_name@ + "' failed: "@ + reason@,
        CoordinateError::ToolNotFound { tool_name } => "tool not found: "@ + tool_name@,
        CoordinateError::InvalidToolInput { tool_name, reason } => "invalid input for tool '"@ + tool_name@
            + "': "@ + reason@,
        CoordinateError::DecisionParseFailed { reason } => "failed to parse coordinator decision: "@ + reason@,
    }
}

impl CoordinateError {
    /// The message of this error.
    pub fn to_string(&self) -> (s: String)
        ensures
            s@ == coordinate_error_text(*self),
    {
        match self {
            CoordinateError::MaxIterationsExceeded { max, goal } => {
                let n = u64_to_decimal(*max as u64);
                concat4("exceeded ", n.as_str(), " iterations for goal: ", goal.as_str())
            },
            CoordinateError::ToolFailed { tool_name, reason } => concat4(
                "tool '",
                tool_name.as_str(),
                "' failed: ",
                reason.as_str(),
            ),
            CoordinateError::ToolNotFound { tool_name } => concat2("tool not found: ", tool_name.as_str()),
            CoordinateError::InvalidToolInput { tool_name, reason } => concat4(
                "invalid input for tool '",
                tool_name.as_str(),
                "': ",
                reason.as_str(),
            ),
            CoordinateError::DecisionParseFailed { reason } => concat2(
                "failed to parse coordinator decision: ",
                reason.as_str(),
            ),
        }
    }
}

/// Errors of feedback storage.
#[derive(Debug, Clone, PartialEq, Eq)]
pub enum FeedbackError {
    StoreFailed { reason: String },
    RetrieveFailed { reason: String },
    InvalidData { reason: String },
}

/// The message of a feedback error.
pub open spec fn feedback_error_text(e: FeedbackError) -> Seq<char> {
    match e {
        FeedbackError::StoreFailed { reason } => "failed to store feedback: "@ + reason@,
        FeedbackError::RetrieveFailed { reason } => "failed to retrieve feedback: "@ + reason@,
        FeedbackError::InvalidData { reason } => "invalid feedback data: "@ + reason@,
    }
}

impl FeedbackError {
    /// The message of this error.
    pub fn to_string(&self) -> (s: String)
        ensures
            s@ == feedback_error_text(*self),
    {
        match self {
            FeedbackError::StoreFailed { reason } => concat2("failed to store feedback: ", reason.as_str()),
            FeedbackError::RetrieveFailed { reason } => concat2("failed to retrieve feedback: ", reason.as_str()),
            FeedbackError::InvalidData { reason } => concat2("invalid feedback data: ", reason.as_str()),
        }
    }
}

/// Errors of AI operations as a whole.
#[derive(Debug, Clone, PartialEq, Eq)]
pub enum AiError {
    LlmCall { invocation_id: LlmInvocationId },
    CoordinateSession { session_id: CoordinateSessionId },
    SchemaValidationFailed { expected: String, actual: String },
}

/// The message of an AI error.
pub open spec fn ai_error_text(e: AiError) -> Seq<char> {
    match e {
        AiError::LlmCall { invocation_id } => "LLM call "@ + id_text("llm"@, invocation_id.0) + " failed"@,
        AiError::CoordinateSession { session_id } => "coordinate session "@ + id_text("coord"@, session_id.0)
            + " failed"@,
        AiError::SchemaValidationFailed { expected, actual } => "output schema validation failed: expected "@
            + expected@ + ", got "@ + actual@,
    }
}

impl AiError {
    /// The message of this error.
    pub fn to_string(&self) -> (s: String)
        ensures
            s@ == ai_error_text(*self),
    {
        match self {
            AiError::LlmCall { invocation_id } => concat3(
                "LLM call ",
                invocation_id.to_string().as_str(),
                " failed",
            ),
            AiError::CoordinateSession { session_id } => concat3(
                "coordinate session ",
                session_id.to_string().as_str(),
                " failed",
            ),
            AiError::SchemaValidationFailed { expected, actual } => concat4(
                "output schema validation failed: expected ",
                expected.as_str(),
                ", got ",
                actual.as_str(),
            ),
        }
    }
}

} // verus!
