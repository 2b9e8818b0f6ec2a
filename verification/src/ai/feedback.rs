//! Feedback on AI outputs, at every level a user may give it: on one
//! output, on one interaction, or on a whole workflow run.

use vstd::prelude::*;
use crate::ai::llm_call::LlmInvocationId;
use crate::platform_core::id::{UserId, WorkflowRunId, format_id, id_text};
use crate::support::clock::{is_instant, now_millis};
use crate::support::json::Json;
use crate::support::text::owned;
use crate::support::ulid_text::fresh_ulid;

verus! {

/// Identifier of a feedback record (text prefix `fb`).
#[derive(Debug, Clone, Copy, PartialEq, Eq, Hash, Structural)]
pub struct FeedbackId(pub u128);

impl FeedbackId {
    /// A new identifier with a freshly generated ULID.
    pub fn new() -> Self {
        FeedbackId(fresh_ulid())
    }

    /// The text form `fb_ULID`.
    pub fn to_string(&self) -> (s: String)
        ensures
            s@ == id_text("fb"@, self.0),
    {
        format_id("fb", self.0)
    }
}

/// The granularity of feedback.
#[derive(Debug, Clone, Copy, PartialEq, Eq, Structural)]
pub enum FeedbackLevel {
    PerOutput,
    PerInteraction,
    PerWorkflowRun,
}

/// What the feedback says.
#[derive(Debug, Clone, Copy, PartialEq, Eq, Structural)]
pub enum FeedbackSignal {
    Positive,
    Negative,
    Modified,
}

/// What the feedback is about.
#[derive(Debug)]
pub enum FeedbackTarget {
    LlmOutput { invocation_id: LlmInvocationId, original_output: Json },
    WorkflowRun { run_id: WorkflowRunId },
    ConversationMessage { session_id: String, message_id: String },
}

/// A feedback record.
#[derive(Debug)]
pub struct Feedback {
    pub id: FeedbackId,
    pub user_id: UserId,
    pub level: FeedbackLevel,
    pub signal: FeedbackSignal,
    pub target: FeedbackTarget,
    /// What the output should have been.
    pub correction: Option<Json>,
    pub comment: Option<String>,
    /// When the feedback was given, in milliseconds since the Unix epoch.
    pub created_at: i64,
}

impl Feedback {
    /// Positive feedback on an LLM output.
    pub fn positive_llm_output(user_id: UserId, invocation_id: LlmInvocationId, output: Json) -> (r: Self)
        ensures
            r.user_id == user_id,
            r.level == FeedbackLevel::PerOutput,
            r.signal == FeedbackSignal::Positive,
            r.target == (FeedbackTarget::LlmOutput { invocation_id, original_output: output }),
            r.correction is None,
            r.comment is None,
            is_instant(r.created_at),
    {
        Feedback {
            id: FeedbackId::new(),
            user_id,
            level: FeedbackLevel::PerOutput,
            signal: FeedbackSignal::Positive,
            target: FeedbackTarget::LlmOutput { invocation_id, original_output: output },
            correction: None,
            comment: None,
            created_at: now_millis(),
        }
    }

    /// Negative feedback on an LLM output, with the correct output.
    pub fn negative_llm_output(
        user_id: UserId,
        invocation_id: LlmInvocationId,
        output: Json,
        correction: Json,
    ) -> (r: Self)
        ensures
            r.user_id == user_id,
            r.level == FeedbackLevel::PerOutput,
            r.signal == FeedbackSignal::Negative,
            r.target == (FeedbackTarget::LlmOutput { invocation_id, original_output: output }),
            r.correction == Some(correction),
            r.comment is None,
            is_instant(r.created_at),
    {
        Feedback {
            id: FeedbackId::new(),
            user_id,
            level: FeedbackLevel::PerOutput,
            signal: FeedbackSignal::Negative,
            target: FeedbackTarget::LlmOutput { invocation_id, original_output: output },
            correction: Some(correction),
            comment: None,
            created_at: now_millis(),
        }
    }

    /// Feedback on a workflow run.
    pub fn workflow_run(user_id: UserId, run_id: WorkflowRunId, signal: FeedbackSignal) -> (r: Self)
        ensures
            r.user_id == user_id,
            r.level == FeedbackLevel::PerWorkflowRun,
            r.signal == signal,
            r.target == (FeedbackTarget::WorkflowRun { run_id }),
            r.correction is None,
            r.comment is None,
            is_instant(r.created_at),
    {
        Feedback {
            id: FeedbackId::new(),
            user_id,
            level: FeedbackLevel::PerWorkflowRun,
            signal,
            target: FeedbackTarget::WorkflowRun { run_id },
            correction: None,
            comment: None,
            created_at: now_millis(),
        }
    }

    /// The feedback with a comment.
    pub fn with_comment(self, comment: &str) -> (r: Self)
        ensures
            r.comment matches Some(c) && c@ == comment@,
            r.id == self.id,
            r.user_id == self.user_id,
            r.level == self.level,
            r.signal == self.signal,
            r.target == self.target,
            r.correction == self.correction,
            r.created_at == self.created_at,
    {
        Feedback { comment: Some(owned(comment)), ..self }
    }
}

/// Feedback counts by level.
#[derive(Debug, Clone, Copy, PartialEq, Eq, Structural)]
pub struct LevelBreakdown {
    pub per_output: u64,
    pub per_interaction: u64,
    pub per_workflow_run: u64,
}

impl Default for LevelBreakdown {
    fn default() -> (r: Self)
        ensures
            r.per_output == 0 && r.per_interaction == 0 && r.per_workflow_run == 0,
    {
        LevelBreakdown { per_output: 0, per_interaction: 0, per_workflow_run: 0 }
    }
}

/// Feedback counts of a user.
#[derive(Debug, Clone, Copy, PartialEq, Eq, Structural)]
pub struct FeedbackStats {
    pub total_count: u64,
    pub positive_count: u64,
    pub negative_count: u64,
    pub modified_count: u64,
    pub by_level: LevelBreakdown,
}

impl Default for FeedbackStats {
    fn default() -> (r: Self)
        ensures
            r.total_count == 0 && r.positive_count == 0 && r.negative_count == 0 && r.modified_count == 0,
            r.by_level.per_output == 0 && r.by_level.per_interaction == 0 && r.by_level.per_workflow_run == 0,
    {
        FeedbackStats {
            total_count: 0,
            positive_count: 0,
            negative_count: 0,
            modified_count: 0,
            by_level: LevelBreakdown::default(),
        }
    }
}

} // verus!
