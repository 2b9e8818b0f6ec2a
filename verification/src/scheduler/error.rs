//! Errors of triggers and schedules.

use vstd::prelude::*;
use crate::support::text::{concat2, concat4};
use crate::platform_core::id::{TriggerId, id_text};

verus! {

/// Errors of trigger operations.
#[derive(Debug, Clone, PartialEq, Eq)]
pub enum TriggerError {
    /// No such trigger.
    NotFound { id: TriggerId },
    /// The trigger exists already.
    AlreadyExists { id: TriggerId },
    /// Storage failed.
    StorageFailed { reason: String },
    /// The configuration is not valid.
    InvalidConfig { reason: String },
}

/// The message of a trigger error.
pub open spec fn trigger_error_text(e: TriggerError) -> Seq<char> {
    match e {
        TriggerError::NotFound { id } => "trigger not found: "@ + id_text("trg"@, id.0),
        TriggerError::AlreadyExists { id } => "trigger already exists: "@ + id_text("trg"@, id.0),
        TriggerError::StorageFailed { reason } => "trigger storage failed: "@ + reason@,
        TriggerError::InvalidConfig { reason } => "invalid trigger config: "@ + reason@,
    }
}

impl TriggerError {
    /// The message of this error.
    pub fn to_string(&self) -> (s: String)
        ensures
            s@ == trigger_error_text(*self),
    {
        match self {
            TriggerError::NotFound { id } => concat2("trigger not found: ", id.to_string().as_str()),
            TriggerError::AlreadyExists { id } => concat2("trigger already exists: ", id.to_string().as_str()),
            TriggerError::StorageFailed { reason } => concat2("trigger storage failed: ", reason.as_str()),
            TriggerError::InvalidConfig { reason } => concat2("invalid trigger config: ", reason.as_str()),
        }
    }
}

/// Errors of schedules.
#[derive(Debug, Clone, PartialEq, Eq)]
pub enum ScheduleError {
    /// The cron expression is not valid.
    InvalidCronExpression { expression: String, reason: String },
    /// The schedule could not be evaluated.
    EvaluationFailed { reason: String },
    /// The time zone is not valid.
    InvalidTimezone { timezone: String },
}

/// The message of a schedule error.
pub open spec fn schedule_error_text(e: ScheduleError) -> Seq<char> {
    match e {
        ScheduleError::InvalidCronExpression { expression, reason } => "invalid cron expression '"@ + expression@
            + "': "@ + reason@,
        ScheduleError::EvaluationFailed { reason } => "schedule evaluation failed: "@ + reason@,
        ScheduleError::InvalidTimezone { timezone } => "invalid timezone: "@ + timezone@,
    }
}

impl ScheduleError {
    /// The message of this error.
    pub fn to_string(&self) -> (s: String)
        ensures
            s@ == schedule_error_text(*self),
    {
        match self {
            ScheduleError::InvalidCronExpression { expression, reason } => concat4(
                "invalid cron expression '",
                expression.as_str(),
                "': ",
                reason.as_str(),
            ),
            ScheduleError::EvaluationFailed { reason } => concat2("schedule evaluation failed: ", reason.as_str()),
            ScheduleError::InvalidTimezone { timezone } => concat2("invalid timezone: ", timezone.as_str()),
        }
    }
}

/// Errors of the scheduler as a whole.
#[derive(Debug, Clone, PartialEq, Eq)]
pub enum SchedulerError {
    /// An operation on a trigger failed.
    TriggerOperation { trigger_id: TriggerId },
    /// Registering a trigger failed.
    RegistrationFailed { reason: String },
}

/// The message of a scheduler error.
pub open spec fn scheduler_error_text(e: SchedulerError) -> Seq<char> {
    match e {
        SchedulerError::TriggerOperation { trigger_id } => "trigger operation failed for "@ + id_text(
            "trg"@,
            trigger_id.0,
        ),
        SchedulerError::RegistrationFailed { reason } => "trigger registration failed: "@ + reason@,
    }
}

impl SchedulerError {
    /// The message of this error.
    pub fn to_string(&self) -> (s: String)
        ensures
            s@ == scheduler_error_text(*self),
    {
        match self {
            SchedulerError::TriggerOperation { trigger_id } => concat2(
                "trigger operation failed for ",
                trigger_id.to_string().as_str(),
            ),
            SchedulerError::RegistrationFailed { reason } => concat2("trigger registration failed: ", reason.as_str()),
        }
    }
}

} // verus!
