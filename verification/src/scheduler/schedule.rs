//! Cron schedules and scheduled executions, with the handling of missed
//! executions.

use vstd::prelude::*;
use crate::support::text::{owned, concat2, count_words, word_count, decimal, u64_to_decimal};
use crate::support::clock::{now_millis, is_instant, MAX_MILLIS};
use crate::support::ulid_text::{fresh_ulid, ulid_to_string, ulid_text};
use crate::platform_core::id::{TriggerId, WorkflowId};
use crate::scheduler::error::ScheduleError;

verus! {

/// One hour in milliseconds.
pub const HOUR_MILLIS: i64 = 3_600_000i64;

/// A cron schedule.
#[derive(Debug, Clone)]
pub struct CronSchedule {
    /// The cron expression (e.g. `0 7 * * *` for 7am daily).
    pub expression: String,
    /// Time zone of the schedule (UTC when none).
    pub timezone: Option<String>,
}

impl CronSchedule {
    /// A schedule in UTC.
    pub fn new(expression: &str) -> (r: Self)
        ensures
            r.expression@ == expression@,
            r.timezone is None,
    {
        CronSchedule { expression: owned(expression), timezone: None }
    }

    /// The schedule in the given time zone.
    pub fn with_timezone(self, timezone: &str) -> (r: Self)
        ensures
            r.expression == self.expression,
            r.timezone matches Some(t) && t@ == timezone@,
    {
        CronSchedule { expression: self.expression, timezone: Some(owned(timezone)) }
    }

    /// Checks the shape of the expression: exactly five fields separated by
    /// white space.
    pub fn validate(&self) -> (r: Result<(), ScheduleError>)
        ensures
            r is Ok <==> word_count(self.expression@) == 5,
            r matches Err(ScheduleError::InvalidCronExpression { expression, reason }) ==> expression@
                == self.expression@ && reason@ == "expected 5 parts, got "@ + decimal(word_count(self.expression@)),
            r is Err ==> r->Err_0 is InvalidCronExpression,
    {
        let parts = count_words(self.expression.as_str());
        if parts != 5 {
            return Err(
                ScheduleError::InvalidCronExpression {
                    expression: self.expression.clone(),
                    reason: concat2("expected 5 parts, got ", u64_to_decimal(parts as u64).as_str()),
                },
            );
        }
        Ok(())
    }

    /// The next execution after an instant: one hour later (the expression
    /// is not evaluated yet).
    pub fn next_after(&self, after: i64) -> (r: Option<i64>)
        requires
            is_instant(after),
        ensures
            r == Some((after + HOUR_MILLIS) as i64),
    {
        Some(after + HOUR_MILLIS)
    }
}

/// Identifier of a scheduled execution (text prefix `sched`).
#[derive(Debug, Clone, Copy, PartialEq, Eq, Hash, Structural)]
pub struct ScheduledExecutionId(pub u128);

impl ScheduledExecutionId {
    /// A fresh identifier.
    pub fn new() -> Self {
        ScheduledExecutionId(fresh_ulid())
    }

    /// The text form `sched_ULID`.
    pub fn to_string(&self) -> (s: String)
        ensures
            s@ == "sched_"@ + ulid_text(self.0),
    {
        concat2("sched_", ulid_to_string(self.0).as_str())
    }
}

impl Default for ScheduledExecutionId {
    /// A fresh identifier.
    fn default() -> Self {
        ScheduledExecutionId::new()
    }
}

/// The state of a scheduled execution.
#[derive(Debug, Clone, Copy, PartialEq, Eq, Structural)]
pub enum ExecutionStatus {
    /// Waiting for its time.
    Pending,
    /// Its time has come.
    Ready,
    /// Running.
    Running,
    /// Finished successfully.
    Completed,
    /// Failed.
    Failed,
    /// Skipped (a missed execution).
    Skipped,
}

/// One planned execution of a scheduled trigger.
#[derive(Debug, Clone)]
pub struct ScheduledExecution {
    /// Identifier.
    pub id: ScheduledExecutionId,
    /// The trigger.
    pub trigger_id: TriggerId,
    /// The workflow.
    pub workflow_id: WorkflowId,
    /// When it should run (milliseconds since the epoch).
    pub scheduled_for: i64,
    /// State.
    pub status: ExecutionStatus,
    /// When it was created.
    pub created_at: i64,
    /// When it started.
    pub started_at: Option<i64>,
    /// When it finished.
    pub completed_at: Option<i64>,
}

impl ScheduledExecution {
    /// A pending execution for the given time, created now.
    pub fn new(trigger_id: TriggerId, workflow_id: WorkflowId, scheduled_for: i64) -> (r: Self)
        ensures
            r.trigger_id == trigger_id,
            r.workflow_id == workflow_id,
            r.scheduled_for == scheduled_for,
            r.status == ExecutionStatus::Pending,
            is_instant(r.created_at),
            r.started_at is None,
            r.completed_at is None,
    {
        ScheduledExecution {
            id: ScheduledExecutionId::new(),
            trigger_id,
            workflow_id,
            scheduled_for,
            status: ExecutionStatus::Pending,
            created_at: now_millis(),
            started_at: None,
            completed_at: None,
        }
    }

    /// Whether the execution is pending and due at the instant `now`.
    pub fn is_ready_at(&self, now: i64) -> (r: bool)
        ensures
            r == (self.status == ExecutionStatus::Pending && now >= self.scheduled_for),
    {
        self.status == ExecutionStatus::Pending && now >= self.scheduled_for
    }

    /// Whether the execution is pending and due now.
    pub fn is_ready(&self) -> (r: bool)
        ensures
            exists|now: i64| #[trigger] is_instant(now) && r == (self.status == ExecutionStatus::Pending && now
                >= self.scheduled_for),
    {
        let now = now_millis();
        assert(is_instant(now));
        self.is_ready_at(now)
    }

    /// Whether the execution is pending and more than `threshold`
    /// milliseconds overdue at the instant `now`.
    pub fn is_missed_at(&self, now: i64, threshold: i64) -> (r: bool)
        requires
            is_instant(self.scheduled_for),
            is_instant(threshold),
        ensures
            r == (self.status == ExecutionStatus::Pending && now > self.scheduled_for + threshold),
    {
        self.status == ExecutionStatus::Pending && now > self.scheduled_for + threshold
    }

    /// Whether the execution is pending and more than `threshold`
    /// milliseconds overdue now.
    pub fn is_missed(&self, threshold: i64) -> (r: bool)
        requires
            is_instant(self.scheduled_for),
            is_instant(threshold),
        ensures
            exists|now: i64| #[trigger] is_instant(now) && r == (self.status == ExecutionStatus::Pending && now
                > self.scheduled_for + threshold),
    {
        let now = now_millis();
        assert(is_instant(now));
        self.is_missed_at(now, threshold)
    }

    /// Starts the execution now.
    pub fn start(&mut self)
        ensures
            final(self).started_at is Some,
            *final(self) == (ScheduledExecution {
                status: ExecutionStatus::Running,
                started_at: final(self).started_at,
                ..*old(self)
            }),
    {
        self.status = ExecutionStatus::Running;
        self.started_at = Some(now_millis());
    }

    /// Completes the execution now.
    pub fn complete(&mut self)
        ensures
            final(self).completed_at is Some,
            *final(self) == (ScheduledExecution {
                status: ExecutionStatus::Completed,
                completed_at: final(self).completed_at,
                ..*old(self)
            }),
    {
        self.status = ExecutionStatus::Completed;
        self.completed_at = Some(now_millis());
    }

    /// Fails the execution now.
    pub fn fail(&mut self)
        ensures
            final(self).completed_at is Some,
            *final(self) == (ScheduledExecution {
                status: ExecutionStatus::Failed,
                completed_at: final(self).completed_at,
                ..*old(self)
            }),
    {
        self.status = ExecutionStatus::Failed;
        self.completed_at = Some(now_millis());
    }

    /// Skips the execution now.
    pub fn skip(&mut self)
        ensures
            final(self).completed_at is Some,
            *final(self) == (ScheduledExecution {
                status: ExecutionStatus::Skipped,
                completed_at: final(self).completed_at,
                ..*old(self)
            }),
    {
        self.status = ExecutionStatus::Skipped;
        self.completed_at = Some(now_millis());
    }
}

} // verus!
