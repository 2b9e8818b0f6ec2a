//! Scheduling of workflow triggers: cron schedules, scheduled executions and
//! their lifecycle, the trigger lookup table, and the scheduler's errors.

pub mod error;
pub mod schedule;
pub mod manager;
