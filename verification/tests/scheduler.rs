use silver_telegram::platform_core::id::{TriggerId, WorkflowId};
use silver_telegram::scheduler::error::ScheduleError;
use silver_telegram::scheduler::manager::{ReconcileResult, TriggerLookupKey, TriggerRecord};
use silver_telegram::scheduler::schedule::{CronSchedule, ExecutionStatus, ScheduledExecution, ScheduledExecutionId};
use silver_telegram::workflow::node::NodeId;
use silver_telegram::workflow::trigger::{MissedExecutionBehavior, Trigger, TriggerConfig, TriggerType};

const MINUTE_MS: i64 = 60_000;
const HOUR_MS: i64 = 3_600_000;

fn now_ms() -> i64 {
    chrono::Utc::now().timestamp_millis()
}

#[test]
fn cron_schedule_creation() {
    let schedule = CronSchedule::new("0 7 * * *").with_timezone("America/New_York");
    assert_eq!(schedule.expression, "0 7 * * *");
    assert_eq!(schedule.timezone, Some("America/New_York".to_string()));
}

#[test]
fn cron_schedule_validation() {
    let valid = CronSchedule::new("0 7 * * *");
    assert!(valid.validate().is_ok());
    let invalid = CronSchedule::new("invalid");
    assert!(invalid.validate().is_err());
}

#[test]
fn cron_validation_reason_counts_parts() {
    let invalid = CronSchedule::new("  0  7 * ");
    match invalid.validate() {
        Err(ScheduleError::InvalidCronExpression { expression, reason }) => {
            assert_eq!(expression, "  0  7 * ");
            assert_eq!(reason, "expected 5 parts, got 3");
        }
        other => panic!("unexpected {other:?}"),
    }
    assert!(CronSchedule::new("\t0 7 * *\n*  ").validate().is_ok());
}

#[test]
fn cron_next_after_is_one_hour_later() {
    let schedule = CronSchedule::new("0 7 * * *");
    assert_eq!(schedule.next_after(1_000), Some(1_000 + HOUR_MS));
}

#[test]
fn scheduled_execution_lifecycle() {
    let trigger_id = TriggerId::new();
    let workflow_id = WorkflowId::new();
    let scheduled_for = now_ms() - 5 * MINUTE_MS;
    let mut execution = ScheduledExecution::new(trigger_id, workflow_id, scheduled_for);
    assert!(execution.is_ready());
    assert_eq!(execution.status, ExecutionStatus::Pending);
    execution.start();
    assert_eq!(execution.status, ExecutionStatus::Running);
    assert!(execution.started_at.is_some());
    execution.complete();
    assert_eq!(execution.status, ExecutionStatus::Completed);
    assert!(execution.completed_at.is_some());
}

#[test]
fn scheduled_execution_missed() {
    let execution = ScheduledExecution::new(TriggerId::new(), WorkflowId::new(), now_ms() - 2 * HOUR_MS);
    assert!(execution.is_missed(HOUR_MS));
    assert!(!execution.is_missed(3 * HOUR_MS));
}

#[test]
fn scheduled_execution_readiness_at_instants() {
    let mut execution = ScheduledExecution::new(TriggerId::new(), WorkflowId::new(), 10_000);
    assert!(!execution.is_ready_at(9_999));
    assert!(execution.is_ready_at(10_000));
    assert!(!execution.is_missed_at(10_000 + MINUTE_MS, MINUTE_MS));
    assert!(execution.is_missed_at(10_001 + MINUTE_MS, MINUTE_MS));
    execution.skip();
    assert_eq!(execution.status, ExecutionStatus::Skipped);
    assert!(!execution.is_ready_at(20_000));
}

#[test]
fn execution_id_display() {
    let id = ScheduledExecutionId::new();
    assert!(id.to_string().starts_with("sched_"));
}

#[test]
fn trigger_record_from_trigger() {
    let workflow_id = WorkflowId::new();
    let node_id = NodeId::new();
    let config = TriggerConfig::Schedule {
        cron: "0 7 * * *".to_string(),
        timezone: Some("America/New_York".to_string()),
        next_run: None,
        missed_execution: MissedExecutionBehavior::Skip,
    };
    let trigger = Trigger::new(workflow_id, node_id, config);
    let record = TriggerRecord::from_trigger(&trigger);
    assert_eq!(record.id, trigger.id);
    assert_eq!(record.workflow_id, workflow_id);
    assert_eq!(record.trigger_type, TriggerType::Schedule);
}

#[test]
fn lookup_key_from_webhook_config() {
    let config = TriggerConfig::Webhook { path: "/hooks/my-workflow".to_string(), secret: None };
    let key = TriggerLookupKey::from(&config);
    match key {
        TriggerLookupKey::Webhook { path } => assert_eq!(path, "/hooks/my-workflow"),
        _ => panic!("wrong key type"),
    }
}

#[test]
fn reconcile_result_has_changes() {
    let empty = ReconcileResult::default();
    assert!(!empty.has_changes());
    let with_adds = ReconcileResult { added: 1, ..Default::default() };
    assert!(with_adds.has_changes());
    let with_deletes = ReconcileResult { deleted: 2, ..Default::default() };
    assert!(with_deletes.has_changes());
}
