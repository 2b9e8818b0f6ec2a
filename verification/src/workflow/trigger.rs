//! Triggers: the entry points of workflows. Trigger nodes of a workflow graph
//! are also kept as trigger records, apart from the graph, for lookup.

use vstd::prelude::*;
use crate::support::clock::now_millis;
use crate::platform_core::id::{IntegrationAccountId, TriggerId, WorkflowId};
use crate::workflow::node::NodeId;

verus! {

/// The kind of a trigger.
#[derive(Debug, Clone, Copy, PartialEq, Eq, Structural)]
pub enum TriggerType {
    /// Time-based, with a cron expression.
    Schedule,
    /// An HTTP webhook.
    Webhook,
    /// An event of an integration (e.g. a new email).
    IntegrationEvent,
    /// Started by a user.
    Manual,
}

/// What to do about a scheduled execution that was missed.
#[derive(Debug, Clone, Copy, PartialEq, Eq, Structural)]
pub enum MissedExecutionBehavior {
    /// Skip it.
    Skip,
    /// Run as soon as it is noticed.
    RunImmediately,
    /// Run at the next scheduled window.
    RunAtNextWindow,
}

impl Default for MissedExecutionBehavior {
    /// Missed executions are skipped.
    fn default() -> (r: Self)
        ensures
            r == MissedExecutionBehavior::Skip,
    {
        MissedExecutionBehavior::Skip
    }
}

/// The configuration of a trigger record.
#[derive(Debug)]
pub enum TriggerConfig {
    /// Cron-style schedule.
    Schedule {
        cron: String,
        timezone: Option<String>,
        /// Next scheduled execution (milliseconds since the epoch), once computed.
        next_run: Option<i64>,
        missed_execution: MissedExecutionBehavior,
    },
    /// HTTP webhook.
    Webhook { path: String, secret: Option<String> },
    /// Integration event.
    IntegrationEvent { integration_id: IntegrationAccountId, event_type: String, filter: Option<String> },
    /// Started by a user.
    Manual,
}

/// The kind of a trigger configuration.
pub open spec fn config_type(c: TriggerConfig) -> TriggerType {
    match c {
        TriggerConfig::Schedule { .. } => TriggerType::Schedule,
        TriggerConfig::Webhook { .. } => TriggerType::Webhook,
        TriggerConfig::IntegrationEvent { .. } => TriggerType::IntegrationEvent,
        TriggerConfig::Manual => TriggerType::Manual,
    }
}

/// A trigger record.
#[derive(Debug)]
pub struct Trigger {
    /// Identifier of the trigger.
    pub id: TriggerId,
    /// The workflow it starts.
    pub workflow_id: WorkflowId,
    /// Its node in the workflow graph.
    pub node_id: NodeId,
    /// Whether it is enabled.
    pub enabled: bool,
    /// Configuration.
    pub config: TriggerConfig,
    /// When it was created (milliseconds since the epoch).
    pub created_at: i64,
    /// When it was last updated (milliseconds since the epoch).
    pub updated_at: i64,
}

impl Trigger {
    /// A new enabled trigger, created now.
    pub fn new(workflow_id: WorkflowId, node_id: NodeId, config: TriggerConfig) -> (r: Self)
        ensures
            r.workflow_id == workflow_id,
            r.node_id == node_id,
            r.enabled,
            r.config == config,
            r.created_at == r.updated_at,
    {
        let now = now_millis();
        Trigger { id: TriggerId::new(), workflow_id, node_id, enabled: true, config, created_at: now, updated_at: now }
    }

    /// The kind of this trigger.
    pub fn trigger_type(&self) -> (r: TriggerType)
        ensures
            r == config_type(self.config),
    {
        match &self.config {
            TriggerConfig::Schedule { .. } => TriggerType::Schedule,
            TriggerConfig::Webhook { .. } => TriggerType::Webhook,
            TriggerConfig::IntegrationEvent { .. } => TriggerType::IntegrationEvent,
            TriggerConfig::Manual => TriggerType::Manual,
        }
    }

    /// Enables the trigger and marks it updated now.
    pub fn enable(&mut self)
        ensures
            *final(self) == (Trigger { enabled: true, updated_at: final(self).updated_at, ..*old(self) }),
    {
        self.enabled = true;
        self.updated_at = now_millis();
    }

    /// Disables the trigger and marks it updated now.
    pub fn disable(&mut self)
        ensures
            *final(self) == (Trigger { enabled: false, updated_at: final(self).updated_at, ..*old(self) }),
    {
        self.enabled = false;
        self.updated_at = now_millis();
    }
}

} // verus!
