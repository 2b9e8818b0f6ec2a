//! The denormalized trigger table: one record per trigger, with a lookup key
//! taken from its configuration, and the outcome of reconciling a
//! workflow's triggers with the table.

use vstd::prelude::*;
use crate::platform_core::id::{IntegrationAccountId, TriggerId, WorkflowId};
use crate::workflow::node::NodeId;
use crate::workflow::trigger::{Trigger, TriggerConfig, TriggerType, config_type};

verus! {

/// The part of a trigger's configuration by which it is found.
#[derive(Debug, Clone, PartialEq, Eq, Hash)]
pub enum TriggerLookupKey {
    /// A schedule: its expression and time zone.
    Schedule { cron: String, timezone: Option<String> },
    /// A webhook: its path.
    Webhook { path: String },
    /// An integration event: the account and the event type.
    IntegrationEvent { integration_id: IntegrationAccountId, event_type: String },
    /// Started by a user.
    Manual,
}

/// The lookup key of a trigger configuration.
pub open spec fn lookup_key_of(config: TriggerConfig) -> TriggerLookupKey {
    match config {
        TriggerConfig::Schedule { cron, timezone, .. } => TriggerLookupKey::Schedule { cron, timezone },
        TriggerConfig::Webhook { path, .. } => TriggerLookupKey::Webhook { path },
        TriggerConfig::IntegrationEvent { integration_id, event_type, .. } => TriggerLookupKey::IntegrationEvent {
            integration_id,
            event_type,
        },
        TriggerConfig::Manual => TriggerLookupKey::Manual,
    }
}

impl<'a> From<&'a TriggerConfig> for TriggerLookupKey {
    fn from(config: &'a TriggerConfig) -> (r: Self) {
        match config {
            TriggerConfig::Schedule { cron, timezone, .. } => TriggerLookupKey::Schedule {
                cron: cron.clone(),
                timezone: timezone.clone(),
            },
            TriggerConfig::Webhook { path, .. } => TriggerLookupKey::Webhook { path: path.clone() },
            TriggerConfig::IntegrationEvent { integration_id, event_type, .. } => TriggerLookupKey::IntegrationEvent {
                integration_id: *integration_id,
                event_type: event_type.clone(),
            },
            TriggerConfig::Manual => TriggerLookupKey::Manual,
        }
    }
}

impl<'a> vstd::std_specs::convert::FromSpecImpl<&'a TriggerConfig> for TriggerLookupKey {
    open spec fn obeys_from_spec() -> bool {
        true
    }

    open spec fn from_spec(config: &'a TriggerConfig) -> Self {
        lookup_key_of(*config)
    }
}

/// A row of the trigger table.
#[derive(Debug, Clone)]
pub struct TriggerRecord {
    /// The trigger.
    pub id: TriggerId,
    /// Its workflow.
    pub workflow_id: WorkflowId,
    /// Its node in the workflow graph.
    pub node_id: NodeId,
    /// Its kind.
    pub trigger_type: TriggerType,
    /// Whether it is enabled.
    pub enabled: bool,
    /// The key it is found by.
    pub lookup_key: TriggerLookupKey,
    /// When it was created.
    pub created_at: i64,
    /// When it was last updated.
    pub updated_at: i64,
}

impl TriggerRecord {
    /// The row of a trigger.
    pub fn from_trigger(trigger: &Trigger) -> (r: Self)
        ensures
            r.id == trigger.id,
            r.workflow_id == trigger.workflow_id,
            r.node_id == trigger.node_id,
            r.trigger_type == config_type(trigger.config),
            r.enabled == trigger.enabled,
            r.lookup_key == lookup_key_of(trigger.config),
            r.created_at == trigger.created_at,
            r.updated_at == trigger.updated_at,
    {
        TriggerRecord {
            id: trigger.id,
            workflow_id: trigger.workflow_id,
            node_id: trigger.node_id,
            trigger_type: trigger.trigger_type(),
            enabled: trigger.enabled,
            lookup_key: TriggerLookupKey::from(&trigger.config),
            created_at: trigger.created_at,
            updated_at: trigger.updated_at,
        }
    }
}

/// What reconciling a workflow's triggers with the table changed.
#[derive(Debug, Clone, Copy, PartialEq, Eq, Structural)]
pub struct ReconcileResult {
    /// Triggers added.
    pub added: u32,
    /// Triggers updated.
    pub updated: u32,
    /// Triggers deleted.
    pub deleted: u32,
}

impl Default for ReconcileResult {
    /// Nothing changed.
    fn default() -> (r: Self)
        ensures
            r == (ReconcileResult { added: 0, updated: 0, deleted: 0 }),
    {
        ReconcileResult { added: 0, updated: 0, deleted: 0 }
    }
}

impl ReconcileResult {
    /// Whether anything changed.
    pub fn has_changes(&self) -> (r: bool)
        ensures
            r == (self.added > 0 || self.updated > 0 || self.deleted > 0),
    {
        self.added > 0 || self.updated > 0 || self.deleted > 0
    }
}

} // verus!
