//! Naming and configuration of the NATS deployment of the engine: events are
//! persisted to a JetStream stream, one subject per run; work items go to a
//! work-queue stream; node outputs go to an object store bucket under
//! generated keys.

use vstd::prelude::*;
use crate::support::text::{owned, concat2};
use crate::support::ulid_text::{fresh_ulid, ulid_to_string, ulid_text};
use crate::platform_core::id::{WorkflowRunId, id_text};
use crate::workflow::orchestrator::{EventStoreError, event_store_error_text};
use crate::workflow::worker::{ObjectStoreError, object_store_error_text};

verus! {

/// Subject prefix of the events of runs.
pub const RUN_EVENTS_SUBJECT_PREFIX: &'static str = "workflow.run";

/// Subject prefix of work items.
pub const WORK_ITEMS_SUBJECT: &'static str = "workflow.work";

/// Default name of the events stream.
pub const EVENTS_STREAM_NAME: &'static str = "WORKFLOW_EVENTS";

/// Default name of the work stream.
pub const WORK_STREAM_NAME: &'static str = "WORKFLOW_WORK";

/// Default name of the object store bucket of node outputs.
pub const OUTPUTS_BUCKET_NAME: &'static str = "workflow-outputs";

/// Configuration of the NATS deployment.
#[derive(Debug, Clone)]
pub struct NatsConfig {
    /// NATS server URL.
    pub url: String,
    /// Name of the events stream (default `WORKFLOW_EVENTS`).
    pub events_stream_name: Option<String>,
    /// Name of the work stream (default `WORKFLOW_WORK`).
    pub work_stream_name: Option<String>,
    /// Name of the outputs bucket (default `workflow-outputs`).
    pub outputs_bucket_name: Option<String>,
}

/// A configured name, or the default.
pub open spec fn name_or(configured: Option<String>, default: Seq<char>) -> Seq<char> {
    match configured {
        Some(s) => s@,
        None => default,
    }
}

impl NatsConfig {
    /// A configuration for the given server URL, with the default names.
    pub fn new(url: &str) -> (r: Self)
        ensures
            r.url@ == url@,
            r.events_stream_name is None,
            r.work_stream_name is None,
            r.outputs_bucket_name is None,
    {
        NatsConfig { url: owned(url), events_stream_name: None, work_stream_name: None, outputs_bucket_name: None }
    }

    /// The name of the events stream.
    pub fn events_stream(&self) -> (r: &str)
        ensures
            r@ == name_or(self.events_stream_name, EVENTS_STREAM_NAME@),
    {
        match &self.events_stream_name {
            Some(s) => s.as_str(),
            None => EVENTS_STREAM_NAME,
        }
    }

    /// The name of the work stream.
    pub fn work_stream(&self) -> (r: &str)
        ensures
            r@ == name_or(self.work_stream_name, WORK_STREAM_NAME@),
    {
        match &self.work_stream_name {
            Some(s) => s.as_str(),
            None => WORK_STREAM_NAME,
        }
    }

    /// The name of the outputs bucket.
    pub fn outputs_bucket(&self) -> (r: &str)
        ensures
            r@ == name_or(self.outputs_bucket_name, OUTPUTS_BUCKET_NAME@),
    {
        match &self.outputs_bucket_name {
            Some(s) => s.as_str(),
            None => OUTPUTS_BUCKET_NAME,
        }
    }
}

/// The subject of the events of a run: `workflow.run.<run id>`.
pub fn run_subject(run_id: WorkflowRunId) -> (r: String)
    ensures
        r@ == RUN_EVENTS_SUBJECT_PREFIX@ + "."@ + id_text("run"@, run_id.0),
{
    let prefix = concat2(RUN_EVENTS_SUBJECT_PREFIX, ".");
    concat2(prefix.as_str(), run_id.to_string().as_str())
}

/// The subject of work items: `workflow.work.items`.
pub fn work_subject() -> (r: String)
    ensures
        r@ == WORK_ITEMS_SUBJECT@ + ".items"@,
{
    concat2(WORK_ITEMS_SUBJECT, ".items")
}

/// The subjects the events stream holds: every run's.
pub fn events_stream_subjects() -> (r: String)
    ensures
        r@ == RUN_EVENTS_SUBJECT_PREFIX@ + ".>"@,
{
    concat2(RUN_EVENTS_SUBJECT_PREFIX, ".>")
}

/// The subjects the work stream holds.
pub fn work_stream_subjects() -> (r: String)
    ensures
        r@ == WORK_ITEMS_SUBJECT@ + ".>"@,
{
    concat2(WORK_ITEMS_SUBJECT, ".>")
}

/// A fresh key for a stored output: `output_` and a new ULID.
pub fn generate_key() -> (r: String)
    ensures
        exists|u: u128| r@ == "output_"@ + ulid_text(u),
{
    let u = fresh_ulid();
    concat2("output_", ulid_to_string(u).as_str())
}

/// Errors of setting up the NATS stores.
#[derive(Debug)]
pub enum NatsSetupError {
    /// The event store could not be set up.
    EventStore(EventStoreError),
    /// The object store could not be set up.
    ObjectStore(ObjectStoreError),
}

/// The message of a setup error.
pub open spec fn nats_setup_error_text(e: NatsSetupError) -> Seq<char> {
    match e {
        NatsSetupError::EventStore(x) => "event store setup failed: "@ + event_store_error_text(x),
        NatsSetupError::ObjectStore(x) => "object store setup failed: "@ + object_store_error_text(x),
    }
}

impl NatsSetupError {
    /// The message of this error.
    pub fn to_string(&self) -> (s: String)
        ensures
            s@ == nats_setup_error_text(*self),
    {
        match self {
            NatsSetupError::EventStore(x) => concat2("event store setup failed: ", x.to_string().as_str()),
            NatsSetupError::ObjectStore(x) => concat2("object store setup failed: ", x.to_string().as_str()),
        }
    }
}

} // verus!
