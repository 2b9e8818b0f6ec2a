//! Connectors to external services: what a connector offers, the operations
//! it executes and their results.

use vstd::prelude::*;
use crate::support::text::owned;
use crate::support::json::{Json, JsonView, members_view, members_insert, insert_member, empty_object, lemma_object_view, object_members};

verus! {

/// What a connector can do.
#[derive(Debug, Clone, Copy, PartialEq, Eq, Structural)]
pub enum ConnectorCapability {
    Read,
    Write,
    Update,
    Delete,
    Subscribe,
    Oauth,
    ApiKey,
    BasicAuth,
}

/// One operation a connector offers.
#[derive(Debug)]
pub struct OperationInfo {
    /// Name.
    pub name: String,
    /// What it does.
    pub description: String,
    /// JSON schema of its input.
    pub input_schema: Json,
    /// JSON schema of its output.
    pub output_schema: Json,
}

/// A description of a connector.
#[derive(Debug)]
pub struct ConnectorInfo {
    /// Identifier (e.g. `imap`, `caldav`).
    pub id: String,
    /// Name.
    pub name: String,
    /// What it connects to.
    pub description: String,
    /// Protocol.
    pub protocol: String,
    /// Operations offered.
    pub operations: Vec<OperationInfo>,
    /// Capabilities.
    pub capabilities: Vec<ConnectorCapability>,
}

impl ConnectorInfo {
    /// Whether the connector has the capability.
    pub fn supports(&self, capability: ConnectorCapability) -> (r: bool)
        ensures
            r == self.capabilities@.contains(capability),
    {
        let mut i: usize = 0;
        while i < self.capabilities.len()
            invariant
                i <= self.capabilities@.len(),
                forall|j: int| 0 <= j < i ==> self.capabilities@[j] != capability,
            decreases self.capabilities@.len() - i,
        {
            if self.capabilities[i] == capability {
                return true;
            }
            i = i + 1;
        }
        false
    }
}

/// An operation to execute.
#[derive(Debug)]
pub struct Operation {
    /// Name of the operation.
    pub name: String,
    /// Its parameters (an object).
    pub parameters: Json,
}

impl Operation {
    /// An operation without parameters (an empty object).
    pub fn new(name: &str) -> (r: Self)
        ensures
            r.name@ == name@,
            r.parameters@ == empty_object(),
    {
        Operation { name: owned(name), parameters: Json::empty_object() }
    }

    /// The operation with parameter `key` set to `value` (when the
    /// parameters are an object; otherwise unchanged).
    pub fn with_param(self, key: &str, value: Json) -> (r: Self)
        ensures
            r.name == self.name,
            self.parameters@ matches JsonView::Object(ms) ==> r.parameters@ == JsonView::Object(
                members_insert(ms, key@, value@),
            ),
            !(self.parameters@ is Object) ==> r.parameters == self.parameters,
    {
        proof {
            crate::support::json::lemma_view_variant(self.parameters);
        }
        let Operation { name, parameters } = self;
        match parameters {
            Json::Object(members) => {
                let ghost before = Json::Object(members);
                proof {
                    lemma_object_view(before);
                    assert(object_members(before@) =~= members_view(members@));
                }
                let updated = insert_member(members, owned(key), value);
                let p = Json::Object(updated);
                proof {
                    lemma_object_view(p);
                    assert(object_members(p@) =~= members_view(updated@));
                }
                Operation { name, parameters: p }
            },
            other => Operation { name, parameters: other },
        }
    }

    /// The operation with these parameters.
    pub fn with_parameters(self, parameters: Json) -> (r: Self)
        ensures
            r.name == self.name,
            r.parameters == parameters,
    {
        Operation { name: self.name, parameters }
    }
}

/// Measurements of an executed operation.
#[derive(Debug, Clone, Copy, PartialEq, Eq, Structural)]
pub struct OperationMetadata {
    /// Time taken, in milliseconds.
    pub latency_ms: u64,
    /// API calls made.
    pub api_calls: u32,
    /// Requests left before the service's rate limit, if it says.
    pub rate_limit_remaining: Option<u32>,
}

impl Default for OperationMetadata {
    /// No time, no calls, no rate limit information.
    fn default() -> (r: Self)
        ensures
            r == (OperationMetadata { latency_ms: 0, api_calls: 0, rate_limit_remaining: None }),
    {
        OperationMetadata { latency_ms: 0, api_calls: 0, rate_limit_remaining: None }
    }
}

/// The result of an executed operation.
#[derive(Debug)]
pub struct OperationResult {
    /// Whether it succeeded.
    pub success: bool,
    /// Its data, on success.
    pub data: Option<Json>,
    /// Its error, on failure.
    pub error: Option<String>,
    /// Measurements.
    pub metadata: OperationMetadata,
}

impl OperationResult {
    /// A success with data.
    pub fn success(data: Json, metadata: OperationMetadata) -> (r: Self)
        ensures
            r.success,
            r.data == Some(data),
            r.error is None,
            r.metadata == metadata,
    {
        OperationResult { success: true, data: Some(data), error: None, metadata }
    }

    /// A failure with an error.
    pub fn failure(error: &str, metadata: OperationMetadata) -> (r: Self)
        ensures
            !r.success,
            r.data is None,
            r.error matches Some(e) && e@ == error@,
            r.metadata == metadata,
    {
        OperationResult { success: false, data: None, error: Some(owned(error)), metadata }
    }
}

} // verus!
