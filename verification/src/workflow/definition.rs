//! Workflow definitions: a named, versioned automation made of metadata, a
//! graph of nodes and a memory configuration.

use vstd::prelude::*;
use crate::support::clock::{is_instant, now_millis};
use crate::support::text::owned;
use crate::platform_core::id::WorkflowId;
use crate::workflow::graph::WorkflowGraph;
use crate::workflow::error::GraphError;

verus! {

/// Metadata of a workflow definition.
#[derive(Debug)]
pub struct WorkflowMetadata {
    /// Human-readable name.
    pub name: String,
    /// What the workflow does.
    pub description: Option<String>,
    /// Semantic version of the definition.
    pub version: String,
    /// Whether the workflow is enabled.
    pub enabled: bool,
    /// Tags for organisation and filtering.
    pub tags: Vec<String>,
    /// When the workflow was created (milliseconds since the epoch).
    pub created_at: i64,
    /// When the workflow was last updated (milliseconds since the epoch).
    pub updated_at: i64,
}

impl WorkflowMetadata {
    /// New metadata: version `0.1.0`, enabled, no description and no tags,
    /// created and updated now.
    pub fn new(name: &str) -> (r: Self)
        ensures
            r.name@ == name@,
            r.description is None,
            r.version@ == "0.1.0"@,
            r.enabled,
            r.tags@.len() == 0,
            r.created_at == r.updated_at,
    {
        let now = now_millis();
        WorkflowMetadata {
            name: owned(name),
            description: None,
            version: owned("0.1.0"),
            enabled: true,
            tags: Vec::new(),
            created_at: now,
            updated_at: now,
        }
    }

    /// The metadata with the given description.
    pub fn with_description(self, description: &str) -> (r: Self)
        ensures
            r.description matches Some(d) && d@ == description@,
            r.name == self.name,
            r.version == self.version,
            r.enabled == self.enabled,
            r.tags == self.tags,
            r.created_at == self.created_at,
            r.updated_at == self.updated_at,
    {
        let mut m = self;
        m.description = Some(owned(description));
        m
    }

    /// The metadata with the given version.
    pub fn with_version(self, version: &str) -> (r: Self)
        ensures
            r.version@ == version@,
            r.name == self.name,
            r.description == self.description,
            r.enabled == self.enabled,
            r.tags == self.tags,
            r.created_at == self.created_at,
            r.updated_at == self.updated_at,
    {
        let mut m = self;
        m.version = owned(version);
        m
    }

    /// The metadata with one more tag, after the others.
    pub fn with_tag(self, tag: &str) -> (r: Self)
        ensures
            r.tags@.len() == self.tags@.len() + 1,
            r.tags@.drop_last() == self.tags@,
            r.tags@.last()@ == tag@,
            r.name == self.name,
            r.description == self.description,
            r.version == self.version,
            r.enabled == self.enabled,
            r.created_at == self.created_at,
            r.updated_at == self.updated_at,
    {
        let mut m = self;
        m.tags.push(owned(tag));
        proof {
            assert(m.tags@.drop_last() =~= self.tags@);
        }
        m
    }
}

/// Memory configuration of a workflow.
#[derive(Debug, Clone, Copy, PartialEq, Eq, Structural)]
pub struct WorkflowMemoryConfig {
    /// Whether the workflow uses memory.
    pub enabled: bool,
    /// Largest size of the memory in bytes.
    pub max_size_bytes: u32,
    /// Whether memory is loaded when a run starts.
    pub auto_load: bool,
}

impl Default for WorkflowMemoryConfig {
    /// Memory off, at most 64 KiB, loaded at start.
    fn default() -> (r: Self)
        ensures
            r == (WorkflowMemoryConfig { enabled: false, max_size_bytes: 65536, auto_load: true }),
    {
        WorkflowMemoryConfig { enabled: false, max_size_bytes: 65536, auto_load: true }
    }
}

/// A complete workflow definition, the source of truth of a workflow.
#[derive(Debug)]
pub struct Workflow {
    /// Identifier of the workflow.
    pub id: WorkflowId,
    /// Metadata.
    pub metadata: WorkflowMetadata,
    /// The graph of nodes and edges.
    pub graph: WorkflowGraph,
    /// Memory configuration.
    pub memory: WorkflowMemoryConfig,
}

impl Workflow {
    /// A new workflow with the given name, a fresh identifier, an empty
    /// graph and the default memory configuration.
    pub fn new(name: &str) -> (r: Self)
        ensures
            r.metadata.name@ == name@,
            r.metadata.enabled,
            r.metadata.description is None,
            r.metadata.version@ == "0.1.0"@,
            r.metadata.tags@.len() == 0,
            r.graph.node_seq().len() == 0,
            r.graph.edge_set().len() == 0,
            r.memory == (WorkflowMemoryConfig { enabled: false, max_size_bytes: 65536, auto_load: true }),
    {
        Workflow {
            id: WorkflowId::new(),
            metadata: WorkflowMetadata::new(name),
            graph: WorkflowGraph::new(),
            memory: WorkflowMemoryConfig::default(),
        }
    }

    /// A new workflow with the given identifier and name.
    pub fn with_id(id: WorkflowId, name: &str) -> (r: Self)
        ensures
            r.id == id,
            r.metadata.name@ == name@,
            r.metadata.enabled,
            r.metadata.description is None,
            r.metadata.version@ == "0.1.0"@,
            r.metadata.tags@.len() == 0,
            r.graph.node_seq().len() == 0,
            r.graph.edge_set().len() == 0,
            r.memory == (WorkflowMemoryConfig { enabled: false, max_size_bytes: 65536, auto_load: true }),
    {
        Workflow {
            id,
            metadata: WorkflowMetadata::new(name),
            graph: WorkflowGraph::new(),
            memory: WorkflowMemoryConfig::default(),
        }
    }

    /// The name of the workflow.
    pub fn name(&self) -> (r: &str)
        ensures
            r@ == self.metadata.name@,
    {
        self.metadata.name.as_str()
    }

    /// Whether the workflow is enabled.
    pub fn is_enabled(&self) -> (r: bool)
        ensures
            r == self.metadata.enabled,
    {
        self.metadata.enabled
    }

    /// Enables the workflow and marks it updated.
    pub fn enable(&mut self)
        ensures
            final(self).metadata.enabled,
            final(self).id == old(self).id,
            final(self).graph == old(self).graph,
            final(self).memory == old(self).memory,
            final(self).metadata.name == old(self).metadata.name,
            final(self).metadata.tags == old(self).metadata.tags,
            final(self).metadata.created_at == old(self).metadata.created_at,
    {
        self.metadata.enabled = true;
        self.metadata.updated_at = now_millis();
    }

    /// Disables the workflow and marks it updated.
    pub fn disable(&mut self)
        ensures
            !final(self).metadata.enabled,
            final(self).id == old(self).id,
            final(self).graph == old(self).graph,
            final(self).memory == old(self).memory,
            final(self).metadata.name == old(self).metadata.name,
            final(self).metadata.tags == old(self).metadata.tags,
            final(self).metadata.created_at == old(self).metadata.created_at,
    {
        self.metadata.enabled = false;
        self.metadata.updated_at = now_millis();
    }

    /// Validates the graph of the workflow.
    pub fn validate(&self) -> (r: Result<(), GraphError>)
        ensures
            self.graph.first_missing_from(0) matches Some(m) ==> r is Err && r->Err_0 == (GraphError::RequiredInputMissing {
                node_id: m.0,
                port_name: m.1.name,
            }),
            self.graph.first_missing_from(0) is None && crate::workflow::graph_store::flow_has_cycle(self.graph.edge_set())
                ==> r is Err && r->Err_0 == GraphError::CycleDetected,
            self.graph.first_missing_from(0) is None && !crate::workflow::graph_store::flow_has_cycle(
                self.graph.edge_set(),
            ) ==> r is Ok,
    {
        self.graph.validate()
    }

    /// Marks the workflow updated now: the update time becomes a reading of
    /// the clock, and nothing else changes.
    pub fn touch(&mut self)
        ensures
            is_instant(final(self).metadata.updated_at),
            *final(self) == (Workflow {
                metadata: WorkflowMetadata { updated_at: final(self).metadata.updated_at, ..old(self).metadata },
                ..*old(self)
            }),
    {
        self.metadata.updated_at = now_millis();
    }
}

/// Summary of a workflow, for listings.
#[derive(Debug)]
pub struct WorkflowSummary {
    /// Identifier of the workflow.
    pub id: WorkflowId,
    /// Name.
    pub name: String,
    /// Description, if any.
    pub description: Option<String>,
    /// Whether enabled.
    pub enabled: bool,
    /// Tags.
    pub tags: Vec<String>,
    /// Number of nodes in the graph.
    pub node_count: usize,
    /// When the workflow was last updated.
    pub updated_at: i64,
}

/// A copy of a list of strings.
fn copy_strings(v: &Vec<String>) -> (r: Vec<String>)
    ensures
        r@.len() == v@.len(),
        forall|k: int| 0 <= k < v@.len() ==> #[trigger] r@[k]@ == v@[k]@,
{
    let mut out: Vec<String> = Vec::new();
    let mut k: usize = 0;
    while k < v.len()
        invariant
            k <= v.len(),
            out@.len() == k,
            forall|j: int| 0 <= j < k ==> #[trigger] out@[j]@ == v@[j]@,
        decreases v.len() - k,
    {
        out.push(owned(v[k].as_str()));
        k = k + 1;
    }
    out
}

impl WorkflowSummary {
    /// The summary of a workflow.
    pub fn from_workflow(workflow: &Workflow) -> (r: Self)
        ensures
            r.id == workflow.id,
            r.name@ == workflow.metadata.name@,
            r.description is Some <==> workflow.metadata.description is Some,
            r.description matches Some(d) ==> d@ == workflow.metadata.description->Some_0@,
            r.enabled == workflow.metadata.enabled,
            r.tags@.len() == workflow.metadata.tags@.len(),
            forall|k: int| 0 <= k < r.tags@.len() ==> #[trigger] r.tags@[k]@ == workflow.metadata.tags@[k]@,
            r.node_count == workflow.graph.node_seq().len(),
            r.updated_at == workflow.metadata.updated_at,
    {
        WorkflowSummary {
            id: workflow.id,
            name: owned(workflow.metadata.name.as_str()),
            description: match &workflow.metadata.description {
                Some(d) => Some(owned(d.as_str())),
                None => None,
            },
            enabled: workflow.metadata.enabled,
            tags: copy_strings(&workflow.metadata.tags),
            node_count: workflow.graph.node_count(),
            updated_at: workflow.metadata.updated_at,
        }
    }
}

} // verus!
