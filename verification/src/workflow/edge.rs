//! Edges connect an output port of one node to an input port of another.

use vstd::prelude::*;
use vstd::string::*;
use crate::workflow::node::NodeId;

verus! {

/// An edge between ports: data flows from the source node's output port
/// to the target node's input port.
#[derive(Debug)]
pub struct Edge {
    /// The output port on the source node.
    pub source_port: String,
    /// The input port on the target node.
    pub target_port: String,
}

impl Edge {
    /// An edge between the named ports.
    pub fn new(source_port: &str, target_port: &str) -> (r: Self)
        ensures
            r.source_port@ == source_port@,
            r.target_port@ == target_port@,
    {
        Edge { source_port: String::from_str(source_port), target_port: String::from_str(target_port) }
    }

    /// An edge between the default ports, `output` to `input`.
    pub fn default_ports() -> (r: Self)
        ensures
            r.source_port@ == "output"@,
            r.target_port@ == "input"@,
    {
        Edge::new("output", "input")
    }

    /// A copy of this edge.
    pub fn duplicate(&self) -> (r: Self)
        ensures
            r == *self,
    {
        Edge { source_port: self.source_port.clone(), target_port: self.target_port.clone() }
    }
}

impl Clone for Edge {
    fn clone(&self) -> (r: Self)
        ensures
            r == *self,
    {
        self.duplicate()
    }
}

impl PartialEq for Edge {
    fn eq(&self, other: &Self) -> (r: bool) {
        crate::support::text::str_eq(self.source_port.as_str(), other.source_port.as_str())
            && crate::support::text::str_eq(self.target_port.as_str(), other.target_port.as_str())
    }
}

impl vstd::std_specs::cmp::PartialEqSpecImpl for Edge {
    open spec fn obeys_eq_spec() -> bool {
        true
    }

    open spec fn eq_spec(&self, other: &Self) -> bool {
        self.source_port@ == other.source_port@ && self.target_port@ == other.target_port@
    }
}

/// A complete edge reference: both nodes and both ports.
#[derive(Debug)]
pub struct EdgeRef {
    /// The source node.
    pub source_node: NodeId,
    /// The source port.
    pub source_port: String,
    /// The target node.
    pub target_node: NodeId,
    /// The target port.
    pub target_port: String,
}

impl EdgeRef {
    /// An edge reference between the named ports of two nodes.
    pub fn new(source_node: NodeId, source_port: &str, target_node: NodeId, target_port: &str) -> (r: Self)
        ensures
            r.source_node == source_node,
            r.source_port@ == source_port@,
            r.target_node == target_node,
            r.target_port@ == target_port@,
    {
        EdgeRef {
            source_node,
            source_port: String::from_str(source_port),
            target_node,
            target_port: String::from_str(target_port),
        }
    }

    /// An edge reference between the default ports, `output` to `input`.
    pub fn with_default_ports(source_node: NodeId, target_node: NodeId) -> (r: Self)
        ensures
            r.source_node == source_node,
            r.source_port@ == "output"@,
            r.target_node == target_node,
            r.target_port@ == "input"@,
    {
        EdgeRef::new(source_node, "output", target_node, "input")
    }
}

/// The default edge joins the default ports, `output` to `input`.
impl Default for Edge {
    fn default() -> (r: Self)
        ensures
            r.source_port@ == "output"@,
            r.target_port@ == "input"@,
    {
        Edge::default_ports()
    }
}

} // verus!
