//! Workflow nodes: identity, category, type-specific configuration and the
//! input and output ports that each kind of node starts with.

use vstd::prelude::*;
use vstd::string::*;
use crate::support::json::{Json, JsonView, empty_object, type_schema, lemma_object_view, object_members};
use crate::support::ulid_text::fresh_ulid;
use crate::platform_core::id::{format_id, id_text};
use crate::workflow::port::{InputPort, InputPortView, OutputPort, OutputPortView, PortSchema, model_reference_schema};

verus! {

/// A unique identifier for a node within a workflow (text prefix `node`).
#[derive(Debug, Clone, Copy, PartialEq, Eq, Hash, Structural)]
pub struct NodeId(pub u128);

impl NodeId {
    /// A new random node identifier.
    pub fn new() -> Self {
        NodeId(fresh_ulid())
    }

    /// The node identifier with the given ULID value.
    pub fn from_ulid(ulid: u128) -> (r: Self)
        ensures
            r.0 == ulid,
    {
        NodeId(ulid)
    }

    /// The text form `node_ULID`.
    pub fn to_string(&self) -> (s: String)
        ensures
            s@ == id_text("node"@, self.0),
    {
        format_id("node", self.0)
    }
}

/// The category of a workflow node.
#[derive(Debug, Clone, Copy, PartialEq, Eq, Structural)]
pub enum NodeCategory {
    /// Entry points that start a workflow run.
    Trigger,
    /// AI-powered operations.
    AiLayer,
    /// Protocol-specific actions (email, calendar, ...).
    Integration,
    /// Expression-based data manipulation.
    Transform,
    /// Graph structure control (branch, fan-out, join, ...).
    ControlFlow,
    /// Cross-run state.
    Memory,
    /// Terminal actions (notify, log, HTTP response).
    Output,
}

/// Configuration of trigger nodes.
#[derive(Debug)]
pub enum TriggerNodeConfig {
    /// Cron-style schedule.
    Schedule { cron: String, timezone: Option<String> },
    /// HTTP webhook.
    Webhook { path: String },
    /// Event of an integration account.
    IntegrationEvent { integration_id: String, event_type: String },
    /// Started by a user.
    Manual,
}

/// Constraint level of an AI primitive's output.
#[derive(Debug, Clone, Copy, PartialEq, Eq, Structural)]
pub enum ConstraintLevel {
    /// Pick exactly one of the given options.
    Constrained,
    /// Pick an option or suggest a new one.
    SemiConstrained,
    /// Decide the output freely.
    Unconstrained,
}

impl ConstraintLevel {
    /// The default level: `Constrained`.
    pub fn default_level() -> (r: Self)
        ensures
            r == ConstraintLevel::Constrained,
    {
        ConstraintLevel::Constrained
    }
}

/// Configuration of AI layer nodes.
///
/// Scores are real numbers; they are held here as the bit patterns of
/// 64-bit floating-point values.
#[derive(Debug)]
pub enum AiLayerNodeConfig {
    /// Single-shot LLM inference.
    LlmCall { prompt: String, output_schema: Option<PortSchema>, constraint_level: ConstraintLevel },
    /// LLM-driven execution loop.
    Coordinate { goal: String, max_iterations: u32, available_tools: Vec<String> },
    /// Classify content into categories.
    Classify { categories: Vec<String>, constraint_level: ConstraintLevel },
    /// Extract structured data from content.
    Extract { output_schema: PortSchema },
    /// Generate text from context.
    Generate { instructions: String },
    /// Summarize content.
    Summarize { max_length: Option<u32> },
    /// Score content against criteria.
    Score { criteria: String, min_score_bits: u64, max_score_bits: u64 },
    /// Check whether an item duplicates recent items.
    Deduplicate { comparison_method: String },
    /// Decide between options.
    Decide { options: Vec<String>, criteria: String },
}

/// Configuration of integration nodes.
#[derive(Debug)]
pub struct IntegrationNodeConfig {
    /// The integration type (e.g. "email").
    pub integration_type: String,
    /// The operation to perform (e.g. "fetch").
    pub operation: String,
    /// Operation-specific parameters.
    pub parameters: Json,
}

/// Configuration of transform nodes.
#[derive(Debug)]
pub struct TransformNodeConfig {
    /// The transformation expression.
    pub expression: String,
}

/// A condition of a branch: the output port taken when it holds.
#[derive(Debug)]
pub struct BranchCondition {
    /// The output port of this branch.
    pub port: String,
    /// The condition expression.
    pub condition: String,
}

/// Configuration of control flow nodes.
#[derive(Debug)]
pub enum ControlFlowNodeConfig {
    /// Conditional branching, one output port per condition.
    Branch { conditions: Vec<BranchCondition> },
    /// Explode an array into items.
    FanOut,
    /// Collect items back into an array.
    FanIn { fan_out_node: NodeId },
    /// Parallel execution marker.
    Parallel,
    /// Join parallel branches.
    Join,
}

/// Configuration of memory nodes.
#[derive(Debug)]
pub enum MemoryNodeConfig {
    /// Load workflow memory.
    LoadMemory,
    /// Record workflow memory.
    RecordMemory { update_instructions: String },
}

/// Log level of log nodes.
#[derive(Debug, Clone, Copy, PartialEq, Eq, Structural)]
pub enum LogLevel {
    Debug,
    Info,
    Warn,
    Error,
}

/// Configuration of output nodes.
#[derive(Debug)]
pub enum OutputNodeConfig {
    /// Send a notification.
    Notify { channel: String, template: String },
    /// Log to the execution history.
    Log { level: LogLevel },
    /// HTTP response of a webhook-triggered run.
    HttpResponse { status_code: u16 },
}

/// Configuration of a node, by category.
#[derive(Debug)]
pub enum NodeConfig {
    Trigger(TriggerNodeConfig),
    AiLayer(AiLayerNodeConfig),
    Integration(IntegrationNodeConfig),
    Transform(TransformNodeConfig),
    ControlFlow(ControlFlowNodeConfig),
    Memory(MemoryNodeConfig),
    Output(OutputNodeConfig),
}

/// The category of a configuration.
pub open spec fn config_category(c: NodeConfig) -> NodeCategory {
    match c {
        NodeConfig::Trigger(_) => NodeCategory::Trigger,
        NodeConfig::AiLayer(_) => NodeCategory::AiLayer,
        NodeConfig::Integration(_) => NodeCategory::Integration,
        NodeConfig::Transform(_) => NodeCategory::Transform,
        NodeConfig::ControlFlow(_) => NodeCategory::ControlFlow,
        NodeConfig::Memory(_) => NodeCategory::Memory,
        NodeConfig::Output(_) => NodeCategory::Output,
    }
}

impl NodeConfig {
    /// The category of this configuration.
    pub fn category(&self) -> (r: NodeCategory)
        ensures
            r == config_category(*self),
    {
        match self {
            NodeConfig::Trigger(_) => NodeCategory::Trigger,
            NodeConfig::AiLayer(_) => NodeCategory::AiLayer,
            NodeConfig::Integration(_) => NodeCategory::Integration,
            NodeConfig::Transform(_) => NodeCategory::Transform,
            NodeConfig::ControlFlow(_) => NodeCategory::ControlFlow,
            NodeConfig::Memory(_) => NodeCategory::Memory,
            NodeConfig::Output(_) => NodeCategory::Output,
        }
    }
}

/// The schema of a classification result: a category and a confidence.
pub open spec fn classification_schema() -> JsonView {
    JsonView::Object(
        seq![
            (
                "properties"@,
                JsonView::Object(
                    seq![
                        ("category"@, type_schema("string"@)),
                        ("confidence"@, type_schema("number"@)),
                    ],
                ),
            ),
            ("type"@, JsonView::Str("object"@)),
        ],
    )
}

/// A required input port view.
pub open spec fn req_in(name: Seq<char>, schema: JsonView) -> InputPortView {
    InputPortView { name, schema, required: true }
}

/// An output port view.
pub open spec fn out(name: Seq<char>, schema: JsonView) -> OutputPortView {
    OutputPortView { name, schema }
}

/// The ports that a node with configuration `c` starts with.
pub open spec fn default_ports_spec(c: NodeConfig) -> (Seq<InputPortView>, Seq<OutputPortView>) {
    match c {
        NodeConfig::Trigger(_) => (seq![], seq![out("output"@, empty_object())]),
        NodeConfig::AiLayer(ai) => match ai {
            AiLayerNodeConfig::LlmCall { output_schema, .. } => (
                seq![req_in("input"@, empty_object())],
                seq![
                    out(
                        "output"@,
                        match output_schema {
                            Some(s) => s.schema@,
                            None => empty_object(),
                        },
                    ),
                ],
            ),
            AiLayerNodeConfig::Coordinate { .. } => (
                seq![req_in("context"@, empty_object())],
                seq![out("result"@, empty_object())],
            ),
            AiLayerNodeConfig::Classify { .. } => (
                seq![req_in("content"@, empty_object())],
                seq![out("classification"@, classification_schema())],
            ),
            AiLayerNodeConfig::Extract { output_schema } => (
                seq![req_in("content"@, empty_object())],
                seq![out("extracted"@, output_schema.schema@)],
            ),
            AiLayerNodeConfig::Generate { .. } => (
                seq![req_in("context"@, empty_object())],
                seq![out("generated"@, type_schema("string"@))],
            ),
            AiLayerNodeConfig::Summarize { .. } => (
                seq![req_in("content"@, empty_object())],
                seq![out("summary"@, type_schema("string"@))],
            ),
            AiLayerNodeConfig::Score { .. } => (
                seq![req_in("content"@, empty_object())],
                seq![out("score"@, type_schema("number"@))],
            ),
            AiLayerNodeConfig::Deduplicate { .. } => (
                seq![req_in("item"@, empty_object()), req_in("recent_items"@, type_schema("array"@))],
                seq![out("is_duplicate"@, type_schema("boolean"@))],
            ),
            AiLayerNodeConfig::Decide { .. } => (
                seq![req_in("context"@, empty_object())],
                seq![out("decision"@, type_schema("string"@))],
            ),
        },
        NodeConfig::Integration(_) => (
            seq![InputPortView { name: "input"@, schema: empty_object(), required: false }],
            seq![out("output"@, empty_object())],
        ),
        NodeConfig::Transform(_) => (
            seq![req_in("input"@, empty_object())],
            seq![out("output"@, empty_object())],
        ),
        NodeConfig::ControlFlow(cf) => match cf {
            ControlFlowNodeConfig::Branch { conditions } => (
                seq![req_in("input"@, empty_object())],
                Seq::new(conditions@.len(), |i: int| out(conditions@[i].port@, empty_object())),
            ),
            ControlFlowNodeConfig::FanOut => (
                seq![req_in("items"@, type_schema("array"@))],
                seq![out("item"@, empty_object())],
            ),
            ControlFlowNodeConfig::FanIn { .. } => (
                seq![req_in("item"@, empty_object())],
                seq![out("items"@, type_schema("array"@))],
            ),
            ControlFlowNodeConfig::Parallel => (
                seq![req_in("input"@, empty_object())],
                seq![out("output"@, empty_object())],
            ),
            ControlFlowNodeConfig::Join => (
                seq![req_in("input"@, empty_object())],
                seq![out("output"@, empty_object())],
            ),
        },
        NodeConfig::Memory(m) => match m {
            MemoryNodeConfig::LoadMemory => (seq![], seq![out("memory"@, empty_object())]),
            MemoryNodeConfig::RecordMemory { .. } => (
                seq![req_in("workflow_output"@, empty_object())],
                seq![out("memory"@, empty_object())],
            ),
        },
        NodeConfig::Output(_) => (seq![req_in("input"@, empty_object())], seq![]),
    }
}

/// The views of a sequence of input ports.
pub open spec fn inputs_view(v: Seq<InputPort>) -> Seq<InputPortView> {
    v.map_values(|p: InputPort| p@)
}

/// The views of a sequence of output ports.
pub open spec fn outputs_view(v: Seq<OutputPort>) -> Seq<OutputPortView> {
    v.map_values(|p: OutputPort| p@)
}

/// The first input port with the given name.
pub open spec fn find_input(v: Seq<InputPort>, name: Seq<char>) -> Option<InputPort>
    decreases v.len(),
{
    if v.len() == 0 {
        None
    } else if v[0].name@ == name {
        Some(v[0])
    } else {
        find_input(v.drop_first(), name)
    }
}

/// The first output port with the given name.
pub open spec fn find_output(v: Seq<OutputPort>, name: Seq<char>) -> Option<OutputPort>
    decreases v.len(),
{
    if v.len() == 0 {
        None
    } else if v[0].name@ == name {
        Some(v[0])
    } else {
        find_output(v.drop_first(), name)
    }
}

/// A workflow node.
#[derive(Debug)]
pub struct Node {
    /// Identifier of this node within the workflow.
    pub id: NodeId,
    /// Human-readable name.
    pub name: String,
    /// Configuration (determines the node's type and behaviour).
    pub config: NodeConfig,
    /// Input ports.
    pub inputs: Vec<InputPort>,
    /// Output ports.
    pub outputs: Vec<OutputPort>,
}

fn one_input(p: InputPort) -> (r: Vec<InputPort>)
    ensures
        inputs_view(r@) == seq![p@],
{
    let r = vec![p];
    assert(inputs_view(r@) =~= seq![p@]);
    r
}

fn one_output(p: OutputPort) -> (r: Vec<OutputPort>)
    ensures
        outputs_view(r@) == seq![p@],
{
    let r = vec![p];
    assert(outputs_view(r@) =~= seq![p@]);
    r
}

fn no_inputs() -> (r: Vec<InputPort>)
    ensures
        inputs_view(r@) == Seq::<InputPortView>::empty(),
{
    let r: Vec<InputPort> = Vec::new();
    assert(inputs_view(r@) =~= Seq::<InputPortView>::empty());
    r
}

fn no_outputs() -> (r: Vec<OutputPort>)
    ensures
        outputs_view(r@) == Seq::<OutputPortView>::empty(),
{
    let r: Vec<OutputPort> = Vec::new();
    assert(outputs_view(r@) =~= Seq::<OutputPortView>::empty());
    r
}

/// The schema of a classification result.
pub fn classification_port_schema() -> (r: PortSchema)
    ensures
        r.schema@ == classification_schema(),
{
    let mut props: Vec<(String, Json)> = Vec::new();
    props.push((String::from_str("category"), Json::type_schema("string")));
    props.push((String::from_str("confidence"), Json::type_schema("number")));
    let props = Json::Object(props);
    let mut top: Vec<(String, Json)> = Vec::new();
    top.push((String::from_str("properties"), props));
    top.push((String::from_str("type"), Json::string("object")));
    let schema = Json::Object(top);
    proof {
        lemma_object_view(props);
        assert(object_members(props@) =~= seq![
            ("category"@, type_schema("string"@)),
            ("confidence"@, type_schema("number"@)),
        ]);
        lemma_object_view(schema);
        assert(object_members(schema@) =~= object_members(classification_schema()));
    }
    PortSchema::from_json(schema)
}

impl Node {
    /// A new node with a fresh identifier and the default ports of its configuration.
    pub fn new(name: &str, config: NodeConfig) -> (r: Self)
        ensures
            r.name@ == name@,
            r.config == config,
            (inputs_view(r.inputs@), outputs_view(r.outputs@)) == default_ports_spec(config),
    {
        let (inputs, outputs) = Node::default_ports(&config);
        Node { id: NodeId::new(), name: String::from_str(name), config, inputs, outputs }
    }

    /// A new node with the given identifier and the default ports of its configuration.
    pub fn with_id(id: NodeId, name: &str, config: NodeConfig) -> (r: Self)
        ensures
            r.id == id,
            r.name@ == name@,
            r.config == config,
            (inputs_view(r.inputs@), outputs_view(r.outputs@)) == default_ports_spec(config),
    {
        let (inputs, outputs) = Node::default_ports(&config);
        Node { id, name: String::from_str(name), config, inputs, outputs }
    }

    /// The category of this node.
    pub fn category(&self) -> (r: NodeCategory)
        ensures
            r == config_category(self.config),
    {
        self.config.category()
    }

    /// The first input port with the given name.
    pub fn input_port(&self, name: &str) -> (r: Option<&InputPort>)
        ensures
            r is Some <==> find_input(self.inputs@, name@) is Some,
            r matches Some(p) ==> find_input(self.inputs@, name@) == Some(*p),
    {
        let ghost v = self.inputs@;
        assert(v.skip(0) =~= v);
        let mut i: usize = 0;
        while i < self.inputs.len()
            invariant
                i <= self.inputs.len(),
                v == self.inputs@,
                find_input(v, name@) == find_input(v.skip(i as int), name@),
            decreases self.inputs.len() - i,
        {
            let ghost rest = v.skip(i as int);
            assert(rest[0] == v[i as int]);
            if crate::support::text::str_eq(self.inputs[i].name.as_str(), name) {
                return Some(&self.inputs[i]);
            }
            assert(rest.drop_first() =~= v.skip(i + 1));
            i = i + 1;
        }
        None
    }

    /// The first output port with the given name.
    pub fn output_port(&self, name: &str) -> (r: Option<&OutputPort>)
        ensures
            r is Some <==> find_output(self.outputs@, name@) is Some,
            r matches Some(p) ==> find_output(self.outputs@, name@) == Some(*p),
    {
        let ghost v = self.outputs@;
        assert(v.skip(0) =~= v);
        let mut i: usize = 0;
        while i < self.outputs.len()
            invariant
                i <= self.outputs.len(),
                v == self.outputs@,
                find_output(v, name@) == find_output(v.skip(i as int), name@),
            decreases self.outputs.len() - i,
        {
            let ghost rest = v.skip(i as int);
            assert(rest[0] == v[i as int]);
            if crate::support::text::str_eq(self.outputs[i].name.as_str(), name) {
                return Some(&self.outputs[i]);
            }
            assert(rest.drop_first() =~= v.skip(i + 1));
            i = i + 1;
        }
        None
    }

    /// The ports that a node with this configuration starts with.
    pub fn default_ports(config: &NodeConfig) -> (r: (Vec<InputPort>, Vec<OutputPort>))
        ensures
            (inputs_view(r.0@), outputs_view(r.1@)) == default_ports_spec(*config),
    {
        match config {
            NodeConfig::Trigger(_) => (no_inputs(), one_output(OutputPort::new("output", PortSchema::any()))),
            NodeConfig::AiLayer(ai) => match ai {
                AiLayerNodeConfig::LlmCall { output_schema, .. } => {
                    let schema = match output_schema {
                        Some(s) => s.duplicate(),
                        None => PortSchema::any(),
                    };
                    (
                        one_input(InputPort::required("input", PortSchema::any())),
                        one_output(OutputPort::new("output", schema)),
                    )
                },
                AiLayerNodeConfig::Coordinate { .. } => (
                    one_input(InputPort::required("context", PortSchema::any())),
                    one_output(OutputPort::new("result", PortSchema::any())),
                ),
                AiLayerNodeConfig::Classify { .. } => (
                    one_input(InputPort::required("content", PortSchema::any())),
                    one_output(OutputPort::new("classification", classification_port_schema())),
                ),
                AiLayerNodeConfig::Extract { output_schema } => (
                    one_input(InputPort::required("content", PortSchema::any())),
                    one_output(OutputPort::new("extracted", output_schema.duplicate())),
                ),
                AiLayerNodeConfig::Generate { .. } => (
                    one_input(InputPort::required("context", PortSchema::any())),
                    one_output(OutputPort::new("generated", PortSchema::string())),
                ),
                AiLayerNodeConfig::Summarize { .. } => (
                    one_input(InputPort::required("content", PortSchema::any())),
                    one_output(OutputPort::new("summary", PortSchema::string())),
                ),
                AiLayerNodeConfig::Score { .. } => (
                    one_input(InputPort::required("content", PortSchema::any())),
                    one_output(OutputPort::new("score", PortSchema::number())),
                ),
                AiLayerNodeConfig::Deduplicate { .. } => {
                    let a = InputPort::required("item", PortSchema::any());
                    let b = InputPort::required("recent_items", PortSchema::array());
                    let ghost av = a@;
                    let ghost bv = b@;
                    let ins = vec![a, b];
                    assert(inputs_view(ins@) =~= seq![av, bv]);
                    (ins, one_output(OutputPort::new("is_duplicate", PortSchema::boolean())))
                },
                AiLayerNodeConfig::Decide { .. } => (
                    one_input(InputPort::required("context", PortSchema::any())),
                    one_output(OutputPort::new("decision", PortSchema::string())),
                ),
            },
            NodeConfig::Integration(_) => (
                one_input(InputPort::optional("input", PortSchema::any())),
                one_output(OutputPort::new("output", PortSchema::any())),
            ),
            NodeConfig::Transform(_) => (
                one_input(InputPort::required("input", PortSchema::any())),
                one_output(OutputPort::new("output", PortSchema::any())),
            ),
            NodeConfig::ControlFlow(cf) => match cf {
                ControlFlowNodeConfig::Branch { conditions } => {
                    let mut outs: Vec<OutputPort> = Vec::new();
                    let mut i: usize = 0;
                    while i < conditions.len()
                        invariant
                            i <= conditions.len(),
                            outs@.len() == i,
                            forall|k: int| 0 <= k < i ==> (#[trigger] outs@[k])@ == out(conditions@[k].port@, empty_object()),
                        decreases conditions.len() - i,
                    {
                        outs.push(OutputPort::new(conditions[i].port.as_str(), PortSchema::any()));
                        i = i + 1;
                    }
                    assert(outputs_view(outs@) =~= Seq::new(conditions@.len(), |k: int| out(conditions@[k].port@, empty_object())));
                    (one_input(InputPort::required("input", PortSchema::any())), outs)
                },
                ControlFlowNodeConfig::FanOut => (
                    one_input(InputPort::required("items", PortSchema::array())),
                    one_output(OutputPort::new("item", PortSchema::any())),
                ),
                ControlFlowNodeConfig::FanIn { .. } => (
                    one_input(InputPort::required("item", PortSchema::any())),
                    one_output(OutputPort::new("items", PortSchema::array())),
                ),
                ControlFlowNodeConfig::Parallel => (
                    one_input(InputPort::required("input", PortSchema::any())),
                    one_output(OutputPort::new("output", PortSchema::any())),
                ),
                ControlFlowNodeConfig::Join => (
                    one_input(InputPort::required("input", PortSchema::any())),
                    one_output(OutputPort::new("output", PortSchema::any())),
                ),
            },
            NodeConfig::Memory(m) => match m {
                MemoryNodeConfig::LoadMemory => (no_inputs(), one_output(OutputPort::new("memory", PortSchema::any()))),
                MemoryNodeConfig::RecordMemory { .. } => (
                    one_input(InputPort::required("workflow_output", PortSchema::any())),
                    one_output(OutputPort::new("memory", PortSchema::any())),
                ),
            },
            NodeConfig::Output(_) => (one_input(InputPort::required("input", PortSchema::any())), no_outputs()),
        }
    }
}

} // verus!
