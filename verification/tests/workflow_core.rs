use silver_telegram::platform_core::id::{WorkflowId, WorkflowRunId};
use silver_telegram::support::json::Json;
use silver_telegram::workflow::edge::{Edge, EdgeRef};
use silver_telegram::workflow::error::GraphError;
use silver_telegram::workflow::execution::{ExecutionEvent, ExecutionState, NodeExecution, NodeExecutionState, WorkflowRun};
use silver_telegram::workflow::graph::WorkflowGraph;
use silver_telegram::workflow::nats::{
    generate_key, run_subject, NatsConfig, EVENTS_STREAM_NAME, OUTPUTS_BUCKET_NAME, WORK_STREAM_NAME,
};
use silver_telegram::workflow::node::{
    AiLayerNodeConfig, BranchCondition, ConstraintLevel, ControlFlowNodeConfig, Node, NodeConfig, NodeId,
    TriggerNodeConfig,
};
use silver_telegram::workflow::remaining_work::RemainingWorkGraph;
use silver_telegram::workflow::run_state::{RunStateBuilder, RunStateError};

fn create_trigger_node(name: &str) -> Node {
    Node::new(
        name,
        NodeConfig::Trigger(TriggerNodeConfig::Schedule { cron: "0 7 * * *".to_string(), timezone: None }),
    )
}

fn create_ai_node(name: &str) -> Node {
    Node::new(name, NodeConfig::AiLayer(AiLayerNodeConfig::Generate { instructions: "Test".to_string() }))
}

fn create_classify_node(name: &str) -> Node {
    Node::new(
        name,
        NodeConfig::AiLayer(AiLayerNodeConfig::Classify {
            categories: vec!["a".to_string(), "b".to_string()],
            constraint_level: ConstraintLevel::Constrained,
        }),
    )
}

fn obj(key: &str, value: &str) -> Json {
    Json::Object(vec![(key.to_string(), Json::Str(value.to_string()))])
}

#[test]
fn edge_default_ports() {
    let edge = Edge::default_ports();
    assert_eq!(edge.source_port, "output");
    assert_eq!(edge.target_port, "input");
}

#[test]
fn edge_custom_ports() {
    let edge = Edge::new("classification", "content");
    assert_eq!(edge.source_port, "classification");
    assert_eq!(edge.target_port, "content");
}

#[test]
fn edge_ref_creation() {
    let source = NodeId::new();
    let target = NodeId::new();
    let edge_ref = EdgeRef::new(source, "out", target, "in");
    assert_eq!(edge_ref.source_node, source);
    assert_eq!(edge_ref.source_port, "out");
    assert_eq!(edge_ref.target_node, target);
    assert_eq!(edge_ref.target_port, "in");
}

#[test]
fn execution_state_terminal() {
    assert!(!ExecutionState::Queued.is_terminal());
    assert!(!ExecutionState::Running.is_terminal());
    assert!(ExecutionState::Completed.is_terminal());
    assert!(ExecutionState::Failed.is_terminal());
    assert!(ExecutionState::Cancelled.is_terminal());
}

#[test]
fn node_state_blocks_downstream() {
    assert!(!NodeExecutionState::Completed.blocks_downstream());
    assert!(NodeExecutionState::Failed.blocks_downstream());
    assert!(!NodeExecutionState::Skipped.blocks_downstream());
}

#[test]
fn workflow_run_lifecycle() {
    let workflow_id = WorkflowId::new();
    let mut run = WorkflowRun::new(workflow_id, None, None);
    assert_eq!(run.state, ExecutionState::Queued);
    assert!(run.started_at.is_none());
    run.start();
    assert_eq!(run.state, ExecutionState::Running);
    assert!(run.started_at.is_some());
    run.complete(Some(obj("result", "ok")));
    assert_eq!(run.state, ExecutionState::Completed);
    assert!(run.finished_at.is_some());
    assert!(run.output.is_some());
}

#[test]
fn node_execution_lifecycle() {
    let run_id = WorkflowRunId::new();
    let node_id = NodeId::new();
    let mut exec = NodeExecution::new(run_id, node_id);
    assert_eq!(exec.state, NodeExecutionState::Pending);
    exec.mark_ready();
    assert_eq!(exec.state, NodeExecutionState::Ready);
    exec.start(Some(obj("input", "data")));
    assert_eq!(exec.state, NodeExecutionState::Running);
    exec.complete("output_123".to_string());
    assert_eq!(exec.state, NodeExecutionState::Completed);
    assert_eq!(exec.output_key, Some("output_123".to_string()));
}

#[test]
fn nats_config_defaults() {
    let config = NatsConfig::new("nats://localhost:4222");
    assert_eq!(config.events_stream(), EVENTS_STREAM_NAME);
    assert_eq!(config.work_stream(), WORK_STREAM_NAME);
    assert_eq!(config.outputs_bucket(), OUTPUTS_BUCKET_NAME);
}

#[test]
fn nats_config_custom() {
    let config = NatsConfig {
        url: "nats://localhost:4222".to_string(),
        events_stream_name: Some("CUSTOM_EVENTS".to_string()),
        work_stream_name: Some("CUSTOM_WORK".to_string()),
        outputs_bucket_name: Some("custom-outputs".to_string()),
    };
    assert_eq!(config.events_stream(), "CUSTOM_EVENTS");
    assert_eq!(config.work_stream(), "CUSTOM_WORK");
    assert_eq!(config.outputs_bucket(), "custom-outputs");
}

#[test]
fn run_subject_format() {
    let run_id = WorkflowRunId::new();
    let subject = run_subject(run_id);
    assert!(subject.starts_with("workflow.run."));
    assert_eq!(subject, format!("workflow.run.{}", run_id.to_string()));
}

#[test]
fn key_generation() {
    let key1 = generate_key();
    let key2 = generate_key();
    assert!(key1.starts_with("output_"));
    assert!(key2.starts_with("output_"));
    assert_ne!(key1, key2);
}

#[test]
fn node_id_display() {
    let id = NodeId::new();
    assert!(id.to_string().starts_with("node_"));
}

#[test]
fn trigger_node_has_no_inputs() {
    let node = create_trigger_node("Daily Schedule");
    assert!(node.inputs.is_empty());
    assert_eq!(node.outputs.len(), 1);
    assert_eq!(node.outputs[0].name, "output");
}

#[test]
fn classify_node_has_classification_output() {
    let node = create_classify_node("Email Classifier");
    assert_eq!(node.inputs.len(), 1);
    assert_eq!(node.outputs.len(), 1);
    assert_eq!(node.outputs[0].name, "classification");
}

#[test]
fn branch_node_has_multiple_outputs() {
    let node = Node::new(
        "Router",
        NodeConfig::ControlFlow(ControlFlowNodeConfig::Branch {
            conditions: vec![
                BranchCondition { port: "high".to_string(), condition: "confidence > 0.8".to_string() },
                BranchCondition { port: "low".to_string(), condition: "confidence <= 0.8".to_string() },
            ],
        }),
    );
    assert_eq!(node.inputs.len(), 1);
    assert_eq!(node.outputs.len(), 2);
    assert_eq!(node.outputs[0].name, "high");
    assert_eq!(node.outputs[1].name, "low");
}

#[test]
fn add_and_get_node() {
    let mut graph = WorkflowGraph::new();
    let node = create_trigger_node("Test Trigger");
    let node_id = node.id;
    graph.add_node(node);
    let retrieved = graph.get_node(node_id);
    assert!(retrieved.is_some());
    assert_eq!(retrieved.unwrap().name, "Test Trigger");
}

#[test]
fn add_edge_validates_ports() {
    let mut graph = WorkflowGraph::new();
    let trigger = create_trigger_node("Trigger");
    let classify = create_classify_node("Classifier");
    let trigger_id = trigger.id;
    let classify_id = classify.id;
    graph.add_node(trigger);
    graph.add_node(classify);
    let result = graph.add_edge(trigger_id, classify_id, Edge::new("output", "content"));
    assert!(result.is_ok());
}

#[test]
fn add_edge_rejects_missing_port() {
    let mut graph = WorkflowGraph::new();
    let trigger = create_trigger_node("Trigger");
    let classify = create_classify_node("Classifier");
    let trigger_id = trigger.id;
    let classify_id = classify.id;
    graph.add_node(trigger);
    graph.add_node(classify);
    let result = graph.add_edge(trigger_id, classify_id, Edge::new("nonexistent", "content"));
    assert!(result.is_err());
}

#[test]
fn entry_nodes_returns_nodes_without_incoming() {
    let mut graph = WorkflowGraph::new();
    let trigger = create_trigger_node("Trigger");
    let classify = create_classify_node("Classifier");
    let trigger_id = trigger.id;
    let classify_id = classify.id;
    graph.add_node(trigger);
    graph.add_node(classify);
    graph.add_edge(trigger_id, classify_id, Edge::new("output", "content")).unwrap();
    let entries = graph.entry_nodes();
    assert_eq!(entries.len(), 1);
    assert_eq!(entries[0].name, "Trigger");
}

#[test]
fn validate_names_first_unconnected_required_input() {
    let mut graph = WorkflowGraph::new();
    let classify = create_classify_node("Classifier");
    let classify_id = classify.id;
    graph.add_node(classify);
    match graph.validate() {
        Err(GraphError::RequiredInputMissing { node_id, port_name }) => {
            assert_eq!(node_id, classify_id);
            assert_eq!(port_name, "content");
        }
        other => panic!("unexpected {other:?}"),
    }
}

#[test]
fn graph_from_parts_keeps_edges_between_known_nodes() {
    let trigger = create_trigger_node("Trigger");
    let classify = create_classify_node("Classifier");
    let trigger_id = trigger.id;
    let classify_id = classify.id;
    let edges = vec![
        (Some(trigger_id), Some(classify_id), Edge::new("output", "content")),
        (Some(trigger_id), None, Edge::new("output", "content")),
        (Some(NodeId::new()), Some(classify_id), Edge::new("output", "content")),
    ];
    let mut parsed = WorkflowGraph::from_parts(vec![trigger, classify], edges);
    parsed.rebuild_index_map();
    assert_eq!(parsed.node_count(), 2);
    assert_eq!(parsed.edge_count(), 1);
    assert!(parsed.get_node(trigger_id).is_some());
    let stored = parsed.stored_edges();
    assert_eq!(stored.len(), 1);
    assert_eq!(stored[0].0, Some(trigger_id));
    assert_eq!(stored[0].1, Some(classify_id));
    assert_eq!(stored[0].2.source_port, "output");
}

#[test]
fn empty_workflow_is_immediately_complete() {
    let workflow = WorkflowGraph::new();
    let work = RemainingWorkGraph::from_workflow(&workflow);
    assert!(work.is_complete());
    assert!(!work.has_failures());
    assert_eq!(work.remaining_count(), 0);
}

#[test]
fn single_node_workflow() {
    let mut workflow = WorkflowGraph::new();
    let trigger = create_trigger_node("Trigger");
    let trigger_id = trigger.id;
    workflow.add_node(trigger);
    let mut work = RemainingWorkGraph::from_workflow(&workflow);
    assert_eq!(work.ready_nodes(), vec![trigger_id]);
    assert!(!work.is_complete());
    work.mark_executing(trigger_id);
    assert!(work.ready_nodes().is_empty());
    assert!(!work.is_complete());
    work.mark_completed(trigger_id);
    assert!(work.is_complete());
    assert_eq!(work.remaining_count(), 0);
}

fn chain3() -> (WorkflowGraph, NodeId, NodeId, NodeId) {
    let mut workflow = WorkflowGraph::new();
    let node_a = create_trigger_node("A");
    let node_b = create_ai_node("B");
    let node_c = create_ai_node("C");
    let (id_a, id_b, id_c) = (node_a.id, node_b.id, node_c.id);
    workflow.add_node(node_a);
    workflow.add_node(node_b);
    workflow.add_node(node_c);
    workflow.add_edge(id_a, id_b, Edge::new("output", "context")).unwrap();
    workflow.add_edge(id_b, id_c, Edge::new("generated", "context")).unwrap();
    (workflow, id_a, id_b, id_c)
}

#[test]
fn linear_workflow_execution() {
    let (workflow, id_a, id_b, id_c) = chain3();
    let mut work = RemainingWorkGraph::from_workflow(&workflow);
    assert_eq!(work.ready_nodes(), vec![id_a]);
    work.mark_executing(id_a);
    work.mark_completed(id_a);
    assert_eq!(work.ready_nodes(), vec![id_b]);
    work.mark_executing(id_b);
    work.mark_completed(id_b);
    assert_eq!(work.ready_nodes(), vec![id_c]);
    work.mark_executing(id_c);
    work.mark_completed(id_c);
    assert!(work.is_complete());
}

#[test]
fn parallel_workflow_execution() {
    let mut workflow = WorkflowGraph::new();
    let node_a = create_trigger_node("A");
    let node_b = create_ai_node("B");
    let node_c = create_ai_node("C");
    let (id_a, id_b, id_c) = (node_a.id, node_b.id, node_c.id);
    workflow.add_node(node_a);
    workflow.add_node(node_b);
    workflow.add_node(node_c);
    workflow.add_edge(id_a, id_b, Edge::new("output", "context")).unwrap();
    workflow.add_edge(id_a, id_c, Edge::new("output", "context")).unwrap();
    let mut work = RemainingWorkGraph::from_workflow(&workflow);
    work.mark_executing(id_a);
    work.mark_completed(id_a);
    let ready = work.ready_nodes();
    assert_eq!(ready.len(), 2);
    assert!(ready.contains(&id_b));
    assert!(ready.contains(&id_c));
}

#[test]
fn join_waits_for_all_predecessors() {
    let mut workflow = WorkflowGraph::new();
    let node_a = create_trigger_node("A");
    let node_b = create_ai_node("B");
    let node_c = create_ai_node("C");
    let node_d = create_ai_node("D");
    let (id_a, id_b, id_c, id_d) = (node_a.id, node_b.id, node_c.id, node_d.id);
    workflow.add_node(node_a);
    workflow.add_node(node_b);
    workflow.add_node(node_c);
    workflow.add_node(node_d);
    workflow.add_edge(id_a, id_b, Edge::new("output", "context")).unwrap();
    workflow.add_edge(id_a, id_c, Edge::new("output", "context")).unwrap();
    workflow.add_edge(id_b, id_d, Edge::new("generated", "context")).unwrap();
    workflow.add_edge(id_c, id_d, Edge::new("generated", "context")).unwrap();
    let mut work = RemainingWorkGraph::from_workflow(&workflow);
    work.mark_executing(id_a);
    work.mark_completed(id_a);
    let ready = work.ready_nodes();
    assert!(ready.contains(&id_b));
    assert!(ready.contains(&id_c));
    assert!(!ready.contains(&id_d));
    work.mark_executing(id_b);
    work.mark_completed(id_b);
    let ready = work.ready_nodes();
    assert!(ready.contains(&id_c));
    assert!(!ready.contains(&id_d));
    work.mark_executing(id_c);
    work.mark_completed(id_c);
    assert_eq!(work.ready_nodes(), vec![id_d]);
}

#[test]
fn failed_node_blocks_downstream() {
    let (workflow, id_a, id_b, id_c) = chain3();
    let mut work = RemainingWorkGraph::from_workflow(&workflow);
    work.mark_executing(id_a);
    work.mark_completed(id_a);
    work.mark_executing(id_b);
    work.mark_failed(id_b);
    assert!(work.is_complete());
    assert!(work.has_failures());
    assert!(work.failed_nodes().contains(&id_b));
    let blocked = work.blocked_nodes();
    assert!(blocked.contains(&id_c));
    // Failed and executing nodes are never ready.
    assert!(!work.ready_nodes().contains(&id_b));
}

#[test]
fn partial_completion_with_independent_branches() {
    let (mut workflow, id_a, id_b, id_c) = chain3();
    let node_d = create_trigger_node("D");
    let node_e = create_ai_node("E");
    let node_f = create_ai_node("F");
    let (id_d, id_e, id_f) = (node_d.id, node_e.id, node_f.id);
    workflow.add_node(node_d);
    workflow.add_node(node_e);
    workflow.add_node(node_f);
    workflow.add_edge(id_d, id_e, Edge::new("output", "context")).unwrap();
    workflow.add_edge(id_e, id_f, Edge::new("generated", "context")).unwrap();
    let mut work = RemainingWorkGraph::from_workflow(&workflow);
    let ready = work.ready_nodes();
    assert!(ready.contains(&id_a));
    assert!(ready.contains(&id_d));
    work.mark_executing(id_a);
    work.mark_completed(id_a);
    work.mark_executing(id_b);
    work.mark_failed(id_b);
    work.mark_executing(id_d);
    work.mark_completed(id_d);
    work.mark_executing(id_e);
    work.mark_completed(id_e);
    work.mark_executing(id_f);
    work.mark_completed(id_f);
    assert!(work.is_complete());
    assert!(work.has_failures());
    assert!(work.blocked_nodes().contains(&id_c));
}

#[test]
fn node_state_tracking() {
    let mut workflow = WorkflowGraph::new();
    let trigger = create_trigger_node("Trigger");
    let ai = create_ai_node("AI");
    let trigger_id = trigger.id;
    let ai_id = ai.id;
    workflow.add_node(trigger);
    workflow.add_node(ai);
    workflow.add_edge(trigger_id, ai_id, Edge::new("output", "context")).unwrap();
    let mut work = RemainingWorkGraph::from_workflow(&workflow);
    assert_eq!(work.node_state(trigger_id), NodeExecutionState::Ready);
    assert_eq!(work.node_state(ai_id), NodeExecutionState::Pending);
    work.mark_executing(trigger_id);
    assert_eq!(work.node_state(trigger_id), NodeExecutionState::Running);
    work.mark_completed(trigger_id);
    assert_eq!(work.node_state(trigger_id), NodeExecutionState::Completed);
    assert_eq!(work.node_state(ai_id), NodeExecutionState::Ready);
}

fn create_simple_workflow() -> (WorkflowGraph, NodeId, NodeId) {
    let mut graph = WorkflowGraph::new();
    let node_a = create_trigger_node("A");
    let node_b = create_ai_node("B");
    let id_a = node_a.id;
    let id_b = node_b.id;
    graph.add_node(node_a);
    graph.add_node(node_b);
    graph.add_edge(id_a, id_b, Edge::new("output", "context")).unwrap();
    (graph, id_a, id_b)
}

fn queued(run_id: WorkflowRunId, workflow_id: WorkflowId, t: i64) -> ExecutionEvent {
    ExecutionEvent::RunQueued { run_id, workflow_id, trigger_id: None, input: None, timestamp: t }
}

#[test]
fn build_from_run_queued_only() {
    let (graph, id_a, _id_b) = create_simple_workflow();
    let builder = RunStateBuilder::new(graph);
    let run_id = WorkflowRunId::new();
    let workflow_id = WorkflowId::new();
    let t = chrono::Utc::now().timestamp_millis();
    let state = builder.build_from_events(vec![queued(run_id, workflow_id, t)]).unwrap();
    assert_eq!(state.run_id, run_id);
    assert_eq!(state.workflow_id, workflow_id);
    assert_eq!(state.execution_state, ExecutionState::Queued);
    assert!(state.started_at.is_none());
    assert!(!state.is_complete());
    let ready = state.ready_nodes();
    assert_eq!(ready.len(), 1);
    assert!(ready.contains(&id_a));
}

#[test]
fn build_from_started_run() {
    let (graph, id_a, id_b) = create_simple_workflow();
    let builder = RunStateBuilder::new(graph);
    let run_id = WorkflowRunId::new();
    let workflow_id = WorkflowId::new();
    let t1 = chrono::Utc::now().timestamp_millis();
    let t2 = t1 + 1000;
    let t3 = t2 + 1000;
    let events = vec![
        queued(run_id, workflow_id, t1),
        ExecutionEvent::RunStarted { run_id, timestamp: t2 },
        ExecutionEvent::NodeStarted { run_id, node_id: id_a, input: None, timestamp: t3 },
    ];
    let state = builder.build_from_events(events).unwrap();
    assert_eq!(state.execution_state, ExecutionState::Running);
    assert_eq!(state.started_at, Some(t2));
    assert!(!state.ready_nodes().contains(&id_a));
    assert!(state.remaining_work().executing_nodes().contains(&id_a));
    let b_state = state.node_states.get(&id_b.0).unwrap();
    assert_eq!(b_state.state, NodeExecutionState::Pending);
}

#[test]
fn build_from_partial_execution() {
    let (graph, id_a, id_b) = create_simple_workflow();
    let builder = RunStateBuilder::new(graph);
    let run_id = WorkflowRunId::new();
    let t1 = chrono::Utc::now().timestamp_millis();
    let events = vec![
        queued(run_id, WorkflowId::new(), t1),
        ExecutionEvent::RunStarted { run_id, timestamp: t1 },
        ExecutionEvent::NodeStarted { run_id, node_id: id_a, input: None, timestamp: t1 },
        ExecutionEvent::NodeCompleted { run_id, node_id: id_a, output_key: "output_a".to_string(), timestamp: t1 },
    ];
    let state = builder.build_from_events(events).unwrap();
    let ready = state.ready_nodes();
    assert_eq!(ready.len(), 1);
    assert!(ready.contains(&id_b));
    let a_state = state.node_states.get(&id_a.0).unwrap();
    assert_eq!(a_state.state, NodeExecutionState::Completed);
    assert_eq!(a_state.output_key, Some("output_a".to_string()));
}

#[test]
fn build_from_completed_run() {
    let (graph, id_a, id_b) = create_simple_workflow();
    let builder = RunStateBuilder::new(graph);
    let run_id = WorkflowRunId::new();
    let t1 = chrono::Utc::now().timestamp_millis();
    let events = vec![
        queued(run_id, WorkflowId::new(), t1),
        ExecutionEvent::RunStarted { run_id, timestamp: t1 },
        ExecutionEvent::NodeStarted { run_id, node_id: id_a, input: None, timestamp: t1 },
        ExecutionEvent::NodeCompleted { run_id, node_id: id_a, output_key: "output_a".to_string(), timestamp: t1 },
        ExecutionEvent::NodeStarted { run_id, node_id: id_b, input: Some(obj("data", "test")), timestamp: t1 },
        ExecutionEvent::NodeCompleted { run_id, node_id: id_b, output_key: "output_b".to_string(), timestamp: t1 },
        ExecutionEvent::RunCompleted { run_id, output: Some(obj("result", "success")), timestamp: t1 },
    ];
    let state = builder.build_from_events(events).unwrap();
    assert_eq!(state.execution_state, ExecutionState::Completed);
    assert!(state.is_complete());
    assert!(state.finished_at.is_some());
    assert!(state.output.as_ref().unwrap().equals(&obj("result", "success")));
}

#[test]
fn build_from_failed_run() {
    let (graph, id_a, _id_b) = create_simple_workflow();
    let builder = RunStateBuilder::new(graph);
    let run_id = WorkflowRunId::new();
    let t1 = chrono::Utc::now().timestamp_millis();
    let events = vec![
        queued(run_id, WorkflowId::new(), t1),
        ExecutionEvent::RunStarted { run_id, timestamp: t1 },
        ExecutionEvent::NodeStarted { run_id, node_id: id_a, input: None, timestamp: t1 },
        ExecutionEvent::NodeFailed { run_id, node_id: id_a, error: "connection timeout".to_string(), timestamp: t1 },
        ExecutionEvent::RunFailed { run_id, error: "workflow failed due to node failure".to_string(), timestamp: t1 },
    ];
    let state = builder.build_from_events(events).unwrap();
    assert_eq!(state.execution_state, ExecutionState::Failed);
    assert!(state.is_complete());
    assert!(state.has_failures());
    assert!(state.error.is_some());
}

#[test]
fn error_on_no_events() {
    let (graph, _, _) = create_simple_workflow();
    let builder = RunStateBuilder::new(graph);
    let result = builder.build_from_events(Vec::new());
    assert!(matches!(result, Err(RunStateError::NoEvents)));
}

#[test]
fn error_on_missing_run_queued() {
    let (graph, _, _) = create_simple_workflow();
    let builder = RunStateBuilder::new(graph);
    let run_id = WorkflowRunId::new();
    let events = vec![ExecutionEvent::RunStarted { run_id, timestamp: 0 }];
    let result = builder.build_from_events(events);
    assert!(matches!(result, Err(RunStateError::MissingRunQueued)));
}

#[test]
fn error_on_duplicate_run_queued() {
    let (graph, _, _) = create_simple_workflow();
    let builder = RunStateBuilder::new(graph);
    let run_id = WorkflowRunId::new();
    let workflow_id = WorkflowId::new();
    let events = vec![queued(run_id, workflow_id, 0), queued(run_id, workflow_id, 0)];
    let result = builder.build_from_events(events);
    assert!(matches!(result, Err(RunStateError::DuplicateRunQueued)));
}

#[test]
fn events_for_unknown_nodes_are_ignored() {
    let (graph, id_a, _) = create_simple_workflow();
    let builder = RunStateBuilder::new(graph);
    let run_id = WorkflowRunId::new();
    let stranger = NodeId::new();
    let events = vec![
        queued(run_id, WorkflowId::new(), 0),
        ExecutionEvent::NodeStarted { run_id, node_id: stranger, input: None, timestamp: 0 },
    ];
    let state = builder.build_from_events(events).unwrap();
    assert!(state.node_states.get(&stranger.0).is_none());
    assert_eq!(state.ready_nodes(), vec![id_a]);
}
