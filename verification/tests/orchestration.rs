use silver_telegram::platform_core::id::WorkflowRunId;
use silver_telegram::support::json::Json;
use silver_telegram::workflow::definition::Workflow;
use silver_telegram::workflow::edge::Edge;
use silver_telegram::workflow::execution::{ExecutionEvent, ExecutionState};
use silver_telegram::workflow::node::{AiLayerNodeConfig, Node, NodeConfig, NodeId, TriggerNodeConfig};
use silver_telegram::workflow::orchestrator::{inputs_json, NextStep, Orchestrator, WorkItem, WorkItemResult};
use silver_telegram::workflow::worker::{echo_output, result_of, MockExecutor, NodeExecutionError, WorkerError};

/// Drives the orchestrator's decisions the way the runtime does, keeping
/// what it would publish.
struct Driver {
    orchestrator: Orchestrator,
    events: Vec<ExecutionEvent>,
    work_items: Vec<WorkItem>,
    clock: i64,
}

impl Driver {
    fn new(workflow: Workflow) -> Self {
        Driver { orchestrator: Orchestrator::new(workflow), events: Vec::new(), work_items: Vec::new(), clock: 1_000 }
    }

    fn tick(&mut self) -> i64 {
        self.clock += 1;
        self.clock
    }

    fn initialize(&mut self) {
        let t = self.tick();
        let queued = self.orchestrator.queue_event(WorkflowRunId::new(), t);
        self.events.push(clone_event(&queued));
        self.orchestrator.install_run(queued).unwrap();
    }

    fn start(&mut self) {
        let t = self.tick();
        if let Some(started) = self.orchestrator.start_event(t).unwrap() {
            self.events.push(started);
            self.orchestrator.record_run_started(t);
        }
        self.schedule_ready();
    }

    fn schedule_ready(&mut self) {
        let items = self.orchestrator.plan_ready_nodes().unwrap();
        for item in items {
            let t = self.tick();
            let input = inputs_json(&item.inputs);
            self.events.push(ExecutionEvent::NodeStarted {
                run_id: item.run_id,
                node_id: item.node_id,
                input: Some(input.clone()),
                timestamp: t,
            });
            self.orchestrator.mark_scheduled(item.node_id, input);
            self.work_items.push(item);
        }
    }

    fn handle_result(&mut self, result: WorkItemResult) {
        let t = self.tick();
        let event = self.orchestrator.result_event(&result, t).unwrap();
        self.events.push(event);
        match self.orchestrator.record_result(result).unwrap() {
            NextStep::Finalize => {
                let t = self.tick();
                let fin = self.orchestrator.final_event(t).unwrap();
                self.events.push(fin);
                self.orchestrator.record_final(t);
            }
            NextStep::ScheduleReady => self.schedule_ready(),
        }
    }
}

fn clone_event(e: &ExecutionEvent) -> ExecutionEvent {
    match e {
        ExecutionEvent::RunQueued { run_id, workflow_id, trigger_id, input, timestamp } => ExecutionEvent::RunQueued {
            run_id: *run_id,
            workflow_id: *workflow_id,
            trigger_id: *trigger_id,
            input: input.clone(),
            timestamp: *timestamp,
        },
        ExecutionEvent::RunStarted { run_id, timestamp } => ExecutionEvent::RunStarted { run_id: *run_id, timestamp: *timestamp },
        ExecutionEvent::NodeStarted { run_id, node_id, input, timestamp } => ExecutionEvent::NodeStarted {
            run_id: *run_id,
            node_id: *node_id,
            input: input.clone(),
            timestamp: *timestamp,
        },
        ExecutionEvent::NodeCompleted { run_id, node_id, output_key, timestamp } => ExecutionEvent::NodeCompleted {
            run_id: *run_id,
            node_id: *node_id,
            output_key: output_key.clone(),
            timestamp: *timestamp,
        },
        ExecutionEvent::NodeFailed { run_id, node_id, error, timestamp } => ExecutionEvent::NodeFailed {
            run_id: *run_id,
            node_id: *node_id,
            error: error.clone(),
            timestamp: *timestamp,
        },
        _ => panic!("not used here"),
    }
}

fn workflow_with(id_a: NodeId, id_b: NodeId) -> Workflow {
    let mut workflow = Workflow::new("Test Workflow");
    let mut node_a = Node::new(
        "A",
        NodeConfig::Trigger(TriggerNodeConfig::Schedule { cron: "0 7 * * *".to_string(), timezone: None }),
    );
    let mut node_b = Node::new("B", NodeConfig::AiLayer(AiLayerNodeConfig::Generate { instructions: "Test".to_string() }));
    node_a.id = id_a;
    node_b.id = id_b;
    workflow.graph.add_node(node_a);
    workflow.graph.add_node(node_b);
    workflow.graph.add_edge(id_a, id_b, Edge::new("output", "context")).unwrap();
    workflow
}

fn create_simple_workflow() -> (Workflow, NodeId, NodeId) {
    let id_a = NodeId::new();
    let id_b = NodeId::new();
    (workflow_with(id_a, id_b), id_a, id_b)
}

#[test]
fn orchestrator_starts_new_run() {
    let (workflow, id_a, _id_b) = create_simple_workflow();
    let mut driver = Driver::new(workflow);
    driver.initialize();
    driver.start();
    assert_eq!(driver.events.len(), 3);
    assert!(matches!(driver.events[0], ExecutionEvent::RunQueued { .. }));
    assert!(matches!(driver.events[1], ExecutionEvent::RunStarted { .. }));
    match &driver.events[2] {
        ExecutionEvent::NodeStarted { node_id, .. } => assert_eq!(*node_id, id_a),
        _ => panic!("expected NodeStarted"),
    }
    assert_eq!(driver.work_items.len(), 1);
    assert_eq!(driver.work_items[0].node_id, id_a);
}

#[test]
fn orchestrator_handles_completion() {
    let (workflow, id_a, id_b) = create_simple_workflow();
    let mut driver = Driver::new(workflow);
    driver.initialize();
    driver.start();
    let run_id = driver.orchestrator.run_id().unwrap();
    driver.handle_result(WorkItemResult::Completed { run_id, node_id: id_a, output_key: "output_a".to_string() });
    assert_eq!(driver.work_items.len(), 2);
    assert_eq!(driver.work_items[1].node_id, id_b);
    driver.handle_result(WorkItemResult::Completed { run_id, node_id: id_b, output_key: "output_b".to_string() });
    assert!(driver.orchestrator.is_complete());
    assert!(matches!(driver.events.last().unwrap(), ExecutionEvent::RunCompleted { .. }));
}

#[test]
fn orchestrator_handles_failure() {
    let (workflow, id_a, _id_b) = create_simple_workflow();
    let mut driver = Driver::new(workflow);
    driver.initialize();
    driver.start();
    let run_id = driver.orchestrator.run_id().unwrap();
    driver.handle_result(WorkItemResult::Failed { run_id, node_id: id_a, error: "test error".to_string() });
    assert!(driver.orchestrator.is_complete());
    let state = driver.orchestrator.state().unwrap();
    assert!(state.has_failures());
    assert_eq!(state.execution_state, ExecutionState::Failed);
    match driver.events.last().unwrap() {
        ExecutionEvent::RunFailed { error, .. } => assert_eq!(error, "workflow failed due to node failures"),
        _ => panic!("expected RunFailed"),
    }
}

#[test]
fn orchestrator_collects_inputs() {
    let (workflow, id_a, id_b) = create_simple_workflow();
    let mut driver = Driver::new(workflow);
    driver.initialize();
    driver.start();
    let run_id = driver.orchestrator.run_id().unwrap();
    driver.handle_result(WorkItemResult::Completed { run_id, node_id: id_a, output_key: "output_key_123".to_string() });
    let b_work_item = driver.work_items.iter().find(|w| w.node_id == id_b).unwrap();
    let context = b_work_item.inputs.iter().find(|(port, _)| port == "context").map(|(_, key)| key.clone());
    assert_eq!(context, Some("output_key_123".to_string()));
}

#[test]
fn orchestrator_resumes_from_events() {
    let (workflow, id_a, id_b) = create_simple_workflow();
    let mut driver = Driver::new(workflow);
    driver.initialize();
    driver.start();
    let run_id = driver.orchestrator.run_id().unwrap();
    driver.handle_result(WorkItemResult::Completed { run_id, node_id: id_a, output_key: "out_a".to_string() });
    // A fresh orchestrator of the same workflow, resumed from the published
    // events, has the live orchestrator's state.
    let live = driver.orchestrator.state().unwrap();
    let events: Vec<ExecutionEvent> = driver.events.iter().map(clone_event).collect();
    let mut fresh = Orchestrator::new(workflow_with(id_a, id_b));
    fresh.resume_from(run_id, events).unwrap();
    let resumed = fresh.state().unwrap();
    assert_eq!(resumed.execution_state, live.execution_state);
    assert_eq!(resumed.started_at, live.started_at);
    assert_eq!(resumed.ready_nodes(), live.ready_nodes());
    assert_eq!(resumed.remaining_work().executing_nodes(), live.remaining_work().executing_nodes());
    assert_eq!(resumed.node_states.get(&id_a.0).unwrap().output_key, Some("out_a".to_string()));
    assert_eq!(
        resumed.node_states.get(&id_b.0).unwrap().state,
        live.node_states.get(&id_b.0).unwrap().state
    );
    // Nothing recorded: the run is unknown.
    let (w3, _, _) = create_simple_workflow();
    assert!(Orchestrator::new(w3).resume_from(run_id, Vec::new()).is_err());
}

#[test]
fn inputs_json_maps_ports_to_keys() {
    let j = inputs_json(&vec![("b".to_string(), "k2".to_string()), ("a".to_string(), "k1".to_string())]);
    assert!(j.get("a").unwrap().equals(&Json::Str("k1".to_string())));
    assert!(j.get("b").unwrap().equals(&Json::Str("k2".to_string())));
}

#[test]
fn worker_result_of_outcomes() {
    let item = WorkItem { run_id: WorkflowRunId::new(), node_id: NodeId::new(), inputs: vec![] };
    match result_of(&item, Ok("key_1".to_string())) {
        WorkItemResult::Completed { output_key, node_id, .. } => {
            assert_eq!(output_key, "key_1");
            assert_eq!(node_id, item.node_id);
        }
        _ => panic!("expected Completed"),
    }
    let err = WorkerError::NodeNotFound { node_id: "node_x".to_string() };
    let message = err.to_string();
    match result_of(&item, Err(err)) {
        WorkItemResult::Failed { error, .. } => assert_eq!(error, message),
        _ => panic!("expected Failed"),
    }
}

#[test]
fn echo_executor_echoes_inputs() {
    let out = echo_output(vec![
        ("message".to_string(), Json::Str("hi".to_string())),
        ("count".to_string(), Json::from_u64(3)),
    ]);
    assert!(out.get("message").unwrap().equals(&Json::Str("hi".to_string())));
    assert!(out.get("count").unwrap().equals(&Json::from_u64(3)));
}

#[test]
fn mock_executor_outcomes() {
    let ok = MockExecutor::succeeding(Json::boolean(true));
    assert!(ok.outcome().unwrap().equals(&Json::boolean(true)));
    let failing = MockExecutor::failing(NodeExecutionError::ExecutionFailed { message: "boom".to_string() });
    assert!(failing.outcome().is_err());
}
