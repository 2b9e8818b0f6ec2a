use silver_telegram::authz::error::AuthzError;
use silver_telegram::authz::request::take_lookup_reply;
use silver_telegram::authz::types::{Relationship, ResourceType};
use silver_telegram::integration::rate_limit::{RateLimitConfig, RateLimiter};
use silver_telegram::platform_core::id::WorkflowRunId;
use silver_telegram::support::json::Json;
use silver_telegram::workflow::orchestrator::WorkItem;
use silver_telegram::workflow::worker::{NodeExecutionError, WorkerAction, WorkerError, WorkerEvent, WorkerRun};
use silver_telegram::conversation::message::{AttachmentType, Message, MessageAttachment, MessageRole};
use silver_telegram::conversation::session::Session;
use silver_telegram::platform_core::id::{UserId, WorkflowId};
use silver_telegram::workflow::edge::{Edge, EdgeRef};
use silver_telegram::workflow::graph::WorkflowGraph;
use silver_telegram::workflow::node::{AiLayerNodeConfig, Node, NodeConfig, NodeId};

fn ai_node(name: &str) -> Node {
    Node::new(name, NodeConfig::AiLayer(AiLayerNodeConfig::Generate { instructions: "Test".to_string() }))
}

#[test]
fn terminal_nodes_are_those_without_successors() {
    let mut graph = WorkflowGraph::new();
    let a = ai_node("A");
    let b = ai_node("B");
    let c = ai_node("C");
    let (id_a, id_b, id_c) = (a.id, b.id, c.id);
    graph.add_node(a);
    graph.add_node(b);
    graph.add_node(c);
    graph.add_edge(id_a, id_b, Edge::new("generated", "context")).unwrap();
    let terminal: Vec<NodeId> = graph.terminal_nodes().iter().map(|n| n.id).collect();
    assert_eq!(terminal, vec![id_b, id_c]);
}

#[test]
fn edge_ref_with_default_ports() {
    let source = NodeId::new();
    let target = NodeId::new();
    let edge = EdgeRef::with_default_ports(source, target);
    assert_eq!(edge.source_node, source);
    assert_eq!(edge.target_node, target);
    assert_eq!(edge.source_port, "output");
    assert_eq!(edge.target_port, "input");
}

#[test]
fn ownership_relationships_name_resource_and_user() {
    let user = UserId::new();
    let workflow = WorkflowId::new();
    let owner = Relationship::workflow_owner(workflow, user);
    assert!(matches!(owner.resource.resource_type, ResourceType::Workflow));
    assert_eq!(owner.resource.id, workflow.to_string());
    assert_eq!(owner.relation, "owner");
    assert_eq!(owner.subject.subject_type, "user");
    assert_eq!(owner.subject.id, user.to_string());

    let admin = Relationship::platform_admin(user);
    assert!(matches!(admin.resource.resource_type, ResourceType::Platform));
    assert_eq!(admin.resource.id, "main");
    assert_eq!(admin.relation, "admin");
    assert_eq!(admin.subject.id, user.to_string());
}

#[test]
fn message_with_attachment_appends_it() {
    let attachment = MessageAttachment {
        attachment_type: AttachmentType::Text,
        content: "notes".to_string(),
        metadata: None,
    };
    let message = Message::new(MessageRole::User, "see attached").with_attachment(attachment);
    assert_eq!(message.attachments.len(), 1);
    assert_eq!(message.attachments[0].content, "notes");
    assert_eq!(message.content, "see attached");
}

#[test]
fn messages_since_keeps_later_messages_in_order() {
    let mut session = Session::new(UserId::new());
    let mut first = Message::new(MessageRole::User, "first");
    first.timestamp = 100;
    let mut second = Message::new(MessageRole::Assistant, "second");
    second.timestamp = 200;
    let mut third = Message::new(MessageRole::User, "third");
    third.timestamp = 300;
    session.add_message(first);
    session.add_message(second);
    session.add_message(third);
    let later: Vec<&str> = session.messages_since(200).iter().map(|m| m.content.as_str()).collect();
    assert_eq!(later, vec!["second", "third"]);
    assert!(session.messages_since(301).is_empty());
}

#[test]
fn removing_a_node_keeps_the_others_reachable() {
    let mut graph = WorkflowGraph::new();
    let a = ai_node("A");
    let b = ai_node("B");
    let c = ai_node("C");
    let (id_a, id_b, id_c) = (a.id, b.id, c.id);
    graph.add_node(a);
    graph.add_node(b);
    graph.add_node(c);
    graph.add_edge(id_a, id_b, Edge::new("generated", "context")).unwrap();
    graph.add_edge(id_b, id_c, Edge::new("generated", "context")).unwrap();
    let removed = graph.remove_node(id_a).unwrap();
    assert_eq!(removed.id, id_a);
    assert!(graph.get_node(id_a).is_none());
    assert_eq!(graph.get_node(id_b).unwrap().name, "B");
    assert_eq!(graph.get_node(id_c).unwrap().name, "C");
    assert_eq!(graph.node_count(), 2);
    assert_eq!(graph.edge_count(), 1);
    assert_eq!(graph.successors(id_b).len(), 1);
    assert_eq!(graph.successors(id_b)[0].0.id, id_c);
}

#[test]
fn get_node_mut_changes_that_node() {
    let mut graph = WorkflowGraph::new();
    let a = ai_node("A");
    let b = ai_node("B");
    let (id_a, id_b) = (a.id, b.id);
    graph.add_node(a);
    graph.add_node(b);
    graph.get_node_mut(id_b).unwrap().name = "Renamed".to_string();
    assert_eq!(graph.get_node(id_b).unwrap().name, "Renamed");
    assert_eq!(graph.get_node(id_a).unwrap().name, "A");
    assert!(graph.get_node_mut(NodeId::new()).is_none());
}

#[test]
fn default_edge_joins_default_ports() {
    let edge = Edge::default();
    let ports = Edge::default_ports();
    assert_eq!(edge.source_port, ports.source_port);
    assert_eq!(edge.target_port, ports.target_port);
    assert_eq!(edge.source_port, "output");
    assert_eq!(edge.target_port, "input");
}

#[test]
fn check_foretells_increment_when_nothing_is_allowed() {
    let mut limiter = RateLimiter::new(RateLimitConfig::new(0, 60));
    assert!(!limiter.check("key").is_allowed());
    assert!(!limiter.check_and_increment("key").is_allowed());
    assert!(!limiter.check("key").is_allowed());
}

#[test]
fn check_remaining_is_one_more_than_after_increment() {
    let mut limiter = RateLimiter::new(RateLimitConfig::new(3, 60));
    assert_eq!(limiter.check("key").remaining(), 3);
    assert_eq!(limiter.check_and_increment("key").remaining(), 2);
    assert_eq!(limiter.check("key").remaining(), 2);
}

fn work_item(ports: &[(&str, &str)]) -> WorkItem {
    WorkItem {
        run_id: WorkflowRunId::new(),
        node_id: NodeId::new(),
        inputs: ports.iter().map(|(p, k)| (p.to_string(), k.to_string())).collect(),
    }
}

#[test]
fn worker_fetches_inputs_in_order_then_executes_and_stores() {
    let item = work_item(&[("context", "k1"), ("content", "k2")]);
    let mut run = WorkerRun::new();
    match run.step(&item, WorkerEvent::Started) {
        WorkerAction::FetchInput { key } => assert_eq!(key, "k1"),
        other => panic!("unexpected {other:?}"),
    }
    match run.step(&item, WorkerEvent::InputFetched(Ok(Json::Str("a".to_string())))) {
        WorkerAction::FetchInput { key } => assert_eq!(key, "k2"),
        other => panic!("unexpected {other:?}"),
    }
    assert!(matches!(run.step(&item, WorkerEvent::InputFetched(Ok(Json::Bool(true)))), WorkerAction::Execute));
    assert_eq!(run.inputs.len(), 2);
    assert_eq!(run.inputs[0].0, "context");
    assert_eq!(run.inputs[1].0, "content");
    assert!(matches!(run.step(&item, WorkerEvent::Executed(Ok(Json::Null))), WorkerAction::Store { .. }));
    match run.step(&item, WorkerEvent::Stored(Ok("out".to_string()))) {
        WorkerAction::Report { outcome } => assert_eq!(outcome, Ok("out".to_string())),
        other => panic!("unexpected {other:?}"),
    }
}

#[test]
fn worker_reports_failures_without_executing_or_storing() {
    let item = work_item(&[("context", "k1")]);
    let mut run = WorkerRun::new();
    run.step(&item, WorkerEvent::Started);
    let failed = WorkerError::DeserializationFailed { message: "bad".to_string() };
    match run.step(&item, WorkerEvent::InputFetched(Err(failed.clone()))) {
        WorkerAction::Report { outcome } => assert_eq!(outcome, Err(failed)),
        other => panic!("unexpected {other:?}"),
    }
    let empty = work_item(&[]);
    let mut run = WorkerRun::new();
    assert!(matches!(run.step(&empty, WorkerEvent::Started), WorkerAction::Execute));
    match run.step(&empty, WorkerEvent::Executed(Err(NodeExecutionError::Timeout))) {
        WorkerAction::Report { outcome } => {
            assert_eq!(outcome, Err(WorkerError::Execution(NodeExecutionError::Timeout)))
        }
        other => panic!("unexpected {other:?}"),
    }
}

#[test]
fn lookup_replies_are_collected_until_a_failure() {
    let mut ids = Vec::new();
    assert!(take_lookup_reply(&mut ids, Ok("wf_1".to_string())).is_none());
    assert!(take_lookup_reply(&mut ids, Ok("wf_2".to_string())).is_none());
    assert_eq!(ids, vec!["wf_1".to_string(), "wf_2".to_string()]);
    match take_lookup_reply(&mut ids, Err("stream broke".to_string())) {
        Some(AuthzError::RequestFailed { details }) => assert_eq!(details, "stream broke"),
        other => panic!("unexpected {other:?}"),
    }
    assert_eq!(ids.len(), 2);
}

#[test]
fn stored_graph_rebuilds_to_the_same_graph() {
    let mut graph = WorkflowGraph::new();
    let a = ai_node("A");
    let b = ai_node("B");
    let (id_a, id_b) = (a.id, b.id);
    graph.add_node(a);
    graph.add_node(b);
    graph.add_edge(id_a, id_b, Edge::new("generated", "context")).unwrap();
    let nodes: Vec<Node> = graph
        .nodes()
        .iter()
        .map(|n| {
            Node::with_id(n.id, &n.name, NodeConfig::AiLayer(AiLayerNodeConfig::Generate { instructions: "Test".to_string() }))
        })
        .collect();
    let edges = graph.stored_edges();
    let mut rebuilt = WorkflowGraph::from_parts(nodes, edges);
    rebuilt.rebuild_index_map();
    assert_eq!(rebuilt.node_count(), 2);
    assert_eq!(rebuilt.edge_count(), 1);
    assert_eq!(rebuilt.get_node(id_a).unwrap().name, "A");
    assert_eq!(rebuilt.successors(id_a)[0].0.id, id_b);
}

#[test]
fn test_resource_creation() {
    let wf_id = WorkflowId::new();
    let resource = silver_telegram::authz::types::Resource::workflow(wf_id);
    assert_eq!(resource.resource_type.as_str(), "workflow");
}

#[test]
fn test_relationship_creation() {
    let wf_id = WorkflowId::new();
    let user_id = UserId::new();
    let rel = Relationship::workflow_owner(wf_id, user_id);
    assert_eq!(rel.relation, "owner");
}

#[test]
fn trigger_error_display() {
    let id = silver_telegram::platform_core::id::TriggerId::new();
    let err = silver_telegram::scheduler::error::TriggerError::NotFound { id };
    assert!(err.to_string().contains("trigger not found"));
}

#[test]
fn schedule_error_display() {
    let err = silver_telegram::scheduler::error::ScheduleError::InvalidCronExpression {
        expression: "invalid".to_string(),
        reason: "expected 5 parts".to_string(),
    };
    assert!(err.to_string().contains("invalid"));
    assert!(err.to_string().contains("5 parts"));
}

#[test]
fn scheduler_error_display() {
    let id = silver_telegram::platform_core::id::TriggerId::new();
    let err = silver_telegram::scheduler::error::SchedulerError::TriggerOperation { trigger_id: id };
    assert!(err.to_string().contains("trigger operation failed"));
}

#[test]
fn predecessors_and_successors_list_latest_edge_first() {
    let mut graph = WorkflowGraph::new();
    let a = ai_node("A");
    let b = ai_node("B");
    let c = ai_node("C");
    let (id_a, id_b, id_c) = (a.id, b.id, c.id);
    graph.add_node(a);
    graph.add_node(b);
    graph.add_node(c);
    graph.add_edge(id_a, id_c, Edge::new("generated", "context")).unwrap();
    graph.add_edge(id_b, id_c, Edge::new("generated", "context")).unwrap();
    graph.add_edge(id_a, id_b, Edge::new("generated", "context")).unwrap();
    let preds: Vec<NodeId> = graph.predecessors(id_c).iter().map(|(n, _)| n.id).collect();
    assert_eq!(preds, vec![id_b, id_a]);
    let succs: Vec<NodeId> = graph.successors(id_a).iter().map(|(n, _)| n.id).collect();
    assert_eq!(succs, vec![id_b, id_c]);
}
