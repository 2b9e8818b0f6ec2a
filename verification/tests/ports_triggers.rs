use silver_telegram::platform_core::id::{IntegrationAccountId, WorkflowId};
use silver_telegram::workflow::node::NodeId;
use silver_telegram::workflow::port::{InputPort, PortSchema};
use silver_telegram::workflow::trigger::{MissedExecutionBehavior, Trigger, TriggerConfig, TriggerType};

#[test]
fn any_schema_compatible_with_all() {
    let any = PortSchema::any();
    let string = PortSchema::string();
    let number = PortSchema::number();
    assert!(any.is_compatible_with(&string));
    assert!(any.is_compatible_with(&number));
    assert!(string.is_compatible_with(&any));
}

#[test]
fn same_type_compatible() {
    assert!(PortSchema::string().is_compatible_with(&PortSchema::string()));
}

#[test]
fn different_types_not_compatible() {
    assert!(!PortSchema::string().is_compatible_with(&PortSchema::number()));
}

#[test]
fn input_port_required() {
    let port = InputPort::required("data", PortSchema::string());
    assert!(port.required);
    assert_eq!(port.name, "data");
}

#[test]
fn input_port_optional() {
    let port = InputPort::optional("config", PortSchema::object());
    assert!(!port.required);
    assert_eq!(port.name, "config");
}

#[test]
fn model_reference_schema_is_valid() {
    assert!(PortSchema::model_reference().is_model_reference());
    assert!(!PortSchema::object().is_model_reference());
}

#[test]
fn model_reference_compatible_with_itself() {
    assert!(PortSchema::model_reference().is_compatible_with(&PortSchema::model_reference()));
}

#[test]
fn model_reference_not_compatible_with_other_types() {
    let model = PortSchema::model_reference();
    let string = PortSchema::string();
    let object = PortSchema::object();
    assert!(!model.is_compatible_with(&string));
    assert!(!string.is_compatible_with(&model));
    assert!(!model.is_compatible_with(&object));
}

#[test]
fn model_reference_compatible_with_any() {
    let model = PortSchema::model_reference();
    let any = PortSchema::any();
    assert!(model.is_compatible_with(&any));
    assert!(any.is_compatible_with(&model));
}

#[test]
fn schedule_trigger_creation() {
    let config = TriggerConfig::Schedule {
        cron: "0 7 * * *".to_string(),
        timezone: Some("America/New_York".to_string()),
        next_run: None,
        missed_execution: MissedExecutionBehavior::Skip,
    };
    let trigger = Trigger::new(WorkflowId::new(), NodeId::new(), config);
    assert_eq!(trigger.trigger_type(), TriggerType::Schedule);
    assert!(trigger.enabled);
}

#[test]
fn webhook_trigger_creation() {
    let config = TriggerConfig::Webhook { path: "/hooks/my-workflow".to_string(), secret: Some("secret123".to_string()) };
    let trigger = Trigger::new(WorkflowId::new(), NodeId::new(), config);
    assert_eq!(trigger.trigger_type(), TriggerType::Webhook);
}

#[test]
fn trigger_enable_disable() {
    let mut trigger = Trigger::new(WorkflowId::new(), NodeId::new(), TriggerConfig::Manual);
    assert!(trigger.enabled);
    trigger.disable();
    assert!(!trigger.enabled);
    trigger.enable();
    assert!(trigger.enabled);
}

#[test]
fn integration_event_trigger_type() {
    let config = TriggerConfig::IntegrationEvent {
        integration_id: IntegrationAccountId::new(),
        event_type: "email.received".to_string(),
        filter: Some("from:important@example.com".to_string()),
    };
    let trigger = Trigger::new(WorkflowId::new(), NodeId::new(), config);
    assert_eq!(trigger.trigger_type(), TriggerType::IntegrationEvent);
}
