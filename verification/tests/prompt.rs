use silver_telegram::ai::prompt::{PromptRegistry, PromptTemplate, PromptTemplateId, VariableDefinition};
use silver_telegram::support::json::Json;

fn s(text: &str) -> Json {
    Json::Str(text.to_string())
}

#[test]
fn template_rendering() {
    let template = PromptTemplate::new(
        "classify_email",
        "Classify the following email into one of: {{categories}}\n\nEmail: {{email}}",
    );
    let vars = vec![
        ("categories".to_string(), s("spam, important, other")),
        ("email".to_string(), s("Hello, this is a test email.")),
    ];
    let rendered = template.render(&vars);
    assert!(rendered.contains("spam, important, other"));
    assert!(rendered.contains("Hello, this is a test email."));
}

#[test]
fn template_with_defaults() {
    let template = PromptTemplate::new("greeting", "Hello, {{name}}! Your role is {{role}}.")
        .with_variable("name", VariableDefinition::required("User's name"))
        .with_variable("role", VariableDefinition::optional("User's role").with_default(s("guest")));
    let vars = vec![("name".to_string(), s("Alice"))];
    assert_eq!(template.render(&vars), "Hello, Alice! Your role is guest.");
}

#[test]
fn template_renders_non_string_values_as_json() {
    let template = PromptTemplate::new("t", "n={{n}} b={{b}} {{n}}");
    let vars = vec![("n".to_string(), Json::from_u64(7)), ("b".to_string(), Json::boolean(true))];
    assert_eq!(template.render(&vars), "n=7 b=true 7");
}

#[test]
fn template_leaves_unknown_placeholders() {
    let template = PromptTemplate::new("t", "{{x}} {{y}}");
    assert_eq!(template.render(&vec![]), "{{x}} {{y}}");
}

#[test]
fn template_validation() {
    let template = PromptTemplate::new("test", "{{required_var}} {{optional_var}}")
        .with_variable("required_var", VariableDefinition::required("Required"))
        .with_variable("optional_var", VariableDefinition::optional("Optional"));
    let result = template.validate_variables(&vec![]);
    assert!(result.is_err());
    assert_eq!(result.unwrap_err(), vec!["required_var"]);
    let valid = vec![("required_var".to_string(), s("value"))];
    assert!(template.validate_variables(&valid).is_ok());
}

#[test]
fn required_variable_with_default_is_not_missing() {
    let template = PromptTemplate::new("t", "{{a}}")
        .with_variable("a", VariableDefinition::required("A").with_default(s("x")));
    assert!(template.validate_variables(&vec![]).is_ok());
    assert_eq!(template.render(&vec![]), "x");
}

#[test]
fn with_variable_replaces_same_name() {
    let template = PromptTemplate::new("t", "{{a}}")
        .with_variable("a", VariableDefinition::required("first"))
        .with_variable("a", VariableDefinition::optional("second"));
    assert_eq!(template.variables.len(), 1);
    assert_eq!(template.variables[0].1.description, "second");
}

#[test]
fn system_prompt_rendering() {
    let template = PromptTemplate::new("t", "x").with_system_prompt("You help {{who}}.");
    let vars = vec![("who".to_string(), s("Bob"))];
    assert_eq!(template.render_system_prompt(&vars), Some("You help Bob.".to_string()));
    assert_eq!(PromptTemplate::new("u", "y").render_system_prompt(&vars), None);
}

#[test]
fn template_defaults_and_id() {
    let template = PromptTemplate::new("t", "c").with_version("2.0.0").with_description("d");
    assert_eq!(template.version, "2.0.0");
    assert_eq!(template.description, Some("d".to_string()));
    assert!(PromptTemplateId::new().to_string().starts_with("prompt_"));
    assert_eq!(PromptTemplate::new("v", "c").version, "0.1.0");
}

#[test]
fn registry_operations() {
    let mut registry = PromptRegistry::new();
    assert!(registry.is_empty());
    registry.register(PromptTemplate::new("template1", "Content 1"));
    registry.register(PromptTemplate::new("template2", "Content 2"));
    assert_eq!(registry.len(), 2);
    assert!(registry.get("template1").is_some());
    assert!(registry.get("nonexistent").is_none());
    registry.register(PromptTemplate::new("template1", "Content 3"));
    assert_eq!(registry.len(), 2);
    assert_eq!(registry.get("template1").unwrap().content, "Content 3");
    assert_eq!(registry.all().len(), 2);
}
