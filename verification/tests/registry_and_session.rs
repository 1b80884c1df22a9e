use local_agent::messages::{
    ConversationSession, Message, ParamBinding, Role, ToolCallRequest, ToolOutcome, ToolResult,
};
use local_agent::registry::{ParamField, ToolDescriptor, ToolRegistry};
use local_agent::ErrorKind;

fn descriptor(name: &str, fields: &[&str]) -> ToolDescriptor {
    ToolDescriptor {
        name: name.to_string(),
        description: format!("the {} tool", name),
        fields: fields
            .iter()
            .map(|f| ParamField { name: f.to_string(), description: String::new() })
            .collect(),
    }
}

fn call(name: &str, params: &[(&str, &str)]) -> ToolCallRequest {
    ToolCallRequest {
        tool_name: name.to_string(),
        parameters: params
            .iter()
            .map(|(n, v)| ParamBinding { name: n.to_string(), value: v.to_string() })
            .collect(),
    }
}

#[test]
fn duplicate_names_are_rejected() {
    let mut registry = ToolRegistry::new();
    assert_eq!(registry.register(descriptor("read_file", &["path"])), Ok(()));
    assert_eq!(
        registry.register(descriptor("read_file", &["other"])),
        Err(ErrorKind::DuplicateTool)
    );
    assert_eq!(registry.len(), 1);
}

#[test]
fn lookup_finds_registered_tools_only() {
    let mut registry = ToolRegistry::new();
    registry.register(descriptor("read_file", &["path"])).unwrap();
    registry.register(descriptor("edit_file", &["path", "old_str", "new_str"])).unwrap();
    assert_eq!(registry.lookup("edit_file"), Ok(1));
    assert_eq!(registry.get(1).name, "edit_file");
    assert_eq!(registry.lookup("bogus"), Err(ErrorKind::UnknownTool));
}

#[test]
fn list_keeps_registration_order() {
    let mut registry = ToolRegistry::new();
    registry.register(descriptor("read_file", &["path"])).unwrap();
    registry.register(descriptor("list_files", &["path"])).unwrap();
    registry.register(descriptor("edit_file", &["path", "old_str", "new_str"])).unwrap();
    let names: Vec<&str> = registry.list().iter().map(|d| d.name.as_str()).collect();
    assert_eq!(names, vec!["read_file", "list_files", "edit_file"]);
}

#[test]
fn validation_checks_fields_both_ways() {
    let mut registry = ToolRegistry::new();
    registry.register(descriptor("edit_file", &["path", "old_str", "new_str"])).unwrap();
    let exact = call("edit_file", &[("path", "a"), ("old_str", "b"), ("new_str", "c")]);
    assert!(registry.validate(0, &exact));
    let reordered = call("edit_file", &[("new_str", "c"), ("path", "a"), ("old_str", "b")]);
    assert!(registry.validate(0, &reordered));
    let missing = call("edit_file", &[("path", "a")]);
    assert!(!registry.validate(0, &missing));
    let extra = call(
        "edit_file",
        &[("path", "a"), ("old_str", "b"), ("new_str", "c"), ("mode", "fast")],
    );
    assert!(!registry.validate(0, &extra));
}

#[test]
fn session_appends_in_order() {
    let mut session = ConversationSession::new();
    assert_eq!(session.len(), 0);
    session.append(Message { role: Role::User, content: "hi".to_string(), tool_name: None });
    session.append(Message {
        role: Role::ToolResult,
        content: "data".to_string(),
        tool_name: Some("read_file".to_string()),
    });
    assert_eq!(session.len(), 2);
    assert_eq!(session.get(0).role, Role::User);
    assert_eq!(session.get(0).content, "hi");
    assert_eq!(session.get(1).role, Role::ToolResult);
    assert_eq!(session.get(1).tool_name, Some("read_file".to_string()));
}

#[test]
fn tool_result_correlates_name_and_outcome() {
    let result = ToolResult {
        tool_name: "read_file".to_string(),
        outcome: ToolOutcome::Success("text".to_string()),
    };
    assert_eq!(result.tool_name, "read_file");
    assert!(matches!(result.outcome, ToolOutcome::Success(_)));
}

#[test]
fn error_kinds_have_readable_text() {
    assert_eq!(ErrorKind::NotFound.text(), "not found");
    assert_eq!(ErrorKind::UnknownTool.text(), "unknown tool");
    assert_eq!(ErrorKind::ValidationError.text(), "validation error");
    assert_eq!(ErrorKind::ModelCommunicationError.text(), "model communication error");
}
