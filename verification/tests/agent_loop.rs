use local_agent::agent::{AgentLoop, LoopAction, LoopState, ModelReply};
use local_agent::messages::{ParamBinding, Role, ToolCallRequest, ToolOutcome};
use local_agent::registry::{ParamField, ToolDescriptor, ToolRegistry};
use local_agent::ErrorKind;

fn registry_with_read_tool() -> ToolRegistry {
    let mut registry = ToolRegistry::new();
    registry
        .register(ToolDescriptor {
            name: "read_file".to_string(),
            description: "read a file".to_string(),
            fields: vec![ParamField {
                name: "path".to_string(),
                description: "the path".to_string(),
            }],
        })
        .unwrap();
    registry
}

fn read_call(path: &str) -> ToolCallRequest {
    ToolCallRequest {
        tool_name: "read_file".to_string(),
        parameters: vec![ParamBinding { name: "path".to_string(), value: path.to_string() }],
    }
}

#[test]
fn exit_keyword_terminates_without_contacting_model() {
    let mut agent = AgentLoop::new(registry_with_read_tool(), 8);
    let action = agent.on_user_input("   EXIT  ".to_string());
    assert!(matches!(action, LoopAction::Exit));
    assert_eq!(agent.current_state(), LoopState::Terminated);
    assert_eq!(agent.message_count(), 0);
}

#[test]
fn plain_exit_and_other_spellings() {
    let mut agent = AgentLoop::new(registry_with_read_tool(), 8);
    assert!(matches!(agent.on_user_input("exit\n".to_string()), LoopAction::Exit));

    let mut other = AgentLoop::new(registry_with_read_tool(), 8);
    let action = other.on_user_input("exits".to_string());
    assert!(matches!(action, LoopAction::QueryModel));
    assert_eq!(other.current_state(), LoopState::AwaitingModelResponse);
    assert_eq!(other.message_count(), 1);
    assert_eq!(other.message(0).role, Role::User);
    assert_eq!(other.message(0).content, "exits");
}

#[test]
fn final_answer_ends_the_turn() {
    let mut agent = AgentLoop::new(registry_with_read_tool(), 8);
    agent.on_user_input("hello".to_string());
    let action = agent.on_model_reply(ModelReply::FinalAnswer("hi there".to_string()));
    match action {
        LoopAction::EmitAnswer(text) => assert_eq!(text, "hi there"),
        _ => panic!("expected an answer"),
    }
    assert_eq!(agent.current_state(), LoopState::AwaitingUserInput);
    assert_eq!(agent.message_count(), 2);
    assert_eq!(agent.message(1).role, Role::Assistant);
    assert_eq!(agent.message(1).content, "hi there");
}

#[test]
fn communication_failure_abandons_turn_without_logging() {
    let mut agent = AgentLoop::new(registry_with_read_tool(), 8);
    agent.on_user_input("hello".to_string());
    let action = agent.on_model_reply(ModelReply::CommunicationFailure("timeout".to_string()));
    match action {
        LoopAction::ReportError(kind, reason) => {
            assert_eq!(kind, ErrorKind::ModelCommunicationError);
            assert_eq!(reason, "timeout");
        }
        _ => panic!("expected an error report"),
    }
    assert_eq!(agent.current_state(), LoopState::AwaitingUserInput);
    assert_eq!(agent.message_count(), 1);
}

#[test]
fn two_calls_second_unknown_resolve_in_request_order() {
    let mut agent = AgentLoop::new(registry_with_read_tool(), 8);
    agent.on_user_input("hi".to_string());
    let bogus = ToolCallRequest { tool_name: "bogus".to_string(), parameters: vec![] };
    let action =
        agent.on_model_reply(ModelReply::ToolCalls(vec![read_call("/tmp/x"), bogus]));
    assert!(matches!(action, LoopAction::Resolved));
    assert_eq!(agent.current_state(), LoopState::ExecutingTool);

    // First call: well-formed, handed out for invocation.
    match agent.advance_dispatch() {
        LoopAction::InvokeTool(registry_index, call_index) => {
            assert_eq!(registry_index, 0);
            assert_eq!(call_index, 0);
            assert_eq!(agent.pending_call(call_index).tool_name, "read_file");
        }
        _ => panic!("expected an invocation"),
    }
    assert!(matches!(
        agent.on_tool_outcome(ToolOutcome::Success("file text".to_string())),
        LoopAction::Resolved
    ));

    // Second call: unknown tool, answered with a synthesized error result.
    assert!(matches!(agent.advance_dispatch(), LoopAction::Resolved));

    // Round resolved: the model is consulted again.
    assert!(matches!(agent.advance_dispatch(), LoopAction::QueryModel));
    assert_eq!(agent.current_state(), LoopState::AwaitingModelResponse);

    assert_eq!(agent.message_count(), 3);
    assert_eq!(agent.message(0).role, Role::User);
    assert_eq!(agent.message(1).role, Role::ToolResult);
    assert_eq!(agent.message(1).content, "file text");
    assert_eq!(agent.message(1).tool_name, Some("read_file".to_string()));
    assert_eq!(agent.message(2).role, Role::ToolResult);
    assert_eq!(agent.message(2).content, "unknown tool");
    assert_eq!(agent.message(2).tool_name, Some("bogus".to_string()));
}

#[test]
fn mismatched_parameters_yield_validation_error_result() {
    let mut agent = AgentLoop::new(registry_with_read_tool(), 8);
    agent.on_user_input("hi".to_string());
    let wrong = ToolCallRequest {
        tool_name: "read_file".to_string(),
        parameters: vec![ParamBinding { name: "file".to_string(), value: "x".to_string() }],
    };
    agent.on_model_reply(ModelReply::ToolCalls(vec![wrong]));
    assert!(matches!(agent.advance_dispatch(), LoopAction::Resolved));
    assert_eq!(agent.message_count(), 2);
    assert_eq!(agent.message(1).role, Role::ToolResult);
    assert_eq!(agent.message(1).content, "validation error");
    assert!(matches!(agent.advance_dispatch(), LoopAction::QueryModel));
}

#[test]
fn tool_failures_are_fed_back_not_raised() {
    let mut agent = AgentLoop::new(registry_with_read_tool(), 8);
    agent.on_user_input("hi".to_string());
    agent.on_model_reply(ModelReply::ToolCalls(vec![read_call("/tmp/missing")]));
    assert!(matches!(agent.advance_dispatch(), LoopAction::InvokeTool(0, 0)));
    agent.on_tool_outcome(ToolOutcome::Failure(
        ErrorKind::NotAFile,
        "not a file".to_string(),
    ));
    assert_eq!(agent.current_state(), LoopState::ExecutingTool);
    assert_eq!(agent.message(1).content, "not a file");
    assert!(matches!(agent.advance_dispatch(), LoopAction::QueryModel));
}

#[test]
fn round_budget_bounds_a_turn() {
    let mut agent = AgentLoop::new(registry_with_read_tool(), 1);
    agent.on_user_input("hi".to_string());
    agent.on_model_reply(ModelReply::ToolCalls(vec![read_call("/tmp/x")]));
    assert!(matches!(agent.advance_dispatch(), LoopAction::InvokeTool(0, 0)));
    agent.on_tool_outcome(ToolOutcome::Success("text".to_string()));
    assert!(matches!(agent.advance_dispatch(), LoopAction::QueryModel));
    // The model asks for yet another round, but the budget is one per turn.
    let action = agent.on_model_reply(ModelReply::ToolCalls(vec![read_call("/tmp/y")]));
    assert!(matches!(action, LoopAction::RoundLimitReached));
    assert_eq!(agent.current_state(), LoopState::AwaitingUserInput);
    // A fresh turn gets a fresh budget.
    agent.on_user_input("again".to_string());
    let action = agent.on_model_reply(ModelReply::ToolCalls(vec![read_call("/tmp/z")]));
    assert!(matches!(action, LoopAction::Resolved));
}
