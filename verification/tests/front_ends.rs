use mimi::approval::ApprovalDecision;
use mimi::events::{session_log_file_name, SessionError};
use mimi::interactive::{approval_input, approval_reply, input_action, InputAction};
use mimi::json::{idle_command, idle_line, pending_approval_step, IdleLine, IdleStep, JsonInput, PendingApprovalStep};
use mimi::models::{all_models, get_model, ModelError, ModelRegistry, Providers, DEFAULT_MODEL};
use mimi::parser::{AgentEventItem, ContextManagement, EffortLevel, ResponseRequest};
use mimi::runtime::effort_from_name;

#[test]
fn interactive_replies_decide_or_ask_again() {
    assert_eq!(approval_reply("y"), Some(ApprovalDecision::Approved));
    assert_eq!(approval_reply(" Yes\n"), Some(ApprovalDecision::Approved));
    assert_eq!(approval_reply("N"), Some(ApprovalDecision::Rejected));
    assert_eq!(approval_reply("no"), Some(ApprovalDecision::Rejected));
    assert_eq!(approval_reply("\n"), Some(ApprovalDecision::Rejected));
    assert_eq!(approval_reply("maybe"), None);
    assert_eq!(input_action("exit"), InputAction::Exit);
    assert_eq!(input_action(""), InputAction::Empty);
    assert_eq!(input_action("exit now"), InputAction::Prompt);
    assert_eq!(approval_input(None), Some(ApprovalDecision::Rejected));
    assert_eq!(approval_input(Some("yes")), Some(ApprovalDecision::Approved));
    assert_eq!(approval_input(Some("later")), None);
}

#[test]
fn pending_calls_are_rejected_at_end_of_input_and_wait_on_bad_lines() {
    assert!(matches!(
        pending_approval_step(None, "call_1"),
        PendingApprovalStep::Decided(ApprovalDecision::Rejected)
    ));
    match pending_approval_step(Some(Err("expected value".to_string())), "call_1") {
        PendingApprovalStep::Unparsable(details) => assert_eq!(details, "expected value"),
        _ => panic!("expected an unparsable line"),
    }
}

#[test]
fn idle_json_lines_are_classified() {
    assert_eq!(idle_line(None), IdleLine::EndOfInput);
    assert_eq!(idle_line(Some("")), IdleLine::Empty);
    assert_eq!(idle_line(Some("{}")), IdleLine::Command);
    match idle_command(Ok(JsonInput::Prompt { text: "hi".to_string() })) {
        IdleStep::Prompt(text) => assert_eq!(text, "hi"),
        _ => panic!("expected a prompt"),
    }
    match idle_command(Ok(JsonInput::Approval { call_id: "call_9".to_string(), approved: false })) {
        IdleStep::NoPendingApproval { call_id, approved } => {
            assert_eq!(call_id, "call_9");
            assert!(!approved);
        }
        _ => panic!("expected an approval with nothing pending"),
    }
    assert!(matches!(idle_command(Ok(JsonInput::Exit)), IdleStep::Exit));
    match idle_command(Err("missing field `type`".to_string())) {
        IdleStep::Unparsable(details) => assert_eq!(details, "missing field `type`"),
        _ => panic!("expected an unparsable line"),
    }
}

#[test]
fn only_the_pending_call_is_decided() {
    let approve = JsonInput::Approval { call_id: "call_1".to_string(), approved: true };
    assert!(matches!(
        pending_approval_step(Some(Ok(approve)), "call_1"),
        PendingApprovalStep::Decided(ApprovalDecision::Approved)
    ));
    let reject = JsonInput::Approval { call_id: "call_1".to_string(), approved: false };
    assert!(matches!(
        pending_approval_step(Some(Ok(reject)), "call_1"),
        PendingApprovalStep::Decided(ApprovalDecision::Rejected)
    ));
    let other = JsonInput::Approval { call_id: "call_2".to_string(), approved: true };
    match pending_approval_step(Some(Ok(other)), "call_1") {
        PendingApprovalStep::CallIdMismatch { expected, received } => {
            assert_eq!(expected, "call_1");
            assert_eq!(received, "call_2");
        }
        _ => panic!("expected a mismatch"),
    }
    assert!(matches!(
        pending_approval_step(Some(Ok(JsonInput::Prompt { text: "hi".to_string() })), "call_1"),
        PendingApprovalStep::PromptWhilePending
    ));
    assert!(matches!(
        pending_approval_step(Some(Ok(JsonInput::Exit)), "call_1"),
        PendingApprovalStep::ExitWhilePending
    ));
}

#[test]
fn effort_levels_by_name() {
    assert_eq!(effort_from_name("minimal"), Some(EffortLevel::Minimal));
    assert_eq!(effort_from_name("low"), Some(EffortLevel::Low));
    assert_eq!(effort_from_name("medium"), Some(EffortLevel::Medium));
    assert_eq!(effort_from_name("high"), Some(EffortLevel::High));
    assert_eq!(effort_from_name("max"), None);
}

#[test]
fn session_logs_need_an_identifier() {
    assert_eq!(session_log_file_name(""), Err(SessionError::SessionIdRequired));
    assert_eq!(session_log_file_name("abc"), Ok("abc.jsonl".to_string()));
}

#[test]
fn the_default_model_is_in_the_catalog() {
    let models = all_models();
    assert_eq!(models.len(), 2);
    let model = get_model(&None, &models).unwrap();
    assert_eq!(model.full_identifier(), DEFAULT_MODEL);
    let mini = get_model(&Some("openai/gpt-5.4-mini".to_string()), &models).unwrap();
    assert_eq!(mini.name, "GPT 5.4 Mini");
    assert_eq!(mini.context_window, 400000);
    match get_model(&Some("openai/unknown".to_string()), &models) {
        Err(e @ ModelError::UnknownModel(_)) => assert_eq!(e.message(), "unknown model: openai/unknown"),
        Ok(_) => panic!("expected an unknown model"),
    }
    assert_eq!(Providers::MoonshotAI.slug(), "moonshotai");
}

#[test]
fn registering_a_model_twice_replaces_it() {
    let catalog = mimi::models::openai::models();
    let mut registry = ModelRegistry::new();
    for m in catalog {
        registry.insert(m);
    }
    let mut replacement = mimi::models::openai::models().remove(0);
    replacement.name = "Renamed".to_string();
    registry.insert(replacement);
    assert_eq!(registry.len(), 2);
    assert_eq!(registry.get("openai/gpt-5.4-mini").unwrap().name, "Renamed");
    assert!(registry.get("anthropic/gpt-5.4-mini").is_none());
}

#[test]
fn requests_offer_every_tool() {
    let input = vec![AgentEventItem::new_user_message("hi".to_string())];
    let prompt = Some("system".to_string());
    let effort = EffortLevel::High;
    let request = ResponseRequest::new("openai/gpt-5.6-sol".to_string(), &input, Some(&effort), &prompt);
    assert!(request.stream);
    assert_eq!(request.tools.as_ref().unwrap().len(), 7);
    assert_eq!(request.tool_choice.as_deref(), Some("auto"));
    assert_eq!(*request.reasoning.as_ref().unwrap().effort, EffortLevel::High);
    let cm = request.context_management.as_ref().unwrap();
    assert_eq!(cm[0].kind, "compaction");
    assert_eq!(cm[0].compact_threshold, 200000);
    let default = ContextManagement::default();
    assert_eq!(default.compact_threshold, 200000);
    let none = ResponseRequest::new("m".to_string(), &input, None, &prompt);
    assert!(none.reasoning.is_none());
}
