use mimi::agent_loop::{
    approval_outcome, approve_tool_call, attach_tool_outputs, begin_iteration, commit_iteration,
    decide_tool_call, round_tool_calls, plan_tool_call, prepare_turn, record_event, summary_tokens_fit, tool_call_output,
    ToolCallError, ToolCallStep, ToolOutcome, COMPACTION_PROMPT,
};
use mimi::approval::{ApprovalDecision, ApprovalHandler, ApprovalRequest};
use mimi::context::Context;
use mimi::models::{all_models, get_model};
use mimi::parser::{
    AgentEventItem, Content, OpenRouterEvents, ResponseCompletedItem, ResponseStatus, Role, Usage,
};
use mimi::tools::SystemTools;

struct RejectApproval {
    requests: Vec<(String, String, String)>,
}

impl ApprovalHandler for RejectApproval {
    fn request_approval(&mut self, request: &ApprovalRequest<'_>) -> Result<ApprovalDecision, String> {
        self.requests.push((
            request.call_id.to_string(),
            request.tool_name.to_string(),
            request.arguments.to_string(),
        ));
        Ok(ApprovalDecision::Rejected)
    }
}

struct FailingApproval;

impl ApprovalHandler for FailingApproval {
    fn request_approval(&mut self, _request: &ApprovalRequest<'_>) -> Result<ApprovalDecision, String> {
        Err("stdin closed".to_string())
    }
}

struct CountingApproval {
    asked: usize,
}

impl ApprovalHandler for CountingApproval {
    fn request_approval(&mut self, _request: &ApprovalRequest<'_>) -> Result<ApprovalDecision, String> {
        self.asked += 1;
        Ok(ApprovalDecision::Approved)
    }
}

fn tool_call(name: &str, arguments: &str) -> AgentEventItem {
    AgentEventItem::ToolCall {
        id: "item_123".to_string(),
        status: ResponseStatus::Completed,
        call_id: "call_123".to_string(),
        name: name.to_string(),
        arguments: arguments.to_string(),
    }
}

fn text_of(item: &AgentEventItem) -> Option<String> {
    match item {
        AgentEventItem::Message { content, role: Role::User, .. } if content.len() == 1 => {
            Some(content[0].text.clone())
        }
        _ => None,
    }
}

#[test]
fn rejected_tool_call_returns_output_without_executing() {
    let item = tool_call("bash", r#"{"command":"should-not-run"}"#);
    let mut approval_handler = RejectApproval { requests: Vec::new() };

    let output = match decide_tool_call(&item, &mut approval_handler).unwrap() {
        ToolCallStep::Answered(output) => output,
        ToolCallStep::Run(_) => panic!("a rejected call must not run"),
    };
    assert_eq!(
        approval_handler.requests,
        vec![(
            "call_123".to_string(),
            "bash".to_string(),
            r#"{"command":"should-not-run"}"#.to_string()
        )]
    );

    match output {
        AgentEventItem::ToolCallOutput { id, call_id, output } => {
            assert_eq!(id, "item_123_output");
            assert_eq!(call_id, "call_123");
            let output: serde_json::Value = serde_json::from_str(&output).unwrap();
            assert_eq!(output["status"], "tool call rejected by user");
        }
        _ => panic!("expected tool call output"),
    }
}

#[test]
fn decided_calls_run_or_fail_as_the_handler_says() {
    let mut handler = CountingApproval { asked: 0 };
    match decide_tool_call(&tool_call("edit_file", "{}"), &mut handler).unwrap() {
        ToolCallStep::Run(plan) => assert_eq!(plan.tool, SystemTools::EditFile),
        ToolCallStep::Answered(_) => panic!("an approved call runs"),
    }
    assert_eq!(handler.asked, 1);
    match decide_tool_call(&tool_call("search_content", "{}"), &mut handler).unwrap() {
        ToolCallStep::Run(plan) => assert_eq!(plan.tool, SystemTools::SearchContent),
        ToolCallStep::Answered(_) => panic!("a search runs without asking"),
    }
    assert_eq!(handler.asked, 1);
    assert!(matches!(
        decide_tool_call(&tool_call("rm_rf", "{}"), &mut handler),
        Err(ToolCallError::UnknownTool(_))
    ));
    assert_eq!(handler.asked, 1);
    match decide_tool_call(&tool_call("write_to_file", "{}"), &mut FailingApproval) {
        Err(ToolCallError::Approval(message)) => assert_eq!(message, "stdin closed"),
        _ => panic!("a failure to ask is the error"),
    }
}

#[test]
fn tools_without_approval_run_without_asking() {
    let item = tool_call("read_file", r#"{"path":"a"}"#);
    let plan = plan_tool_call(&item).unwrap();
    let mut handler = CountingApproval { asked: 0 };
    assert!(approve_tool_call(&plan, &mut handler).unwrap());
    assert_eq!(handler.asked, 0);

    let item = tool_call("write_to_file", "{}");
    let plan = plan_tool_call(&item).unwrap();
    assert!(approve_tool_call(&plan, &mut handler).unwrap());
    assert_eq!(handler.asked, 1);
}

#[test]
fn unknown_tools_and_other_items_are_refused() {
    match plan_tool_call(&tool_call("rm_rf", "{}")) {
        Err(ToolCallError::UnknownTool(name)) => assert_eq!(name, "rm_rf"),
        other => panic!("unexpected {:?}", other.is_ok()),
    }
    let message = AgentEventItem::new_user_message("hi".to_string());
    assert!(matches!(plan_tool_call(&message), Err(ToolCallError::NotAToolCall)));
}

#[test]
fn planned_calls_get_search_or_session_only_when_needed() {
    let plan = plan_tool_call(&tool_call("search_files", "{}")).unwrap();
    assert_eq!(plan.tool, SystemTools::SearchFiles);
    assert!(plan.needs_search());
    assert!(!plan.needs_session());
    let plan = plan_tool_call(&tool_call("create_todo_list", "{}")).unwrap();
    assert!(plan.needs_session());
    assert!(!plan.needs_search());
}

#[test]
fn tool_outputs_are_json_text() {
    let plan = plan_tool_call(&tool_call("bash", "{}")).unwrap();
    let ok = tool_call_output(&plan, ToolOutcome::Succeeded(r#"{"output":"hi"}"#.to_string()));
    match ok {
        AgentEventItem::ToolCallOutput { id, output, .. } => {
            assert_eq!(id, "item_123_output");
            assert_eq!(output, r#"{"output":"hi"}"#);
        }
        _ => panic!("expected tool call output"),
    }
    let failed =
        tool_call_output(&plan, ToolOutcome::Failed("bad \"quote\"\nline\u{1}".to_string()));
    match failed {
        AgentEventItem::ToolCallOutput { output, .. } => {
            assert_eq!(output, "{\"error\":\"bad \\\"quote\\\"\\nline\\u0001\"}");
            let value: serde_json::Value = serde_json::from_str(&output).unwrap();
            assert_eq!(value["error"], "bad \"quote\"\nline\u{1}");
        }
        _ => panic!("expected tool call output"),
    }
}

#[test]
fn a_full_context_queues_the_prompt_and_requests_a_summary() {
    let models = all_models();
    let model = get_model(&None, &models).unwrap();
    let mut context = Context::new(model);
    let prompt = "next question".to_string();

    let start = prepare_turn(&context, &prompt, false).unwrap();
    assert!(!start.compaction);
    assert_eq!(text_of(&start.request_msg).unwrap(), "next question");
    assert!(start.user_msg_queue.is_empty());

    context.usage.total_tokens = 40000;
    let start = prepare_turn(&context, &prompt, false).unwrap();
    assert!(start.compaction);
    assert_eq!(text_of(&start.request_msg).unwrap(), COMPACTION_PROMPT);
    assert_eq!(text_of(&start.user_msg).unwrap(), "next question");
    assert_eq!(start.user_msg_queue.len(), 1);
    assert_eq!(text_of(&start.user_msg_queue[0]).unwrap(), "next question");

    // the first message of a session is never compacted
    let start = prepare_turn(&context, &prompt, true).unwrap();
    assert!(!start.compaction);
}

#[test]
fn a_round_compacts_when_the_limit_is_hit() {
    let models = all_models();
    let model = get_model(&None, &models).unwrap();
    let mut context = Context::new(model);
    let mut compaction = false;

    assert_eq!(begin_iteration(&mut context, &mut compaction, true), Ok(true));
    assert!(context.event_logs.is_empty());

    context.usage.total_tokens = 40001;
    assert_eq!(begin_iteration(&mut context, &mut compaction, true), Ok(true));
    assert!(!compaction);
    assert_eq!(begin_iteration(&mut context, &mut compaction, false), Ok(false));
    assert!(compaction);
    assert_eq!(context.event_logs.len(), 1);
    assert_eq!(text_of(&context.event_logs[0]).unwrap(), COMPACTION_PROMPT);
}

fn assistant_message(text: &str) -> AgentEventItem {
    AgentEventItem::Message {
        id: Some("msg".to_string()),
        status: Some(ResponseStatus::Completed),
        role: Role::Assistant,
        content: vec![Content {
            content_type: "output_text".to_string(),
            text: text.to_string(),
            annotations: None,
        }],
    }
}

fn completed(usage: Option<Usage>) -> OpenRouterEvents {
    OpenRouterEvents::ResponseCompleted {
        response: ResponseCompletedItem { id: "resp".to_string(), completed_at: 1, usage },
    }
}

#[test]
fn events_fill_the_round_and_update_usage() {
    let models = all_models();
    let model = get_model(&None, &models).unwrap();
    let mut context = Context::new(model);
    let mut tmp = Vec::new();

    let empty_reasoning = AgentEventItem::Reasoning {
        id: "r".to_string(),
        status: ResponseStatus::Completed,
        summary: vec![],
        encrypted_content: None,
        format: None,
    };
    record_event(
        &mut context,
        &mut tmp,
        false,
        OpenRouterEvents::ResponseOutputItemDone { output_index: 0, item: empty_reasoning },
    )
    .unwrap();
    assert!(tmp.is_empty());
    record_event(
        &mut context,
        &mut tmp,
        false,
        OpenRouterEvents::ResponseOutputItemDone { output_index: 1, item: assistant_message("12345678") },
    )
    .unwrap();
    assert_eq!(tmp.len(), 1);

    let reported = Usage { input_tokens: 10, output_tokens: 5, total_tokens: 15 };
    record_event(&mut context, &mut tmp, false, completed(Some(reported))).unwrap();
    assert_eq!(context.usage, reported);

    assert!(summary_tokens_fit(&tmp));
    record_event(&mut context, &mut tmp, true, completed(Some(reported))).unwrap();
    assert_eq!(context.usage, Usage { input_tokens: 0, output_tokens: 2, total_tokens: 2 });
}

#[test]
fn recording_a_round_leaves_the_conversation_alone() {
    let models = all_models();
    let model = get_model(&None, &models).unwrap();
    let mut context = Context::new(model);
    context.event_logs.push(AgentEventItem::new_user_message("first".to_string()));
    let mut tmp = Vec::new();
    record_event(
        &mut context,
        &mut tmp,
        false,
        OpenRouterEvents::ResponseOutputItemDone { output_index: 0, item: tool_call("bash", "{}") },
    )
    .unwrap();
    record_event(&mut context, &mut tmp, false, completed(None)).unwrap();
    assert_eq!(tmp.len(), 1);
    assert_eq!(context.event_logs.len(), 1);
    assert_eq!(text_of(&context.event_logs[0]), Some("first".to_string()));
    let mut failing = FailingApproval;
    assert!(decide_tool_call(&tmp[0], &mut failing).is_err());
    assert_eq!(context.event_logs.len(), 1);
}

#[test]
fn committing_a_round_keeps_or_replaces_history() {
    let models = all_models();
    let model = get_model(&None, &models).unwrap();
    let mut context = Context::new(model);
    context.event_logs.push(AgentEventItem::new_user_message("first".to_string()));

    let mut tmp = vec![assistant_message("answer")];
    let stop = attach_tool_outputs(&mut tmp, vec![], true);
    assert!(stop);
    let mut compaction = false;
    let mut queue = Vec::new();
    assert!(commit_iteration(&mut context, tmp, &mut compaction, &mut queue, stop));
    assert_eq!(context.event_logs.len(), 2);

    let mut tmp = vec![assistant_message("summary")];
    let plan = plan_tool_call(&tool_call("bash", "{}")).unwrap();
    let out = tool_call_output(&plan, ToolOutcome::Rejected);
    let stop = attach_tool_outputs(&mut tmp, vec![out], true);
    assert!(!stop);
    assert_eq!(tmp.len(), 2);

    let mut compaction = true;
    let mut queue = vec![AgentEventItem::new_user_message("queued".to_string())];
    assert!(!commit_iteration(&mut context, tmp, &mut compaction, &mut queue, true));
    assert!(!compaction);
    assert!(queue.is_empty());
    assert_eq!(context.event_logs.len(), 3);
    assert_eq!(text_of(&context.event_logs[2]).unwrap(), "queued");
}

#[test]
fn handler_answers_decide_the_call() {
    assert!(matches!(approval_outcome(Ok(ApprovalDecision::Approved)), Ok(true)));
    assert!(matches!(approval_outcome(Ok(ApprovalDecision::Rejected)), Ok(false)));
    match approval_outcome(Err("stdin closed".to_string())) {
        Err(ToolCallError::Approval(message)) => assert_eq!(message, "stdin closed"),
        _ => panic!("expected an approval error"),
    }
}

#[test]
fn a_round_answers_each_call_in_order() {
    let mut first = tool_call("read_file", r#"{"path":"a"}"#);
    if let AgentEventItem::ToolCall { id, call_id, .. } = &mut first {
        *id = "item_1".to_string();
        *call_id = "call_1".to_string();
    }
    let second = tool_call("search_files", "{}");
    let items = vec![assistant_message("thinking"), first, assistant_message("more"), second];
    let positions = round_tool_calls(&items);
    assert_eq!(positions, vec![1, 3]);
    assert!(round_tool_calls(&vec![assistant_message("none")]).is_empty());

    let mut handler = CountingApproval { asked: 0 };
    let mut outputs = Vec::new();
    for p in &positions {
        match decide_tool_call(&items[*p], &mut handler).unwrap() {
            ToolCallStep::Run(plan) => {
                outputs.push(tool_call_output(&plan, ToolOutcome::Succeeded("{}".to_string())))
            }
            ToolCallStep::Answered(output) => outputs.push(output),
        }
    }
    let mut round = items;
    let stop = attach_tool_outputs(&mut round, outputs, true);
    assert!(!stop);
    let ids: Vec<String> = round[4..]
        .iter()
        .map(|o| match o {
            AgentEventItem::ToolCallOutput { call_id, .. } => call_id.clone(),
            _ => panic!("expected tool call outputs"),
        })
        .collect();
    assert_eq!(ids, vec!["call_1".to_string(), "call_123".to_string()]);
}

#[test]
fn queued_messages_reach_the_next_request() {
    let models = all_models();
    let model = get_model(&None, &models).unwrap();
    let mut context = Context::new(model);
    context.event_logs.push(AgentEventItem::new_user_message("first".to_string()));
    let mut compaction = false;
    let mut queue = vec![AgentEventItem::new_user_message("later".to_string())];
    let round = vec![assistant_message("answer")];
    let stop = commit_iteration(&mut context, round, &mut compaction, &mut queue, true);
    assert!(!stop);
    assert!(queue.is_empty());
    assert!(!compaction);
    let next = begin_iteration(&mut context, &mut compaction, stop).unwrap();
    assert!(next);
    assert_eq!(context.event_logs.len(), 3);
    assert_eq!(text_of(&context.event_logs[0]).unwrap(), "first");
    assert_eq!(text_of(&context.event_logs[2]).unwrap(), "later");
}
