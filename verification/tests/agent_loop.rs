use gitclaw::agent::Agent;
use gitclaw::agent_loop::{
    aborted_tool_result, build_context, build_simple_options, execution_outcome, finish_tool_call, plan_from_check,
    plan_tool_call, stream_start_failure, tool_calls_of, tool_start_event, AgentLoop, LoopAction, LoopPhase,
    ResponseCollector, ToolCallPlan,
};
use gitclaw::agent_types::{AgentEvent, AgentThinkingLevel, AgentToolResult};
use gitclaw::ai_types::{
    AssistantMessage, AssistantMessageEvent, ContentBlock, Message, StopReason, TextContent, ThinkingLevel, Tool,
    ToolCall, ToolResultContent, ToolResultMessage, UserContent, UserMessage,
};
use gitclaw::data::DataValue;
use gitclaw::errors::{AgentError, PiAiError};
use gitclaw::models::get_model;

fn user(text: &str) -> Message {
    Message::User(UserMessage { content: UserContent::Text(text.to_string()), timestamp: 1 })
}

fn call(id: &str, name: &str) -> ToolCall {
    ToolCall {
        id: id.to_string(),
        name: name.to_string(),
        arguments: vec![("command".to_string(), DataValue::text("ls"))],
        thought_signature: None,
    }
}

fn reply(text: &str, calls: Vec<ToolCall>, stop: StopReason) -> AssistantMessage {
    let mut m = AssistantMessage::empty();
    m.content.push(ContentBlock::Text(TextContent { text: text.to_string(), text_signature: None }));
    for c in calls {
        m.content.push(ContentBlock::ToolCall(c));
    }
    m.stop_reason = stop;
    m
}

fn text_of(res: &AgentToolResult) -> String {
    match &res.content[0] {
        ToolResultContent::Text(t) => t.text.clone(),
        _ => panic!("expected text"),
    }
}

#[test]
fn a_turn_without_tools_ends_the_run() {
    let (mut lp, evs) = AgentLoop::start(vec![user("hi")]);
    assert!(matches!(evs[0], AgentEvent::AgentStart));
    let (act, evs) = lp.begin_turn(false);
    assert!(matches!(act, LoopAction::StreamResponse));
    assert!(matches!(evs[0], AgentEvent::TurnStart { turn: 1 }));
    let (act, evs) = lp.on_response(Some(reply("hello", vec![], StopReason::Stop)));
    assert!(matches!(act, LoopAction::Stop));
    assert_eq!(evs.len(), 3);
    assert!(matches!(evs[0], AgentEvent::MessageEnd { .. }));
    assert!(matches!(evs[1], AgentEvent::TurnEnd { turn: 1 }));
    assert!(matches!(evs[2], AgentEvent::AgentEnd));
    assert_eq!(lp.messages.len(), 2);
    assert_eq!(lp.phase, LoopPhase::Finished);
}

#[test]
fn tool_calls_run_and_their_results_join_the_history() {
    let (mut lp, _) = AgentLoop::start(vec![user("list")]);
    lp.begin_turn(false);
    let (act, evs) = lp.on_response(Some(reply("", vec![call("c1", "cli")], StopReason::ToolUse)));
    assert_eq!(evs.len(), 1);
    let calls = match act {
        LoopAction::ExecuteTools(calls) => calls,
        _ => panic!("expected tool calls"),
    };
    assert_eq!(calls.len(), 1);
    assert_eq!(calls[0].id, "c1");
    let res = ToolResultMessage {
        tool_call_id: "c1".to_string(),
        tool_name: "cli".to_string(),
        content: vec![],
        details: None,
        is_error: false,
        timestamp: 5,
    };
    let evs = lp.on_tool_results(vec![res]);
    assert!(matches!(evs[0], AgentEvent::TurnEnd { turn: 1 }));
    assert_eq!(lp.messages.len(), 3);
    assert!(matches!(lp.messages[2], Message::ToolResult(_)));
    let (_, evs) = lp.begin_turn(false);
    assert!(matches!(evs[0], AgentEvent::TurnStart { turn: 2 }));
}

#[test]
fn tool_calls_without_tool_use_stop_end_the_run() {
    let (mut lp, _) = AgentLoop::start(vec![]);
    lp.begin_turn(false);
    let (act, _) = lp.on_response(Some(reply("", vec![call("c1", "cli")], StopReason::Stop)));
    assert!(matches!(act, LoopAction::Stop));
}

#[test]
fn cancellation_and_missing_responses_end_the_run() {
    let (mut lp, _) = AgentLoop::start(vec![user("a")]);
    let (act, evs) = lp.begin_turn(true);
    assert!(matches!(act, LoopAction::Stop));
    assert!(matches!(evs[0], AgentEvent::AgentEnd));
    assert_eq!(lp.turn, 0);
    let (mut lp, _) = AgentLoop::start(vec![user("a")]);
    lp.begin_turn(false);
    let (act, evs) = lp.on_response(None);
    assert!(matches!(act, LoopAction::Stop));
    assert!(matches!(evs[0], AgentEvent::AgentEnd));
    assert_eq!(lp.messages.len(), 1);
}

#[test]
fn tool_calls_are_picked_out_in_order() {
    let m = reply("x", vec![call("1", "a"), call("2", "b")], StopReason::ToolUse);
    let calls = tool_calls_of(&m.content);
    assert_eq!(calls.iter().map(|c| c.id.clone()).collect::<Vec<_>>(), vec!["1".to_string(), "2".to_string()]);
}

#[test]
fn context_has_tools_only_when_there_are_some() {
    let c = build_context(Some("sys".to_string()), vec![user("a")], vec![]);
    assert!(c.tools.is_none());
    let t = Tool { name: "t".to_string(), description: String::new(), parameters: DataValue::Null };
    let c = build_context(None, vec![], vec![t]);
    assert_eq!(c.tools.unwrap().len(), 1);
}

#[test]
fn options_carry_the_thinking_level() {
    let o = build_simple_options(None, Some(10), AgentThinkingLevel::High);
    assert_eq!(o.reasoning, Some(ThinkingLevel::High));
    assert_eq!(o.base.max_tokens, Some(10));
    let o = build_simple_options(None, None, AgentThinkingLevel::Off);
    assert_eq!(o.reasoning, None);
}

#[test]
fn failed_stream_start_becomes_an_error_response() {
    let model = get_model("openai", "gpt-4o-mini").unwrap();
    let (m, ev) = stream_start_failure(&model, &PiAiError::NoProvider("x".to_string()), 42);
    assert_eq!(m.stop_reason, StopReason::Error);
    assert_eq!(m.error_message.as_deref(), Some("Failed to start stream: No API provider registered for api: x"));
    assert_eq!(m.model, "gpt-4o-mini");
    assert_eq!(m.timestamp, 42);
    assert!(matches!(
        ev,
        AgentEvent::MessageUpdate { assistant_message_event: AssistantMessageEvent::Error { reason: StopReason::Error, .. } }
    ));
}

#[test]
fn collector_keeps_the_final_message() {
    let mut c = ResponseCollector::new();
    let (_, terminal) = c.on_event(AssistantMessageEvent::TextDelta {
        content_index: 0,
        delta: "x".to_string(),
        partial: AssistantMessage::empty(),
    });
    assert!(!terminal);
    assert!(c.last.is_none());
    let (_, terminal) = c.on_event(AssistantMessageEvent::Done { reason: StopReason::Stop, message: reply("done", vec![], StopReason::Stop) });
    assert!(terminal);
    let aborted = c.aborted(9);
    assert_eq!(aborted.stop_reason, StopReason::Aborted);
    assert_eq!(aborted.timestamp, 9);
    assert_eq!(aborted.content.len(), 1);
}

#[test]
fn cancelled_calls_are_recorded_as_aborted() {
    let r = aborted_tool_result(&call("c", "cli"), 3);
    assert!(r.is_error);
    assert_eq!(r.tool_call_id, "c");
    match &r.content[0] {
        ToolResultContent::Text(t) => assert_eq!(t.text, "Operation aborted"),
        _ => panic!("expected text"),
    }
    assert!(matches!(tool_start_event(&call("c", "cli")), AgentEvent::ToolExecutionStart { .. }));
}

#[test]
fn unknown_tools_fail_without_running() {
    let names = vec!["read".to_string()];
    match plan_tool_call(&names, &[], &call("c", "cli")) {
        ToolCallPlan::Fail(res) => assert_eq!(text_of(&res), "Tool 'cli' not found"),
        _ => panic!("expected a failure"),
    }
}

#[test]
fn tools_without_schema_fail_validation() {
    let names = vec!["cli".to_string()];
    match plan_tool_call(&names, &[], &call("c", "cli")) {
        ToolCallPlan::Fail(res) => assert_eq!(text_of(&res), "Argument validation failed: Tool not found: cli"),
        _ => panic!("expected a failure"),
    }
}

#[test]
fn validated_calls_run_with_their_arguments() {
    let names = vec!["cli".to_string()];
    let schema = DataValue::obj1("type", DataValue::text("object"));
    let tools = vec![Tool { name: "cli".to_string(), description: String::new(), parameters: schema }];
    match plan_tool_call(&names, &tools, &call("c", "cli")) {
        ToolCallPlan::Run(args) => {
            assert_eq!(args.len(), 1);
            assert_eq!(args[0].0, "command");
        },
        _ => panic!("expected a run"),
    }
    match plan_from_check(&call("c", "cli"), Some(Ok(DataValue::Null))) {
        ToolCallPlan::Run(args) => assert_eq!(args[0].0, "command"),
        _ => panic!("expected a run"),
    }
}

#[test]
fn outcomes_become_results() {
    let (res, err) = execution_outcome(Err("boom".to_string()));
    assert!(err);
    assert_eq!(text_of(&res), "boom");
    let (ev, msg) = finish_tool_call(&call("c", "cli"), res, err, 11);
    assert!(msg.is_error);
    assert_eq!(msg.timestamp, 11);
    assert!(matches!(ev, AgentEvent::ToolExecutionEnd { is_error: true, .. }));
}

#[test]
fn a_prompt_is_refused_while_streaming() {
    let model = get_model("openai", "gpt-4o-mini").unwrap();
    let mut agent = Agent::new(None, model, None, None, None);
    assert_eq!(agent.thinking_level, AgentThinkingLevel::Off);
    assert!(agent.prompt("hello", 7).is_ok());
    assert_eq!(agent.messages.len(), 1);
    assert!(agent.is_streaming);
    assert!(matches!(agent.prompt("again", 8), Err(AgentError::AlreadyStreaming)));
    assert_eq!(agent.messages.len(), 1);
    agent.finish_run(vec![]);
    assert!(!agent.is_streaming);
    assert!(agent.messages.is_empty());
}

#[test]
fn thinking_levels_map_to_reasoning() {
    assert_eq!(AgentThinkingLevel::Off.to_pi_ai(), None);
    assert_eq!(AgentThinkingLevel::Xhigh.to_pi_ai(), Some(ThinkingLevel::Xhigh));
    assert_eq!(AgentThinkingLevel::Minimal.to_pi_ai(), Some(ThinkingLevel::Minimal));
}
