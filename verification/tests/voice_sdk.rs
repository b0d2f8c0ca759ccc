use gitclaw::agent_types::{AgentEvent, AgentToolResult};
use gitclaw::ai_types::{
    AssistantMessage, AssistantMessageEvent, ContentBlock, Message, StopReason, TextContent, ThinkingContent, Usage,
};
use gitclaw::data::{parse_json, DataValue};
use gitclaw::errors::AgentError;
use gitclaw::sdk::{
    agent_failure, apply_prompt_overrides, check_query_options, choose_session_id, extract_content, keep_tool,
    load_failure, stop_reason_name, system_message, GCAssistantMessage, GCMessage, QueryEventMapper,
};
use gitclaw::voice::{
    agent_response_text, bind_address, bind_error, bold, dim, function_call_output, health_status, realtime_action,
    response_create, response_preview, running_message, server_port, OpenAIRealtimeAdapter, RealtimeAction,
    VoiceAdapterConfig,
};

fn assistant(blocks: Vec<ContentBlock>) -> AssistantMessage {
    let mut m = AssistantMessage::empty();
    m.content = blocks;
    m.model = "m".to_string();
    m.provider = "p".to_string();
    m.usage = Usage { input: 1, output: 2, cache_read: 3, cache_write: 4, total_tokens: 10 };
    m
}

fn text_block(t: &str) -> ContentBlock {
    ContentBlock::Text(TextContent { text: t.to_string(), text_signature: None })
}

fn delta(t: &str) -> AgentEvent {
    AgentEvent::MessageUpdate {
        assistant_message_event: AssistantMessageEvent::TextDelta {
            content_index: 0,
            delta: t.to_string(),
            partial: AssistantMessage::empty(),
        },
    }
}

fn config(model: Option<&str>) -> VoiceAdapterConfig {
    VoiceAdapterConfig {
        api_key: "sk".to_string(),
        model: model.map(|m| m.to_string()),
        voice: None,
        instructions: None,
    }
}

#[test]
fn message_content_is_extracted() {
    let m = assistant(vec![
        text_block("a"),
        ContentBlock::Thinking(ThinkingContent { thinking: "t".to_string(), thinking_signature: None, redacted: None }),
        text_block("b"),
    ]);
    assert_eq!(extract_content(&m), ("ab".to_string(), "t".to_string()));
    assert_eq!(stop_reason_name(StopReason::ToolUse), "tooluse");
    assert_eq!(stop_reason_name(StopReason::Stop), "stop");
    assert_eq!(stop_reason_name(StopReason::Aborted), "aborted");
}

#[test]
fn agent_events_become_query_messages() {
    let mut mapper = QueryEventMapper::new("bot", "s1");
    match mapper.on_event(&AgentEvent::AgentStart) {
        Some(GCMessage::System(s)) => {
            assert_eq!(s.subtype, "session_start");
            assert_eq!(s.content, "Agent bot started");
            assert_eq!(s.metadata.unwrap()[0].1.as_str(), Some("s1"));
        },
        _ => panic!("expected the session start"),
    }
    match mapper.on_event(&delta("Hel")) {
        Some(GCMessage::Delta(d)) => {
            assert_eq!(d.delta_type, "text");
            assert_eq!(d.content, "Hel");
        },
        _ => panic!("expected a delta"),
    }
    mapper.on_event(&delta("lo"));
    assert_eq!(mapper.acc_text, "Hello");
    // A response without text blocks is reported with the gathered text.
    match mapper.on_event(&AgentEvent::MessageEnd { message: Message::Assistant(assistant(vec![])) }) {
        Some(GCMessage::Assistant(a)) => {
            assert_eq!(a.content, "Hello");
            assert_eq!(a.thinking, None);
            assert_eq!(a.stop_reason, "stop");
            assert_eq!(a.usage.unwrap().total_tokens, 10);
        },
        _ => panic!("expected the response"),
    }
    assert_eq!(mapper.acc_text, "");
    mapper.on_event(&delta("ignored"));
    match mapper.on_event(&AgentEvent::MessageEnd { message: Message::Assistant(assistant(vec![text_block("own")])) }) {
        Some(GCMessage::Assistant(a)) => assert_eq!(a.content, "own"),
        _ => panic!("expected the response"),
    }
    let start = AgentEvent::ToolExecutionStart {
        tool_call_id: "c1".to_string(),
        tool_name: "read".to_string(),
        args: None,
    };
    match mapper.on_event(&start) {
        Some(GCMessage::ToolUse(u)) => {
            assert_eq!(u.tool_name, "read");
            assert!(u.args.is_empty());
        },
        _ => panic!("expected a tool use"),
    }
    let end = AgentEvent::ToolExecutionEnd {
        tool_call_id: "c1".to_string(),
        tool_name: "read".to_string(),
        result: Some(AgentToolResult::text("contents".to_string())),
        is_error: false,
    };
    match mapper.on_event(&end) {
        Some(GCMessage::ToolResult(t)) => {
            assert_eq!(t.content, "contents");
            assert!(!t.is_error);
        },
        _ => panic!("expected a tool result"),
    }
    assert!(mapper.on_event(&AgentEvent::TurnStart { turn: 1 }).is_none());
    assert!(mapper.on_event(&AgentEvent::AgentEnd).is_none());
}

#[test]
fn query_options_and_prompts() {
    assert_eq!(
        check_query_options(true),
        Err("repo and sandbox options are mutually exclusive with each other".to_string())
    );
    assert_eq!(check_query_options(false), Ok(()));
    assert_eq!(load_failure("boom"), "Failed to load agent: boom");
    assert_eq!(agent_failure(&AgentError::Aborted), "Agent error: Agent aborted");
    assert_eq!(choose_session_id(&Some("mine".to_string()), "loaded"), "mine");
    assert_eq!(choose_session_id(&Some(String::new()), "loaded"), "loaded");
    assert_eq!(choose_session_id(&None, "loaded"), "loaded");
    assert_eq!(apply_prompt_overrides("base", &None, &None), "base");
    assert_eq!(apply_prompt_overrides("base", &Some("new".to_string()), &Some("more".to_string())), "new\n\nmore");
    assert_eq!(apply_prompt_overrides("base", &None, &Some("more".to_string())), "base\n\nmore");
    let allowed = Some(vec!["read".to_string(), "cli".to_string()]);
    let denied = Some(vec!["cli".to_string()]);
    assert!(keep_tool("read", &allowed, &denied));
    assert!(!keep_tool("cli", &allowed, &denied));
    assert!(!keep_tool("write", &allowed, &None));
    assert!(keep_tool("write", &None, &None));
    match system_message("note", "hi".to_string()) {
        GCMessage::System(s) => assert!(s.metadata.is_none() && s.subtype == "note"),
        _ => panic!("expected a system message"),
    }
}

#[test]
fn realtime_session_settings() {
    let a = OpenAIRealtimeAdapter::new(config(None));
    assert_eq!(a.realtime_url(), "wss://api.openai.com/v1/realtime?model=gpt-4o-realtime-preview");
    let b = OpenAIRealtimeAdapter::new(config(Some("gpt-x")));
    assert_eq!(b.realtime_url(), "wss://api.openai.com/v1/realtime?model=gpt-x");
    let h = a.handshake_headers();
    assert_eq!(h[0], ("Authorization".to_string(), "Bearer sk".to_string()));
    assert_eq!(h.len(), 6);
    let upd = a.build_session_update();
    assert_eq!(upd.get_str("type"), Some("session.update".to_string()));
    let s = upd.get("session").unwrap();
    assert_eq!(s.get_str("voice"), Some("alloy".to_string()));
    assert!(s.get_str("instructions").unwrap().starts_with("You are a voice assistant"));
    let tools = s.get("tools").unwrap().as_list().unwrap();
    assert_eq!(tools[0].get_str("name"), Some("run_agent".to_string()));
}

fn event(json: &str) -> DataValue {
    parse_json(json).unwrap()
}

#[test]
fn realtime_events() {
    assert!(matches!(realtime_action(&event("{\"type\":\"session.created\"}")), RealtimeAction::Log(ref l) if l == "[voice] Session created"));
    assert!(matches!(realtime_action(&event("{\"type\":\"session.updated\"}")), RealtimeAction::Log(ref l) if l == "[voice] Session configured"));
    assert!(matches!(
        realtime_action(&event("{\"type\":\"conversation.item.input_audio_transcription.completed\",\"transcript\":\"hi\"}")),
        RealtimeAction::Log(ref l) if l == "[voice] User: hi"
    ));
    assert!(matches!(
        realtime_action(&event("{\"type\":\"conversation.item.input_audio_transcription.completed\"}")),
        RealtimeAction::Ignore
    ));
    match realtime_action(&event(
        "{\"type\":\"response.function_call_arguments.done\",\"name\":\"run_agent\",\"call_id\":\"c9\",\"arguments\":\"{\\\"query\\\":\\\"list files\\\"}\"}",
    )) {
        RealtimeAction::RunAgent { call_id, query } => {
            assert_eq!(call_id, "c9");
            assert_eq!(query, "list files");
        },
        _ => panic!("expected an agent run"),
    }
    match realtime_action(&event("{\"type\":\"response.function_call_arguments.done\",\"name\":\"run_agent\",\"arguments\":\"oops\"}")) {
        RealtimeAction::RunAgent { call_id, query } => {
            assert_eq!(call_id, "");
            assert_eq!(query, "");
        },
        _ => panic!("expected an agent run"),
    }
    assert!(matches!(
        realtime_action(&event("{\"type\":\"response.function_call_arguments.done\",\"name\":\"other\"}")),
        RealtimeAction::Log(ref l) if l == "[voice] Unknown function call: other"
    ));
    assert!(matches!(
        realtime_action(&event("{\"type\":\"error\",\"error\":{\"message\":\"bad\",\"code\":1}}")),
        RealtimeAction::Log(ref l) if l == "[voice] Error: {\"code\":1,\"message\":\"bad\"}"
    ));
    assert!(matches!(realtime_action(&event("{\"type\":\"error\"}")), RealtimeAction::Log(ref l) if l == "[voice] Error: null"));
    assert!(matches!(realtime_action(&event("{\"type\":\"response.done\"}")), RealtimeAction::Ignore));
    assert!(matches!(realtime_action(&event("[1]")), RealtimeAction::Ignore));
}

#[test]
fn realtime_replies_and_server() {
    let out = function_call_output("c1", "done");
    assert_eq!(out.get_str("type"), Some("conversation.item.create".to_string()));
    assert_eq!(out.get("item").unwrap().get_str("call_id"), Some("c1".to_string()));
    assert_eq!(response_create().get_str("type"), Some("response.create".to_string()));
    assert_eq!(response_preview("short"), "short");
    assert_eq!(response_preview(&"x".repeat(250)), format!("{}...", "x".repeat(200)));
    let ms = vec![
        GCMessage::Assistant(GCAssistantMessage {
            content: "a".to_string(),
            thinking: None,
            model: String::new(),
            provider: String::new(),
            stop_reason: String::new(),
            error_message: None,
            usage: None,
        }),
        system_message("x", "ignored".to_string()),
        GCMessage::Assistant(GCAssistantMessage {
            content: "b".to_string(),
            thinking: None,
            model: String::new(),
            provider: String::new(),
            stop_reason: String::new(),
            error_message: None,
            usage: None,
        }),
    ];
    assert_eq!(agent_response_text(&ms), "ab");
    assert_eq!(agent_response_text(&[]), "(no response)");
    assert_eq!(server_port(None), 3333);
    assert_eq!(server_port(Some(8080)), 8080);
    assert_eq!(bind_address(3333), "0.0.0.0:3333");
    assert_eq!(health_status().get_str("status"), Some("ok".to_string()));
    assert_eq!(running_message(3333), "Voice server running on :3333 — connected to OpenAI Realtime");
    assert_eq!(bind_error(80, "denied"), "Failed to bind port 80: denied");
    assert_eq!(dim("x"), "\x1b[2mx\x1b[0m");
    assert_eq!(bold("x"), "\x1b[1mx\x1b[0m");
}
