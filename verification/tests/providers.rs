use gitclaw::ai_types::{AssistantMessageEvent, ContentBlock, StopReason};
use gitclaw::anthropic::AnthropicStream;
use gitclaw::google::{map_stop_reason, GoogleStream};
use gitclaw::openai::{max_tokens_field, reasoning_effort, OpenAIStream};
use gitclaw::ai_types::ThinkingLevel;

fn kind(e: &AssistantMessageEvent) -> &'static str {
    match e {
        AssistantMessageEvent::Start { .. } => "start",
        AssistantMessageEvent::TextStart { .. } => "text_start",
        AssistantMessageEvent::TextDelta { .. } => "text_delta",
        AssistantMessageEvent::TextEnd { .. } => "text_end",
        AssistantMessageEvent::ThinkingStart { .. } => "thinking_start",
        AssistantMessageEvent::ThinkingDelta { .. } => "thinking_delta",
        AssistantMessageEvent::ThinkingEnd { .. } => "thinking_end",
        AssistantMessageEvent::ToolCallStart { .. } => "toolcall_start",
        AssistantMessageEvent::ToolCallDelta { .. } => "toolcall_delta",
        AssistantMessageEvent::ToolCallEnd { .. } => "toolcall_end",
        AssistantMessageEvent::Done { .. } => "done",
        AssistantMessageEvent::Error { .. } => "error",
    }
}

fn kinds(es: &[AssistantMessageEvent]) -> Vec<&'static str> {
    es.iter().map(kind).collect()
}

#[test]
fn anthropic_stream_of_text_and_a_tool_call() {
    let (mut s, start) = AnthropicStream::new("anthropic", "m", 7);
    assert_eq!(kind(&start), "start");
    let lines = [
        "event: message_start",
        "data: {\"type\":\"message_start\",\"message\":{\"usage\":{\"input_tokens\":10,\"cache_read_input_tokens\":2}}}",
        "data: {\"type\":\"content_block_start\",\"index\":0,\"content_block\":{\"type\":\"text\"}}",
        "data: {\"type\":\"content_block_delta\",\"index\":0,\"delta\":{\"type\":\"text_delta\",\"text\":\"Hel\"}}",
        "data: {\"type\":\"content_block_delta\",\"index\":0,\"delta\":{\"type\":\"text_delta\",\"text\":\"lo\"}}",
        "data: {\"type\":\"content_block_stop\",\"index\":0}",
        "data: {\"type\":\"content_block_start\",\"index\":1,\"content_block\":{\"type\":\"tool_use\",\"id\":\"t1\",\"name\":\"read\"}}",
        "data: {\"type\":\"content_block_delta\",\"index\":1,\"delta\":{\"type\":\"input_json_delta\",\"partial_json\":\"{\\\"path\\\":\"}}",
        "data: {\"type\":\"content_block_delta\",\"index\":1,\"delta\":{\"type\":\"input_json_delta\",\"partial_json\":\"\\\"a.txt\\\"}\"}}",
        "data: {\"type\":\"content_block_stop\",\"index\":1}",
        "data: {\"type\":\"message_delta\",\"delta\":{\"stop_reason\":\"tool_use\"},\"usage\":{\"output_tokens\":5}}",
        "data: not json",
    ];
    let mut all = Vec::new();
    for l in lines {
        all.extend(s.process_line(l));
    }
    assert_eq!(
        kinds(&all),
        vec![
            "text_start",
            "text_delta",
            "text_delta",
            "text_end",
            "toolcall_start",
            "toolcall_delta",
            "toolcall_delta",
            "toolcall_end",
        ]
    );
    match &all[3] {
        AssistantMessageEvent::TextEnd { content, .. } => assert_eq!(content, "Hello"),
        _ => unreachable!(),
    }
    match &all[7] {
        AssistantMessageEvent::ToolCallEnd { tool_call, .. } => {
            assert_eq!(tool_call.id, "t1");
            assert_eq!(tool_call.name, "read");
            assert_eq!(tool_call.arguments[0].0, "path");
            assert_eq!(tool_call.arguments[0].1.as_str(), Some("a.txt"));
        },
        _ => unreachable!(),
    }
    let m = s.finish();
    assert_eq!(m.stop_reason, StopReason::ToolUse);
    assert_eq!(m.usage.input, 10);
    assert_eq!(m.usage.output, 5);
    assert_eq!(m.usage.cache_read, 2);
    assert_eq!(m.usage.total_tokens, 17);
    assert_eq!(m.content.len(), 2);
    assert_eq!(m.timestamp, 7);
}

#[test]
fn anthropic_stream_error_and_end_marker() {
    let (mut s, _) = AnthropicStream::new("anthropic", "m", 0);
    assert!(s.process_line("data: {\"type\":\"error\",\"error\":{\"message\":\"overloaded\"}}").is_empty());
    assert!(s.process_line("data: [DONE]").is_empty());
    assert!(s
        .process_line("data: {\"type\":\"content_block_start\",\"index\":0,\"content_block\":{\"type\":\"text\"}}")
        .is_empty());
    let m = s.finish();
    assert_eq!(m.stop_reason, StopReason::Error);
    assert_eq!(m.error_message, Some("overloaded".to_string()));
}

#[test]
fn openai_stream_of_text_and_tool_calls() {
    let (mut s, start) = OpenAIStream::new("openai", "gpt", 1);
    assert_eq!(kind(&start), "start");
    let lines = [
        "data: {\"choices\":[{\"delta\":{\"content\":\"Hi\"}}]}",
        "data: {\"choices\":[{\"delta\":{\"content\":\" there\",\"reasoning_content\":\"hmm\"}}]}",
        "data: {\"choices\":[{\"delta\":{\"tool_calls\":[{\"index\":1,\"id\":\"b\",\"function\":{\"name\":\"write\",\"arguments\":\"{}\"}}]}}]}",
        "data: {\"choices\":[{\"delta\":{\"tool_calls\":[{\"index\":0,\"id\":\"a\",\"function\":{\"name\":\"read\",\"arguments\":\"{\\\"path\\\":\"}}]}}]}",
        "data: {\"choices\":[{\"delta\":{\"tool_calls\":[{\"index\":0,\"function\":{\"arguments\":\"\\\"x\\\"}\"}}]},\"finish_reason\":\"tool_calls\"}]}",
        "data: {\"choices\":[],\"usage\":{\"prompt_tokens\":3,\"completion_tokens\":4,\"total_tokens\":7,\"prompt_tokens_details\":{\"cached_tokens\":1}}}",
        "data: [DONE]",
        "data: {\"choices\":[{\"delta\":{\"content\":\"late\"}}]}",
    ];
    let mut all = Vec::new();
    for l in lines {
        all.extend(s.process_line(l));
    }
    assert_eq!(
        kinds(&all),
        vec![
            "text_start",
            "text_delta",
            "text_delta",
            "thinking_delta",
            "toolcall_start",
            "toolcall_delta",
            "toolcall_start",
            "toolcall_delta",
            "toolcall_delta",
        ]
    );
    let (m, closing) = s.finish();
    assert_eq!(kinds(&closing), vec!["text_end", "toolcall_end", "toolcall_end"]);
    assert_eq!(m.stop_reason, StopReason::ToolUse);
    assert_eq!(m.usage.input, 3);
    assert_eq!(m.usage.output, 4);
    assert_eq!(m.usage.total_tokens, 7);
    assert_eq!(m.usage.cache_read, 1);
    match &m.content[0] {
        ContentBlock::Text(t) => assert_eq!(t.text, "Hi there"),
        _ => panic!("expected text first"),
    }
    // Calls come out in the order of their index.
    match (&m.content[1], &m.content[2]) {
        (ContentBlock::ToolCall(a), ContentBlock::ToolCall(b)) => {
            assert_eq!(a.id, "a");
            assert_eq!(a.arguments[0].1.as_str(), Some("x"));
            assert_eq!(b.id, "b");
            assert!(b.arguments.is_empty());
        },
        _ => panic!("expected two tool calls"),
    }
}

#[test]
fn openai_request_fields() {
    assert_eq!(max_tokens_field(&None), "max_tokens");
    assert_eq!(reasoning_effort(ThinkingLevel::Minimal), "low");
    assert_eq!(reasoning_effort(ThinkingLevel::Medium), "medium");
    assert_eq!(reasoning_effort(ThinkingLevel::Xhigh), "high");
}

#[test]
fn google_stream_of_text_and_function_calls() {
    let (mut s, _) = GoogleStream::new("google", "gemini", 2);
    let lines = [
        "data: {\"candidates\":[{\"content\":{\"parts\":[{\"text\":\"think\",\"thought\":true},{\"text\":\"Hi\"}]}}]}",
        "data: {\"candidates\":[{\"content\":{\"parts\":[{\"functionCall\":{\"name\":\"read\",\"args\":{\"path\":\"a\"}}}]},\"finishReason\":\"STOP\"}],\"usageMetadata\":{\"promptTokenCount\":4,\"candidatesTokenCount\":6,\"totalTokenCount\":10}}",
    ];
    let mut all = Vec::new();
    for l in lines {
        all.extend(s.process_line(l));
    }
    assert_eq!(kinds(&all), vec!["thinking_delta", "text_start", "text_delta", "toolcall_start", "toolcall_end"]);
    match &all[4] {
        AssistantMessageEvent::ToolCallEnd { tool_call, content_index, .. } => {
            assert_eq!(tool_call.id, "tc_0");
            assert_eq!(*content_index, 1);
        },
        _ => unreachable!(),
    }
    let (m, closing) = s.finish();
    assert_eq!(kinds(&closing), vec!["text_end"]);
    assert_eq!(m.usage.total_tokens, 10);
    assert_eq!(m.usage.input, 4);
    assert_eq!(map_stop_reason("MAX_TOKENS"), StopReason::Length);
    assert_eq!(map_stop_reason("SAFETY"), StopReason::Stop);
}

#[test]
fn anthropic_blocks_stay_as_later_lines_arrive() {
    let (mut s, _) = AnthropicStream::new("anthropic", "m", 0);
    let first = [
        "data: {\"type\":\"content_block_start\",\"index\":0,\"content_block\":{\"type\":\"text\"}}",
        "data: {\"type\":\"content_block_delta\",\"index\":0,\"delta\":{\"type\":\"text_delta\",\"text\":\"Hello\"}}",
        "data: {\"type\":\"content_block_stop\",\"index\":0}",
    ];
    for l in first {
        s.process_line(l);
    }
    assert_eq!(s.partial.content.len(), 1);
    let rest = [
        "data: {\"type\":\"content_block_start\",\"index\":1,\"content_block\":{\"type\":\"tool_use\",\"id\":\"t1\",\"name\":\"read\"}}",
        "data: {\"type\":\"content_block_stop\",\"index\":1}",
        "data: {\"type\":\"message_delta\",\"delta\":{\"stop_reason\":\"tool_use\"}}",
    ];
    for l in rest {
        s.process_line(l);
        match &s.partial.content[0] {
            ContentBlock::Text(t) => assert_eq!(t.text, "Hello"),
            _ => unreachable!(),
        }
    }
    assert_eq!(s.partial.content.len(), 2);
}

#[test]
fn google_blocks_stay_as_later_lines_arrive() {
    let (mut s, _) = GoogleStream::new("google", "gemini", 0);
    s.process_line("data: {\"candidates\":[{\"content\":{\"parts\":[{\"functionCall\":{\"name\":\"read\",\"args\":{}}}]}}]}");
    s.process_line("data: {\"candidates\":[{\"content\":{\"parts\":[{\"functionCall\":{\"name\":\"write\",\"args\":{}}}]}}]}");
    assert_eq!(s.partial.content.len(), 2);
    match (&s.partial.content[0], &s.partial.content[1]) {
        (ContentBlock::ToolCall(a), ContentBlock::ToolCall(b)) => {
            assert_eq!((a.id.as_str(), a.name.as_str()), ("tc_0", "read"));
            assert_eq!((b.id.as_str(), b.name.as_str()), ("tc_1", "write"));
        },
        _ => unreachable!(),
    }
}

#[test]
fn repeated_argument_names_arrive_once() {
    let (mut s, _) = AnthropicStream::new("anthropic", "m", 0);
    let lines = [
        "data: {\"type\":\"content_block_start\",\"index\":0,\"content_block\":{\"type\":\"tool_use\",\"id\":\"t1\",\"name\":\"read\"}}",
        "data: {\"type\":\"content_block_delta\",\"index\":0,\"delta\":{\"type\":\"input_json_delta\",\"partial_json\":\"{\\\"path\\\":\\\"a\\\",\\\"path\\\":\\\"b\\\"}\"}}",
        "data: {\"type\":\"content_block_stop\",\"index\":0}",
    ];
    for l in lines {
        s.process_line(l);
    }
    match &s.partial.content[0] {
        ContentBlock::ToolCall(tc) => {
            assert_eq!(tc.arguments.len(), 1);
            assert_eq!(tc.arguments[0].0, "path");
        },
        _ => unreachable!(),
    }
}
