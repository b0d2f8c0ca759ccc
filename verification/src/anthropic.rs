//! The Anthropic Messages API: request building and the server-sent event
//! decoder that turns the response into assistant message events.
use vstd::prelude::*;

use crate::ai_types::{
    entries_view, AssistantMessage, AssistantMessageEvent, AssistantView, BlockView, ContentBlock,
    EventView, ImageContent, Message, Model, StopReason, Context, StreamOptions, Tool, TextContent, ThinkingContent, ToolCall,
    ToolCallView, ToolResultContent, tool_calls_keyed, Usage, UserContent, UserContentBlock,
};
use crate::data::{
    at, distinct_keys, json_parse, keys_unique, nested_str, num_data, pairs_view, parse_json, push_entry, push_value,
    str_or_empty, views, Data, DataValue,
};
use crate::text::{lemma_map_take_push, str_pairs};
use crate::sse::{sse_payload, sse_payload_of};
use crate::text::str_eq;

verus! {

/// The API identifier of the Anthropic provider.
pub struct AnthropicProvider;

impl AnthropicProvider {
    pub fn api(&self) -> (r: &'static str)
        ensures
            r@ == "anthropic-messages"@,
    {
        "anthropic-messages"
    }
}

/// Decoder state of one Anthropic response stream.
pub struct AnthropicStream {
    pub partial: AssistantMessage,
    pub current_text: String,
    pub current_thinking: String,
    pub current_tool_json: String,
    pub current_tool_id: String,
    pub current_tool_name: String,
    pub content_index: usize,
    /// Set once the `[DONE]` line has been read; later lines are ignored.
    pub finished: bool,
}

pub struct AnthropicState {
    pub partial: AssistantView,
    pub text: Seq<char>,
    pub thinking: Seq<char>,
    pub tool_json: Seq<char>,
    pub tool_id: Seq<char>,
    pub tool_name: Seq<char>,
    pub index: usize,
    pub finished: bool,
}

impl View for AnthropicStream {
    type V = AnthropicState;

    open spec fn view(&self) -> AnthropicState {
        AnthropicState {
            partial: self.partial@,
            text: self.current_text@,
            thinking: self.current_thinking@,
            tool_json: self.current_tool_json@,
            tool_id: self.current_tool_id@,
            tool_name: self.current_tool_name@,
            index: self.content_index,
            finished: self.finished,
        }
    }
}

pub open spec fn upd(old: u64, new: Option<u64>) -> u64 {
    match new {
        Some(x) => x,
        None => old,
    }
}

/// How an Anthropic `stop_reason` maps to a stop reason.
pub open spec fn anthropic_stop_reason(s: Seq<char>) -> StopReason {
    if s == "end_turn"@ || s == "stop"@ {
        StopReason::Stop
    } else if s == "max_tokens"@ {
        StopReason::Length
    } else if s == "tool_use"@ {
        StopReason::ToolUse
    } else {
        StopReason::Stop
    }
}

/// The arguments of a finished tool call: the entries of the accumulated JSON
/// text where it parses as an object, no entries otherwise.
pub open spec fn args_of(json: Seq<char>) -> Seq<(Seq<char>, Data)> {
    match json_parse(json) {
        Some(Data::Object(es)) => es,
        _ => Seq::empty(),
    }
}

pub open spec fn with_usage(p: AssistantView, u: Usage) -> AssistantView {
    AssistantView { usage: u, ..p }
}

/// `message_start`: the input-side token counts.
pub open spec fn on_message_start(s: AnthropicState, ev: Data) -> AnthropicState {
    match ev.get("message"@) {
        Some(m) => match m.get("usage"@) {
            Some(u) => {
                let us = s.partial.usage;
                AnthropicState {
                    partial: with_usage(
                        s.partial,
                        Usage {
                            input: upd(us.input, u.get_u64("input_tokens"@)),
                            cache_read: upd(us.cache_read, u.get_u64("cache_read_input_tokens"@)),
                            cache_write: upd(
                                us.cache_write,
                                u.get_u64("cache_creation_input_tokens"@),
                            ),
                            ..us
                        },
                    ),
                    ..s
                }
            },
            None => s,
        },
        None => s,
    }
}

pub open spec fn block_field(ev: Data, key: Seq<char>) -> Seq<char> {
    nested_str(ev, "content_block"@, key)
}

/// `content_block_start`: a new text, thinking or tool-use block.
pub open spec fn on_block_start(s: AnthropicState, ev: Data) -> (AnthropicState, Seq<EventView>) {
    let index = (match at(ev, "index"@).u64_of() {
        Some(n) => n,
        None => 0,
    }) as usize;
    let s1 = AnthropicState { index, ..s };
    let ty = block_field(ev, "type"@);
    if ty == "text"@ {
        (
            AnthropicState { text: Seq::empty(), ..s1 },
            seq![EventView::TextStart { index, partial: s.partial }],
        )
    } else if ty == "thinking"@ {
        (
            AnthropicState { thinking: Seq::empty(), ..s1 },
            seq![EventView::ThinkingStart { index, partial: s.partial }],
        )
    } else if ty == "tool_use"@ {
        (
            AnthropicState {
                tool_json: Seq::empty(),
                tool_id: block_field(ev, "id"@),
                tool_name: block_field(ev, "name"@),
                ..s1
            },
            seq![EventView::ToolCallStart { index, partial: s.partial }],
        )
    } else {
        (s1, Seq::empty())
    }
}

pub open spec fn delta_field(ev: Data, key: Seq<char>) -> Seq<char> {
    nested_str(ev, "delta"@, key)
}

/// `content_block_delta`: a piece of text, thinking or tool-call JSON.
pub open spec fn on_block_delta(s: AnthropicState, ev: Data) -> (AnthropicState, Seq<EventView>) {
    let ty = delta_field(ev, "type"@);
    if ty == "text_delta"@ {
        let t = delta_field(ev, "text"@);
        (
            AnthropicState { text: s.text + t, ..s },
            seq![EventView::TextDelta { index: s.index, delta: t, partial: s.partial }],
        )
    } else if ty == "thinking_delta"@ {
        let t = delta_field(ev, "thinking"@);
        (
            AnthropicState { thinking: s.thinking + t, ..s },
            seq![EventView::ThinkingDelta { index: s.index, delta: t, partial: s.partial }],
        )
    } else if ty == "input_json_delta"@ {
        let t = delta_field(ev, "partial_json"@);
        (
            AnthropicState { tool_json: s.tool_json + t, ..s },
            seq![EventView::ToolCallDelta { index: s.index, delta: t, partial: s.partial }],
        )
    } else {
        (s, Seq::empty())
    }
}

pub open spec fn push_block(p: AssistantView, b: BlockView) -> AssistantView {
    AssistantView { content: p.content.push(b), ..p }
}

/// `content_block_stop`: the block that was accumulating is closed — a tool
/// call if one is open, else thinking if any was read, else text.
pub open spec fn on_block_stop(s: AnthropicState) -> (AnthropicState, Seq<EventView>) {
    if s.tool_name.len() > 0 {
        let tc = ToolCallView {
            id: s.tool_id,
            name: s.tool_name,
            arguments: args_of(s.tool_json),
            thought_signature: None,
        };
        let p = push_block(s.partial, BlockView::ToolCall(tc));
        (
            AnthropicState {
                partial: p,
                tool_json: Seq::empty(),
                tool_id: Seq::empty(),
                tool_name: Seq::empty(),
                ..s
            },
            seq![EventView::ToolCallEnd { index: s.index, tool_call: tc, partial: p }],
        )
    } else if s.thinking.len() > 0 {
        let p = push_block(
            s.partial,
            BlockView::Thinking { thinking: s.thinking, signature: None, redacted: None },
        );
        (
            AnthropicState { partial: p, thinking: Seq::empty(), ..s },
            seq![EventView::ThinkingEnd { index: s.index, content: s.thinking, partial: p }],
        )
    } else {
        let p = push_block(s.partial, BlockView::Text { text: s.text, signature: None });
        (
            AnthropicState { partial: p, text: Seq::empty(), ..s },
            seq![EventView::TextEnd { index: s.index, content: s.text, partial: p }],
        )
    }
}

/// `message_delta`: the stop reason and the output token count.
pub open spec fn on_message_delta(s: AnthropicState, ev: Data) -> AnthropicState {
    let p1 = match ev.get("delta"@) {
        Some(d) => match d.get_str("stop_reason"@) {
            Some(r) => AssistantView { stop_reason: anthropic_stop_reason(r), ..s.partial },
            None => s.partial,
        },
        None => s.partial,
    };
    let p2 = match ev.get("usage"@) {
        Some(u) => with_usage(p1, Usage { output: upd(p1.usage.output, u.get_u64("output_tokens"@)), ..p1.usage }),
        None => p1,
    };
    AnthropicState { partial: p2, ..s }
}

/// `error`: the message fails with the reported text.
pub open spec fn on_error(s: AnthropicState, ev: Data) -> AnthropicState {
    let msg = match ev.get("error"@) {
        Some(e) => match e.get_str("message"@) {
            Some(m) => m,
            None => "Unknown error"@,
        },
        None => "Unknown error"@,
    };
    AnthropicState {
        partial: AssistantView {
            stop_reason: StopReason::Error,
            error_message: Some(msg),
            ..s.partial
        },
        ..s
    }
}

/// One decoded stream event: the next state and the events it emits.
pub open spec fn anthropic_event(s: AnthropicState, ev: Data) -> (AnthropicState, Seq<EventView>) {
    let ty = str_or_empty(at(ev, "type"@));
    if ty == "message_start"@ {
        (on_message_start(s, ev), Seq::empty())
    } else if ty == "content_block_start"@ {
        on_block_start(s, ev)
    } else if ty == "content_block_delta"@ {
        on_block_delta(s, ev)
    } else if ty == "content_block_stop"@ {
        on_block_stop(s)
    } else if ty == "message_delta"@ {
        (on_message_delta(s, ev), Seq::empty())
    } else if ty == "error"@ {
        (on_error(s, ev), Seq::empty())
    } else {
        (s, Seq::empty())
    }
}

} // verus!

verus! {

/// A `message_delta` event sets the stop reason its `delta.stop_reason`
/// names: `max_tokens` is `Length`, `tool_use` is `ToolUse`, and `end_turn`,
/// `stop` or anything else is `Stop`; the finished message keeps it. Nothing
/// else about the message changes but its output token count.
pub proof fn lemma_message_delta_stop_reason(s: AnthropicState, ev: Data, reason: Seq<char>)
    requires
        str_or_empty(at(ev, "type"@)) == "message_delta"@,
        ev.get("delta"@) matches Some(d) && d.get_str("stop_reason"@) == Some(reason),
    ensures
        reason == "max_tokens"@ ==> anthropic_event(s, ev).0.partial.stop_reason == StopReason::Length,
        reason == "tool_use"@ ==> anthropic_event(s, ev).0.partial.stop_reason == StopReason::ToolUse,
        reason != "max_tokens"@ && reason != "tool_use"@ ==> anthropic_event(s, ev).0.partial.stop_reason
            == StopReason::Stop,
        finished_message(anthropic_event(s, ev).0.partial).stop_reason == anthropic_event(s, ev).0.partial.stop_reason,
        anthropic_event(s, ev).0.partial.content == s.partial.content,
        anthropic_event(s, ev).1.len() == 0,
{
    reveal_strlit("message_delta");
    reveal_strlit("message_start");
    reveal_strlit("content_block_start");
    reveal_strlit("content_block_delta");
    reveal_strlit("content_block_stop");
    reveal_strlit("max_tokens");
    reveal_strlit("tool_use");
    reveal_strlit("end_turn");
    reveal_strlit("stop");
    assert("max_tokens"@ != "end_turn"@ && "max_tokens"@ != "stop"@) by {
        assert("max_tokens"@.len() != "end_turn"@.len());
        assert("max_tokens"@.len() != "stop"@.len());
    }
    assert("tool_use"@ != "end_turn"@ && "tool_use"@ != "stop"@ && "tool_use"@ != "max_tokens"@) by {
        assert("tool_use"@[0] != "end_turn"@[0]);
        assert("tool_use"@.len() != "stop"@.len());
        assert("tool_use"@.len() != "max_tokens"@.len());
    }
    assert("message_delta"@ != "message_start"@) by {
        assert("message_delta"@[8] != "message_start"@[8]);
    }
    assert("message_delta"@ != "content_block_start"@ && "message_delta"@ != "content_block_delta"@
        && "message_delta"@ != "content_block_stop"@) by {
        assert("message_delta"@.len() != "content_block_start"@.len());
        assert("message_delta"@.len() != "content_block_delta"@.len());
        assert("message_delta"@.len() != "content_block_stop"@.len());
    }
}

/// One line of the response body: the next state and the events it emits.
/// Lines after `[DONE]`, lines without a `data: ` prefix and payloads that do
/// not parse as JSON change nothing.
pub open spec fn anthropic_line(s: AnthropicState, line: Seq<char>) -> (AnthropicState, Seq<EventView>) {
    if s.finished {
        (s, Seq::empty())
    } else {
        match sse_payload(line) {
            None => (s, Seq::empty()),
            Some(d) => if d == "[DONE]"@ {
                (AnthropicState { finished: true, ..s }, Seq::empty())
            } else {
                match json_parse(d) {
                    None => (s, Seq::empty()),
                    Some(ev) => anthropic_event(s, ev),
                }
            },
        }
    }
}

/// Decoding a line never drops or changes a content block already in the
/// message: the blocks before are a prefix of the blocks after, and at most
/// one block is added.
pub proof fn lemma_line_keeps_blocks(s: AnthropicState, line: Seq<char>)
    ensures
        s.partial.content.is_prefix_of(anthropic_line(s, line).0.partial.content),
        anthropic_line(s, line).0.partial.content.len() <= s.partial.content.len() + 1,
{
    let c = s.partial.content;
    assert forall|b: BlockView| #[trigger] c.push(b).subrange(0, c.len() as int) =~= c by {}
}

/// The message a stream starts from.
pub open spec fn initial_partial(api: Seq<char>, provider: Seq<char>, model: Seq<char>, timestamp: u64) -> AssistantView {
    AssistantView {
        content: Seq::empty(),
        api,
        provider,
        model,
        usage: Usage::zero_spec(),
        stop_reason: StopReason::Stop,
        error_message: None,
        timestamp,
    }
}

/// The message a decoder hands on at the end: the partial message with its
/// total token count.
pub open spec fn finished_message(p: AssistantView) -> AssistantView {
    let u = p.usage;
    with_usage(
        p,
        Usage {
            total_tokens: (u.input + u.output + u.cache_read + u.cache_write) as u64,
            ..u
        },
    )
}

fn one(e: AssistantMessageEvent) -> (v: Vec<AssistantMessageEvent>)
    ensures
        crate::ai_types::events_view(v@) == seq![e@],
{
    let mut v = Vec::new();
    v.push(e);
    assert(crate::ai_types::events_view(v@) =~= seq![e@]);
    v
}

fn none() -> (v: Vec<AssistantMessageEvent>)
    ensures
        crate::ai_types::events_view(v@) == Seq::<EventView>::empty(),
{
    let v = Vec::new();
    assert(crate::ai_types::events_view(v@) =~= Seq::<EventView>::empty());
    v
}

impl AnthropicStream {
    /// A decoder for a response of `model` from `provider`, with the `Start`
    /// event that opens the stream.
    pub fn new(provider: &str, model: &str, timestamp: u64) -> (r: (AnthropicStream, AssistantMessageEvent))
        ensures
            r.0@.partial == initial_partial("anthropic-messages"@, provider@, model@, timestamp),
            r.0@.text.len() == 0,
            r.0@.thinking.len() == 0,
            r.0@.tool_json.len() == 0,
            r.0@.tool_id.len() == 0,
            r.0@.tool_name.len() == 0,
            r.0@.index == 0,
            !r.0@.finished,
            r.1@ == (EventView::Start { partial: r.0@.partial }),
            tool_calls_keyed(r.0@.partial.content),
    {
        let mut partial = AssistantMessage::empty();
        partial.api = "anthropic-messages".to_owned();
        partial.provider = provider.to_owned();
        partial.model = model.to_owned();
        partial.timestamp = timestamp;
        assert(partial@.content =~= Seq::<BlockView>::empty());
        let start = AssistantMessageEvent::Start { partial: partial.copy() };
        let s = AnthropicStream {
            partial,
            current_text: String::new(),
            current_thinking: String::new(),
            current_tool_json: String::new(),
            current_tool_id: String::new(),
            current_tool_name: String::new(),
            content_index: 0,
            finished: false,
        };
        (s, start)
    }

    fn on_message_start(&mut self, ev: &DataValue)
        ensures
            final(self)@ == on_message_start(old(self)@, ev@),
    {
        if let Some(m) = ev.get("message") {
            if let Some(u) = m.get("usage") {
                if let Some(x) = u.get_u64("input_tokens") {
                    self.partial.usage.input = x;
                }
                if let Some(x) = u.get_u64("cache_read_input_tokens") {
                    self.partial.usage.cache_read = x;
                }
                if let Some(x) = u.get_u64("cache_creation_input_tokens") {
                    self.partial.usage.cache_write = x;
                }
            }
        }
    }

    fn on_block_start(&mut self, ev: &DataValue) -> (out: Vec<AssistantMessageEvent>)
        ensures
            (final(self)@, crate::ai_types::events_view(out@)) == on_block_start(old(self)@, ev@),
    {
        let index = match ev.u64_at("index") {
            Some(n) => n,
            None => 0,
        } as usize;
        self.content_index = index;
        let ty = ev.nested_str("content_block", "type");
        if str_eq(ty.as_str(), "text") {
            self.current_text = String::new();
            one(AssistantMessageEvent::TextStart { content_index: index, partial: self.partial.copy() })
        } else if str_eq(ty.as_str(), "thinking") {
            self.current_thinking = String::new();
            one(AssistantMessageEvent::ThinkingStart { content_index: index, partial: self.partial.copy() })
        } else if str_eq(ty.as_str(), "tool_use") {
            self.current_tool_json = String::new();
            self.current_tool_id = ev.nested_str("content_block", "id");
            self.current_tool_name = ev.nested_str("content_block", "name");
            one(AssistantMessageEvent::ToolCallStart { content_index: index, partial: self.partial.copy() })
        } else {
            none()
        }
    }

    fn on_block_delta(&mut self, ev: &DataValue) -> (out: Vec<AssistantMessageEvent>)
        ensures
            (final(self)@, crate::ai_types::events_view(out@)) == on_block_delta(old(self)@, ev@),
    {
        let ty = ev.nested_str("delta", "type");
        if str_eq(ty.as_str(), "text_delta") {
            let t = ev.nested_str("delta", "text");
            self.current_text.append(t.as_str());
            one(AssistantMessageEvent::TextDelta {
                content_index: self.content_index,
                delta: t,
                partial: self.partial.copy(),
            })
        } else if str_eq(ty.as_str(), "thinking_delta") {
            let t = ev.nested_str("delta", "thinking");
            self.current_thinking.append(t.as_str());
            one(AssistantMessageEvent::ThinkingDelta {
                content_index: self.content_index,
                delta: t,
                partial: self.partial.copy(),
            })
        } else if str_eq(ty.as_str(), "input_json_delta") {
            let t = ev.nested_str("delta", "partial_json");
            self.current_tool_json.append(t.as_str());
            one(AssistantMessageEvent::ToolCallDelta {
                content_index: self.content_index,
                delta: t,
                partial: self.partial.copy(),
            })
        } else {
            none()
        }
    }

    fn on_block_stop(&mut self) -> (out: Vec<AssistantMessageEvent>)
        ensures
            (final(self)@, crate::ai_types::events_view(out@)) == on_block_stop(old(self)@),
            tool_calls_keyed(old(self)@.partial.content) ==> tool_calls_keyed(final(self)@.partial.content),
    {
        if !self.current_tool_name.as_str().is_empty() {
            let parsed = parse_json(self.current_tool_json.as_str());
            let ghost pv = crate::data::opt_view(parsed);
            let arguments = match parsed {
                Some(DataValue::Object(es)) => es,
                _ => Vec::new(),
            };
            proof {
                assert(crate::ai_types::entries_view(arguments@) =~= args_of(
                    old(self)@.tool_json,
                ));
                if pv matches Some(Data::Object(_)) {
                    crate::data::lemma_object_keys_distinct(pv->Some_0);
                }
                assert(distinct_keys(crate::ai_types::entries_view(arguments@)));
            }
            let tc = ToolCall {
                id: self.current_tool_id.clone(),
                name: self.current_tool_name.clone(),
                arguments,
                thought_signature: None,
            };
            self.current_tool_id = String::new();
            self.current_tool_name = String::new();
            let tc2 = tc.copy();
            let ghost before = self.partial@;
            self.partial.content.push(ContentBlock::ToolCall(tc));
            assert(self.partial@.content =~= before.content.push(BlockView::ToolCall(tc2@)));
            self.current_tool_json = String::new();
            one(AssistantMessageEvent::ToolCallEnd {
                content_index: self.content_index,
                tool_call: tc2,
                partial: self.partial.copy(),
            })
        } else if !self.current_thinking.as_str().is_empty() {
            let content = self.current_thinking.clone();
            self.current_thinking = String::new();
            let ghost before = self.partial@;
            self.partial.content.push(
                ContentBlock::Thinking(
                    ThinkingContent { thinking: content.clone(), thinking_signature: None, redacted: None },
                ),
            );
            assert(self.partial@.content =~= before.content.push(
                BlockView::Thinking { thinking: content@, signature: None, redacted: None },
            ));
            one(AssistantMessageEvent::ThinkingEnd {
                content_index: self.content_index,
                content,
                partial: self.partial.copy(),
            })
        } else {
            let content = self.current_text.clone();
            self.current_text = String::new();
            let ghost before = self.partial@;
            self.partial.content.push(
                ContentBlock::Text(TextContent { text: content.clone(), text_signature: None }),
            );
            assert(self.partial@.content =~= before.content.push(
                BlockView::Text { text: content@, signature: None },
            ));
            one(AssistantMessageEvent::TextEnd {
                content_index: self.content_index,
                content,
                partial: self.partial.copy(),
            })
        }
    }

    fn on_message_delta(&mut self, ev: &DataValue)
        ensures
            final(self)@ == on_message_delta(old(self)@, ev@),
    {
        if let Some(d) = ev.get("delta") {
            if let Some(r) = d.get_str("stop_reason") {
                self.partial.stop_reason = if str_eq(r.as_str(), "end_turn") || str_eq(r.as_str(), "stop") {
                    StopReason::Stop
                } else if str_eq(r.as_str(), "max_tokens") {
                    StopReason::Length
                } else if str_eq(r.as_str(), "tool_use") {
                    StopReason::ToolUse
                } else {
                    StopReason::Stop
                };
            }
        }
        if let Some(u) = ev.get("usage") {
            if let Some(x) = u.get_u64("output_tokens") {
                self.partial.usage.output = x;
            }
        }
    }

    fn on_error(&mut self, ev: &DataValue)
        ensures
            final(self)@ == on_error(old(self)@, ev@),
    {
        let msg = match ev.get("error") {
            Some(e) => match e.get_str("message") {
                Some(m) => m,
                None => "Unknown error".to_owned(),
            },
            None => "Unknown error".to_owned(),
        };
        self.partial.stop_reason = StopReason::Error;
        self.partial.error_message = Some(msg);
    }

    /// Applies one decoded stream event.
    pub fn on_event(&mut self, ev: &DataValue) -> (out: Vec<AssistantMessageEvent>)
        ensures
            (final(self)@, crate::ai_types::events_view(out@)) == anthropic_event(old(self)@, ev@),
            tool_calls_keyed(old(self)@.partial.content) ==> tool_calls_keyed(final(self)@.partial.content),
    {
        let ty = ev.str_at("type");
        if str_eq(ty.as_str(), "message_start") {
            self.on_message_start(ev);
            none()
        } else if str_eq(ty.as_str(), "content_block_start") {
            self.on_block_start(ev)
        } else if str_eq(ty.as_str(), "content_block_delta") {
            self.on_block_delta(ev)
        } else if str_eq(ty.as_str(), "content_block_stop") {
            self.on_block_stop()
        } else if str_eq(ty.as_str(), "message_delta") {
            self.on_message_delta(ev);
            none()
        } else if str_eq(ty.as_str(), "error") {
            self.on_error(ev);
            none()
        } else {
            none()
        }
    }

    /// Feeds one line of the response body.
    pub fn process_line(&mut self, line: &str) -> (out: Vec<AssistantMessageEvent>)
        ensures
            (final(self)@, crate::ai_types::events_view(out@)) == anthropic_line(old(self)@, line@),
            tool_calls_keyed(old(self)@.partial.content) ==> tool_calls_keyed(final(self)@.partial.content),
    {
        if self.finished {
            return none();
        }
        match sse_payload_of(line) {
            None => none(),
            Some(d) => {
                if str_eq(d.as_str(), "[DONE]") {
                    self.finished = true;
                    none()
                } else {
                    match parse_json(d.as_str()) {
                        None => none(),
                        Some(ev) => self.on_event(&ev),
                    }
                }
            },
        }
    }

    /// The message at the end of the stream, with its total token count.
    pub fn finish(self) -> (m: AssistantMessage)
        requires
            self.partial.usage.input + self.partial.usage.output + self.partial.usage.cache_read
                + self.partial.usage.cache_write <= u64::MAX,
        ensures
            m@ == finished_message(self@.partial),
            tool_calls_keyed(self@.partial.content) ==> tool_calls_keyed(m@.content),
    {
        let mut m = self.partial;
        let u = m.usage;
        m.usage.total_tokens = u.input + u.output + u.cache_read + u.cache_write;
        m
    }
}

} // verus!

verus! {

pub open spec fn s(x: Seq<char>) -> Data {
    Data::Str(x)
}

/// `{"type": "text", "text": t}`.
pub open spec fn text_part(t: Seq<char>) -> Data {
    Data::Object(seq![("type"@, s("text"@)), ("text"@, s(t))])
}

/// `{"type": "image", "source": {"type": "base64", "media_type": .., "data": ..}}`.
pub open spec fn image_part(img: ImageContent) -> Data {
    Data::Object(
        seq![
            ("type"@, s("image"@)),
            (
                "source"@,
                Data::Object(
                    seq![
                        ("type"@, s("base64"@)),
                        ("media_type"@, s(img.mime_type@)),
                        ("data"@, s(img.data@)),
                    ],
                ),
            ),
        ],
    )
}

pub open spec fn user_block_json(b: UserContentBlock) -> Data {
    match b {
        UserContentBlock::Text(t) => text_part(t.text@),
        UserContentBlock::Image(img) => image_part(img),
    }
}

pub open spec fn assistant_block_json(b: ContentBlock) -> Data {
    match b {
        ContentBlock::Text(t) => text_part(t.text@),
        ContentBlock::Thinking(t) => Data::Object(
            seq![("type"@, s("thinking"@)), ("thinking"@, s(t.thinking@))],
        ),
        ContentBlock::ToolCall(tc) => Data::Object(
            seq![
                ("type"@, s("tool_use"@)),
                ("id"@, s(tc.id@)),
                ("name"@, s(tc.name@)),
                ("input"@, Data::Object(entries_view(tc.arguments@))),
            ],
        ),
        ContentBlock::Image(_) => text_part("[image]"@),
    }
}

pub open spec fn result_block_json(c: ToolResultContent) -> Data {
    match c {
        ToolResultContent::Text(t) => text_part(t.text@),
        ToolResultContent::Image(img) => image_part(img),
    }
}

pub open spec fn user_content_json(c: UserContent) -> Data {
    match c {
        UserContent::Text(t) => s(t@),
        UserContent::Blocks(bs) => Data::List(bs@.map_values(|b: UserContentBlock| user_block_json(b))),
    }
}

/// A message in the Anthropic request format.
pub open spec fn anthropic_message_json(m: Message) -> Data {
    match m {
        Message::User(u) => Data::Object(
            seq![
                ("role"@, s("user"@)),
                ("content"@, user_content_json(u.content)),
            ],
        ),
        Message::Assistant(a) => Data::Object(
            seq![
                ("role"@, s("assistant"@)),
                ("content"@, Data::List(a.content@.map_values(|b: ContentBlock| assistant_block_json(b)))),
            ],
        ),
        Message::ToolResult(tr) => Data::Object(
            seq![
                ("role"@, s("user"@)),
                (
                    "content"@,
                    Data::List(
                        seq![
                            Data::Object(
                                seq![
                                    ("type"@, s("tool_result"@)),
                                    ("tool_use_id"@, s(tr.tool_call_id@)),
                                    (
                                        "content"@,
                                        Data::List(
                                            tr.content@.map_values(
                                                |c: ToolResultContent| result_block_json(c),
                                            ),
                                        ),
                                    ),
                                    ("is_error"@, Data::Bool(tr.is_error)),
                                ],
                            ),
                        ],
                    ),
                ),
            ],
        ),
    }
}

fn text_part_value(t: &String) -> (r: DataValue)
    ensures
        r@ == text_part(t@),
{
    DataValue::obj2("type", DataValue::text("text"), "text", DataValue::string(t.clone()))
}

fn image_part_value(img: &ImageContent) -> (r: DataValue)
    ensures
        r@ == image_part(*img),
{
    let source = DataValue::obj3(
        "type",
        DataValue::text("base64"),
        "media_type",
        DataValue::string(img.mime_type.clone()),
        "data",
        DataValue::string(img.data.clone()),
    );
    DataValue::obj2("type", DataValue::text("image"), "source", source)
}

fn user_block_value(b: &UserContentBlock) -> (r: DataValue)
    ensures
        r@ == user_block_json(*b),
{
    match b {
        UserContentBlock::Text(t) => text_part_value(&t.text),
        UserContentBlock::Image(img) => image_part_value(img),
    }
}

fn assistant_block_value(b: &ContentBlock) -> (r: DataValue)
    ensures
        r@ == assistant_block_json(*b),
{
    match b {
        ContentBlock::Text(t) => text_part_value(&t.text),
        ContentBlock::Thinking(t) => DataValue::obj2(
            "type",
            DataValue::text("thinking"),
            "thinking",
            DataValue::string(t.thinking.clone()),
        ),
        ContentBlock::ToolCall(tc) => {
            let input = DataValue::object(crate::ai_types::clone_entries(&tc.arguments));
            DataValue::obj4(
                "type",
                DataValue::text("tool_use"),
                "id",
                DataValue::string(tc.id.clone()),
                "name",
                DataValue::string(tc.name.clone()),
                "input",
                input,
            )
        },
        ContentBlock::Image(_) => {
            let t = "[image]".to_owned();
            text_part_value(&t)
        },
    }
}

fn result_block_value(c: &ToolResultContent) -> (r: DataValue)
    ensures
        r@ == result_block_json(*c),
{
    match c {
        ToolResultContent::Text(t) => text_part_value(&t.text),
        ToolResultContent::Image(img) => image_part_value(img),
    }
}

fn user_content_value(c: &UserContent) -> (r: DataValue)
    ensures
        r@ == user_content_json(*c),
{
    match c {
        UserContent::Text(t) => DataValue::string(t.clone()),
        UserContent::Blocks(bs) => {
            let mut items: Vec<DataValue> = Vec::new();
            let mut i: usize = 0;
            while i < bs.len()
                invariant
                    i <= bs@.len(),
                    views(items@) == bs@.take(i as int).map_values(
                        |b: UserContentBlock| user_block_json(b),
                    ),
                decreases bs@.len() - i,
            {
                push_value(&mut items, user_block_value(&bs[i]));
                proof {
                    lemma_map_take_push(bs@, i as int, |b: UserContentBlock| user_block_json(b));
                }
                i = i + 1;
            }
            assert(bs@.take(bs@.len() as int) == bs@);
            DataValue::list(items)
        },
    }
}

fn message_value(m: &Message) -> (r: DataValue)
    ensures
        r@ == anthropic_message_json(*m),
{
    match m {
        Message::User(u) => {
            let content = user_content_value(&u.content);
            DataValue::obj2("role", DataValue::text("user"), "content", content)
        },
        Message::Assistant(a) => {
            let mut items: Vec<DataValue> = Vec::new();
            let mut i: usize = 0;
            while i < a.content.len()
                invariant
                    i <= a.content@.len(),
                    views(items@) == a.content@.take(i as int).map_values(
                        |b: ContentBlock| assistant_block_json(b),
                    ),
                decreases a.content@.len() - i,
            {
                push_value(&mut items, assistant_block_value(&a.content[i]));
                proof {
                    lemma_map_take_push(a.content@, i as int, |b: ContentBlock| assistant_block_json(b));
                }
                i = i + 1;
            }
            assert(a.content@.take(a.content@.len() as int) == a.content@);
            DataValue::obj2("role", DataValue::text("assistant"), "content", DataValue::list(items))
        },
        Message::ToolResult(tr) => {
            let mut items: Vec<DataValue> = Vec::new();
            let mut i: usize = 0;
            while i < tr.content.len()
                invariant
                    i <= tr.content@.len(),
                    views(items@) == tr.content@.take(i as int).map_values(
                        |c: ToolResultContent| result_block_json(c),
                    ),
                decreases tr.content@.len() - i,
            {
                push_value(&mut items, result_block_value(&tr.content[i]));
                proof {
                    lemma_map_take_push(tr.content@, i as int, |c: ToolResultContent| result_block_json(c));
                }
                i = i + 1;
            }
            assert(tr.content@.take(tr.content@.len() as int) == tr.content@);
            let block = DataValue::obj4(
                "type",
                DataValue::text("tool_result"),
                "tool_use_id",
                DataValue::string(tr.tool_call_id.clone()),
                "content",
                DataValue::list(items),
                "is_error",
                DataValue::Bool(tr.is_error),
            );
            DataValue::obj2("role", DataValue::text("user"), "content", DataValue::list1(block))
        },
    }
}

pub open spec fn anthropic_messages_json(ms: Seq<Message>) -> Seq<Data> {
    ms.map_values(|m: Message| anthropic_message_json(m))
}

/// Converts messages to the Anthropic request format, one for one.
pub fn convert_messages(messages: &[Message]) -> (r: Vec<DataValue>)
    ensures
        views(r@) == anthropic_messages_json(messages@),
{
    let mut out: Vec<DataValue> = Vec::new();
    let mut i: usize = 0;
    while i < messages.len()
        invariant
            i <= messages@.len(),
            views(out@) == messages@.take(i as int).map_values(|m: Message| anthropic_message_json(m)),
        decreases messages@.len() - i,
    {
        push_value(&mut out, message_value(&messages[i]));
        proof {
            lemma_map_take_push(messages@, i as int, |m: Message| anthropic_message_json(m));
        }
        i = i + 1;
    }
    assert(messages@.take(messages@.len() as int) == messages@);
    out
}

} // verus!

verus! {

pub open spec fn min_u32(a: u32, b: u32) -> u32 {
    if a <= b { a } else { b }
}

/// The token limit a request asks for: the option where set, else the
/// model's limit capped at 32000.
pub open spec fn request_max_tokens(model: Model, options: StreamOptions) -> u32 {
    match options.max_tokens {
        Some(n) => n,
        None => min_u32(model.max_tokens, 32000),
    }
}

pub open spec fn tool_def_json(t: Tool) -> Data {
    Data::Object(
        seq![
            ("name"@, s(t.name@)),
            ("description"@, s(t.description@)),
            ("input_schema"@, t.parameters@),
        ],
    )
}

pub open spec fn tool_defs_json(ts: Seq<Tool>) -> Seq<Data> {
    ts.map_values(|t: Tool| tool_def_json(t))
}

pub open spec fn opt_entry(present: bool, k: Seq<char>, v: Data) -> Seq<(Seq<char>, Data)> {
    if present { seq![(k, v)] } else { Seq::empty() }
}

/// The request body: model, messages, token limit and streaming, then the
/// system prompt (cached), temperature, thinking budget and tools where given.
pub open spec fn anthropic_body(model: Model, context: Context, options: StreamOptions, thinking_budget: Option<u32>) -> Data {
    let base = seq![
        ("model"@, s(model.id@)),
        ("messages"@, Data::List(anthropic_messages_json(context.messages@))),
        ("max_tokens"@, num_data(request_max_tokens(model, options) as u64)),
        ("stream"@, Data::Bool(true)),
    ];
    let system = match context.system_prompt {
        Some(sp) => seq![(
            "system"@,
            Data::List(seq![Data::Object(seq![
                ("type"@, s("text"@)),
                ("text"@, s(sp@)),
                ("cache_control"@, Data::Object(seq![("type"@, s("ephemeral"@))])),
            ])]),
        )],
        None => Seq::empty(),
    };
    let temperature = match options.temperature {
        Some(t) => seq![("temperature"@, t@)],
        None => Seq::empty(),
    };
    let thinking = match thinking_budget {
        Some(b) => seq![(
            "thinking"@,
            Data::Object(seq![("type"@, s("enabled"@)), ("budget_tokens"@, num_data(b as u64))]),
        )],
        None => Seq::empty(),
    };
    let tools = match context.tools {
        Some(ts) => opt_entry(ts@.len() > 0, "tools"@, Data::List(tool_defs_json(ts@))),
        None => Seq::empty(),
    };
    Data::Object(base + system + temperature + thinking + tools)
}

fn tool_defs_value(ts: &Vec<Tool>) -> (r: Vec<DataValue>)
    ensures
        views(r@) == tool_defs_json(ts@),
{
    let mut out: Vec<DataValue> = Vec::new();
    let mut i: usize = 0;
    while i < ts.len()
        invariant
            i <= ts@.len(),
            views(out@) == tool_defs_json(ts@.take(i as int)),
        decreases ts@.len() - i,
    {
        let t = &ts[i];
        push_value(
            &mut out,
            DataValue::obj3(
                "name",
                DataValue::string(t.name.clone()),
                "description",
                DataValue::string(t.description.clone()),
                "input_schema",
                t.parameters.copy(),
            ),
        );
        proof {
            lemma_map_take_push(ts@, i as int, |t: Tool| tool_def_json(t));
        }
        i = i + 1;
    }
    assert(ts@.take(ts@.len() as int) == ts@);
    out
}

/// The request body of a streaming request.
pub fn request_body(model: &Model, context: &Context, options: &StreamOptions, thinking_budget: Option<u32>) -> (r: DataValue)
    ensures
        r@ == anthropic_body(*model, *context, *options, thinking_budget),
{
    let max_tokens: u32 = match options.max_tokens {
        Some(n) => n,
        None => if model.max_tokens <= 32000 { model.max_tokens } else { 32000 },
    };
    let mut es: Vec<(String, DataValue)> = Vec::new();
    push_entry(&mut es, "model", DataValue::string(model.id.clone()));
    push_entry(&mut es, "messages", DataValue::list(convert_messages(context.messages.as_slice())));
    push_entry(&mut es, "max_tokens", DataValue::from_u64(max_tokens as u64));
    push_entry(&mut es, "stream", DataValue::Bool(true));
    let ghost base = pairs_view(es@);
    assert(base =~= seq![
        ("model"@, s(model.id@)),
        ("messages"@, Data::List(anthropic_messages_json(context.messages@))),
        ("max_tokens"@, num_data(request_max_tokens(*model, *options) as u64)),
        ("stream"@, Data::Bool(true)),
    ]);
    if let Some(sp) = &context.system_prompt {
        let block = DataValue::obj3(
            "type",
            DataValue::text("text"),
            "text",
            DataValue::string(sp.clone()),
            "cache_control",
            DataValue::obj1("type", DataValue::text("ephemeral")),
        );
        push_entry(&mut es, "system", DataValue::list1(block));
    }
    let ghost with_system = pairs_view(es@);
    if let Some(t) = &options.temperature {
        push_entry(&mut es, "temperature", t.copy());
    }
    let ghost with_temperature = pairs_view(es@);
    if let Some(b) = thinking_budget {
        push_entry(
            &mut es,
            "thinking",
            DataValue::obj2("type", DataValue::text("enabled"), "budget_tokens", DataValue::from_u64(b as u64)),
        );
    }
    let ghost with_thinking = pairs_view(es@);
    if let Some(ts) = &context.tools {
        if ts.len() > 0 {
            push_entry(&mut es, "tools", DataValue::list(tool_defs_value(ts)));
        }
    }
    let r = DataValue::object(es);
    proof {
        let m = *model;
        let c = *context;
        let o = *options;
        let system = match c.system_prompt {
            Some(sp) => seq![(
                "system"@,
                Data::List(seq![Data::Object(seq![
                    ("type"@, s("text"@)),
                    ("text"@, s(sp@)),
                    ("cache_control"@, Data::Object(seq![("type"@, s("ephemeral"@))])),
                ])]),
            )],
            None => Seq::empty(),
        };
        assert(with_system =~= base + system);
        let temperature = match o.temperature {
            Some(t) => seq![("temperature"@, t@)],
            None => Seq::empty(),
        };
        assert(with_temperature =~= base + system + temperature);
        let thinking = match thinking_budget {
            Some(b) => seq![(
                "thinking"@,
                Data::Object(seq![("type"@, s("enabled"@)), ("budget_tokens"@, num_data(b as u64))]),
            )],
            None => Seq::empty(),
        };
        assert(with_thinking =~= base + system + temperature + thinking);
        let tools = match c.tools {
            Some(ts) => opt_entry(ts@.len() > 0, "tools"@, Data::List(tool_defs_json(ts@))),
            None => Seq::empty(),
        };
        assert(pairs_view(es@) =~= base + system + temperature + thinking + tools);
    }
    r
}

/// The endpoint of a model's base URL.
pub fn request_url(base_url: &str) -> (r: String)
    ensures
        r@ == base_url@ + "/v1/messages"@,
{
    base_url.to_owned().concat("/v1/messages")
}

/// The request headers: key, API version, content type, the interleaved
/// thinking beta where a thinking budget is set, then the caller's headers.
pub fn request_headers(api_key: &str, thinking: bool, extra: &Option<Vec<(String, String)>>) -> (r: Vec<(String, String)>)
    ensures
        str_pairs(r@) == seq![
            ("x-api-key"@, api_key@),
            ("anthropic-version"@, "2023-06-01"@),
            ("content-type"@, "application/json"@),
        ] + (if thinking {
            seq![("anthropic-beta"@, "interleaved-thinking-2025-05-14"@)]
        } else {
            Seq::empty()
        }) + (match *extra {
            Some(h) => str_pairs(h@),
            None => Seq::empty(),
        }),
{
    let mut r: Vec<(String, String)> = Vec::new();
    r.push(("x-api-key".to_owned(), api_key.to_owned()));
    r.push(("anthropic-version".to_owned(), "2023-06-01".to_owned()));
    r.push(("content-type".to_owned(), "application/json".to_owned()));
    if thinking {
        r.push(("anthropic-beta".to_owned(), "interleaved-thinking-2025-05-14".to_owned()));
    }
    let ghost fixed = str_pairs(r@);
    if let Some(h) = extra {
        let mut i: usize = 0;
        while i < h.len()
            invariant
                i <= h@.len(),
                str_pairs(r@) == fixed + str_pairs(h@.take(i as int)),
            decreases h@.len() - i,
        {
            let p = (h[i].0.clone(), h[i].1.clone());
            let ghost prev = r@;
            r.push(p);
            assert(str_pairs(r@) =~= str_pairs(prev).push((p.0@, p.1@)));
            proof {
                lemma_map_take_push(h@, i as int, |p: (String, String)| (p.0@, p.1@));
            }
            i = i + 1;
        }
        assert(h@.take(h@.len() as int) == h@);
    }
    proof {
        assert(fixed =~= seq![
            ("x-api-key"@, api_key@),
            ("anthropic-version"@, "2023-06-01"@),
            ("content-type"@, "application/json"@),
        ] + (if thinking {
            seq![("anthropic-beta"@, "interleaved-thinking-2025-05-14"@)]
        } else {
            Seq::empty()
        }));
        if extra is None {
            assert(str_pairs(r@) =~= fixed + Seq::empty());
        }
    }
    r
}

/// The failure text when no API key is known.
pub fn missing_key_message(provider: &str) -> (r: String)
    ensures
        r@ == "No API key found for provider '"@ + provider@ + "'. Set ANTHROPIC_API_KEY."@,
{
    "No API key found for provider '".to_owned().concat(provider).concat("'. Set ANTHROPIC_API_KEY.")
}

} // verus!
