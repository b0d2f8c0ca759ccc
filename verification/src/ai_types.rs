use vstd::prelude::*;

use crate::data::{Data, DataValue};

verus! {

/// API identifiers and provider names are plain strings.
pub type Api = String;

pub type Provider = String;

pub open spec fn opt_str(o: Option<String>) -> Option<Seq<char>> {
    match o {
        Some(s) => Some(s@),
        None => None,
    }
}

/// A copy of an optional string.
pub fn clone_opt_str(o: &Option<String>) -> (r: Option<String>)
    ensures
        opt_str(r) == opt_str(*o),
{
    match o {
        Some(s) => Some(s.clone()),
        None => None,
    }
}

#[derive(Debug, Clone, Copy, PartialEq, Eq, Structural)]
pub enum ThinkingLevel {
    Minimal,
    Low,
    Medium,
    High,
    Xhigh,
}

#[derive(Debug, Clone, Copy, PartialEq, Eq)]
pub struct ThinkingBudgets {
    pub minimal: Option<u32>,
    pub low: Option<u32>,
    pub medium: Option<u32>,
    pub high: Option<u32>,
}

#[derive(Debug, Clone, Copy, PartialEq, Eq, Structural)]
pub enum CacheRetention {
    NoRetention,
    Short,
    Long,
}

impl Default for CacheRetention {
    fn default() -> (r: Self)
        ensures
            r == CacheRetention::Short,
    {
        CacheRetention::Short
    }
}

#[derive(Debug, Clone, Copy, PartialEq, Eq, Structural)]
pub enum Transport {
    Sse,
    Websocket,
    Auto,
}

/// Options of one streaming request. The sampling temperature is carried as the
/// JSON number it is sent as.
#[derive(Clone)]
pub struct StreamOptions {
    pub temperature: Option<DataValue>,
    pub max_tokens: Option<u32>,
    pub api_key: Option<String>,
    pub transport: Option<Transport>,
    pub cache_retention: Option<CacheRetention>,
    pub session_id: Option<String>,
    pub headers: Option<Vec<(String, String)>>,
    pub max_retry_delay_ms: Option<u64>,
    pub metadata: Option<Vec<(String, DataValue)>>,
}

#[derive(Clone)]
pub struct SimpleStreamOptions {
    pub base: StreamOptions,
    pub reasoning: Option<ThinkingLevel>,
    pub thinking_budgets: Option<ThinkingBudgets>,
}

#[derive(Clone)]
pub struct TextContent {
    pub text: String,
    pub text_signature: Option<String>,
}

#[derive(Clone)]
pub struct ThinkingContent {
    pub thinking: String,
    pub thinking_signature: Option<String>,
    pub redacted: Option<bool>,
}

#[derive(Clone)]
pub struct ImageContent {
    pub data: String,
    pub mime_type: String,
}

/// A tool call; its arguments are the entries of a JSON object.
#[derive(Clone)]
pub struct ToolCall {
    pub id: String,
    pub name: String,
    pub arguments: Vec<(String, DataValue)>,
    pub thought_signature: Option<String>,
}

#[derive(Clone)]
pub enum ContentBlock {
    Text(TextContent),
    Thinking(ThinkingContent),
    Image(ImageContent),
    ToolCall(ToolCall),
}

/// Token counts of one response.
#[derive(Debug, Clone, Copy, PartialEq, Eq)]
pub struct Usage {
    pub input: u64,
    pub output: u64,
    pub cache_read: u64,
    pub cache_write: u64,
    pub total_tokens: u64,
}

impl Usage {
    pub fn zero() -> (u: Usage)
        ensures
            u == (Usage { input: 0, output: 0, cache_read: 0, cache_write: 0, total_tokens: 0 }),
    {
        Usage { input: 0, output: 0, cache_read: 0, cache_write: 0, total_tokens: 0 }
    }
}

#[derive(Debug, Clone, Copy, PartialEq, Eq, Structural)]
pub enum StopReason {
    Stop,
    Length,
    ToolUse,
    Error,
    Aborted,
}

#[derive(Clone)]
pub struct UserMessage {
    pub content: UserContent,
    pub timestamp: u64,
}

#[derive(Clone)]
pub enum UserContent {
    Text(String),
    Blocks(Vec<UserContentBlock>),
}

#[derive(Clone)]
pub enum UserContentBlock {
    Text(TextContent),
    Image(ImageContent),
}

#[derive(Clone)]
pub struct AssistantMessage {
    pub content: Vec<ContentBlock>,
    pub api: Api,
    pub provider: Provider,
    pub model: String,
    pub usage: Usage,
    pub stop_reason: StopReason,
    pub error_message: Option<String>,
    pub timestamp: u64,
}

#[derive(Clone)]
pub struct ToolResultMessage {
    pub tool_call_id: String,
    pub tool_name: String,
    pub content: Vec<ToolResultContent>,
    pub details: Option<DataValue>,
    pub is_error: bool,
    pub timestamp: u64,
}

#[derive(Clone)]
pub enum ToolResultContent {
    Text(TextContent),
    Image(ImageContent),
}

#[derive(Clone)]
pub enum Message {
    User(UserMessage),
    Assistant(AssistantMessage),
    ToolResult(ToolResultMessage),
}

#[derive(Clone)]
pub struct Tool {
    pub name: String,
    pub description: String,
    /// JSON Schema of the arguments.
    pub parameters: DataValue,
}

#[derive(Clone)]
pub struct Context {
    pub system_prompt: Option<String>,
    pub messages: Vec<Message>,
    pub tools: Option<Vec<Tool>>,
}

/// A model of the registry. Prices stay with the caller, which computes costs.
#[derive(Clone)]
pub struct Model {
    pub id: String,
    pub name: String,
    pub api: Api,
    pub provider: Provider,
    pub base_url: String,
    pub reasoning: bool,
    pub input: Vec<String>,
    pub context_window: u64,
    pub max_tokens: u32,
    pub headers: Option<Vec<(String, String)>>,
    pub compat: Option<DataValue>,
}

#[derive(Clone)]
pub enum AssistantMessageEvent {
    Start { partial: AssistantMessage },
    TextStart { content_index: usize, partial: AssistantMessage },
    TextDelta { content_index: usize, delta: String, partial: AssistantMessage },
    TextEnd { content_index: usize, content: String, partial: AssistantMessage },
    ThinkingStart { content_index: usize, partial: AssistantMessage },
    ThinkingDelta { content_index: usize, delta: String, partial: AssistantMessage },
    ThinkingEnd { content_index: usize, content: String, partial: AssistantMessage },
    ToolCallStart { content_index: usize, partial: AssistantMessage },
    ToolCallDelta { content_index: usize, delta: String, partial: AssistantMessage },
    ToolCallEnd { content_index: usize, tool_call: ToolCall, partial: AssistantMessage },
    Done { reason: StopReason, message: AssistantMessage },
    Error { reason: StopReason, error: AssistantMessage },
}

impl AssistantMessageEvent {
    pub open spec fn spec_is_terminal(&self) -> bool {
        self is Done || self is Error
    }

    /// Whether the event ends a stream (`Done` or `Error`).
    pub fn is_terminal(&self) -> (r: bool)
        ensures
            r == self.spec_is_terminal(),
    {
        match self {
            AssistantMessageEvent::Done { .. } | AssistantMessageEvent::Error { .. } => true,
            _ => false,
        }
    }
}

// ── Views ───────────────────────────────────────────────────────────────

pub struct ToolCallView {
    pub id: Seq<char>,
    pub name: Seq<char>,
    pub arguments: Seq<(Seq<char>, Data)>,
    pub thought_signature: Option<Seq<char>>,
}

pub enum BlockView {
    Text { text: Seq<char>, signature: Option<Seq<char>> },
    Thinking { thinking: Seq<char>, signature: Option<Seq<char>>, redacted: Option<bool> },
    Image { data: Seq<char>, mime_type: Seq<char> },
    ToolCall(ToolCallView),
}

pub struct AssistantView {
    pub content: Seq<BlockView>,
    pub api: Seq<char>,
    pub provider: Seq<char>,
    pub model: Seq<char>,
    pub usage: Usage,
    pub stop_reason: StopReason,
    pub error_message: Option<Seq<char>>,
    pub timestamp: u64,
}

/// No name occurs twice among the pairs.
pub open spec fn distinct_names(hs: Seq<(Seq<char>, Seq<char>)>) -> bool {
    forall|i: int, j: int| 0 <= i < j < hs.len() ==> hs[i].0 != hs[j].0
}

impl StreamOptions {
    /// The headers and the metadata are maps: each name and key occurs once.
    pub open spec fn keyed(self) -> bool {
        &&& (self.headers matches Some(h) ==> distinct_names(crate::text::str_pairs(h@)))
        &&& (self.metadata matches Some(m) ==> crate::data::distinct_keys(entries_view(m@)))
    }
}

/// Every tool call among the blocks names each argument once, as the
/// arguments map of a call does.
pub open spec fn tool_calls_keyed(content: Seq<BlockView>) -> bool {
    forall|i: int|
        0 <= i < content.len() ==> (#[trigger] content[i] matches BlockView::ToolCall(tc)
            ==> crate::data::distinct_keys(tc.arguments))
}

pub open spec fn entries_view(es: Seq<(String, DataValue)>) -> Seq<(Seq<char>, Data)> {
    es.map_values(|e: (String, DataValue)| (e.0@, e.1@))
}

impl View for ToolCall {
    type V = ToolCallView;

    open spec fn view(&self) -> ToolCallView {
        ToolCallView {
            id: self.id@,
            name: self.name@,
            arguments: entries_view(self.arguments@),
            thought_signature: opt_str(self.thought_signature),
        }
    }
}

impl View for ContentBlock {
    type V = BlockView;

    open spec fn view(&self) -> BlockView {
        match self {
            ContentBlock::Text(t) => BlockView::Text { text: t.text@, signature: opt_str(t.text_signature) },
            ContentBlock::Thinking(t) => BlockView::Thinking {
                thinking: t.thinking@,
                signature: opt_str(t.thinking_signature),
                redacted: t.redacted,
            },
            ContentBlock::Image(i) => BlockView::Image { data: i.data@, mime_type: i.mime_type@ },
            ContentBlock::ToolCall(tc) => BlockView::ToolCall(tc@),
        }
    }
}

pub open spec fn blocks_view(bs: Seq<ContentBlock>) -> Seq<BlockView> {
    bs.map_values(|b: ContentBlock| b@)
}

impl View for AssistantMessage {
    type V = AssistantView;

    open spec fn view(&self) -> AssistantView {
        AssistantView {
            content: blocks_view(self.content@),
            api: self.api@,
            provider: self.provider@,
            model: self.model@,
            usage: self.usage,
            stop_reason: self.stop_reason,
            error_message: opt_str(self.error_message),
            timestamp: self.timestamp,
        }
    }
}

/// A deep copy of object entries.
pub fn clone_entries(es: &Vec<(String, DataValue)>) -> (r: Vec<(String, DataValue)>)
    ensures
        entries_view(r@) == entries_view(es@),
{
    let mut out: Vec<(String, DataValue)> = Vec::new();
    let mut i: usize = 0;
    while i < es.len()
        invariant
            i <= es@.len(),
            entries_view(out@) == entries_view(es@.take(i as int)),
        decreases es@.len() - i,
    {
        let e = (es[i].0.clone(), es[i].1.copy());
        let ghost prev = out@;
        out.push(e);
        assert(out@ == prev.push(e));
        assert(entries_view(out@) =~= entries_view(prev).push((e.0@, e.1@)));
        assert(es@.take(i + 1) == es@.take(i as int).push(es@[i as int]));
        assert(entries_view(es@.take(i + 1)) =~= entries_view(es@.take(i as int)).push(
            (es@[i as int].0@, es@[i as int].1@),
        ));
        i = i + 1;
    }
    assert(es@.take(es@.len() as int) == es@);
    out
}

impl ToolCall {
    /// A deep copy.
    pub fn copy(&self) -> (r: ToolCall)
        ensures
            r@ == self@,
    {
        ToolCall {
            id: self.id.clone(),
            name: self.name.clone(),
            arguments: clone_entries(&self.arguments),
            thought_signature: clone_opt_str(&self.thought_signature),
        }
    }
}

impl ContentBlock {
    /// A deep copy.
    pub fn copy(&self) -> (r: ContentBlock)
        ensures
            r@ == self@,
    {
        match self {
            ContentBlock::Text(t) => ContentBlock::Text(
                TextContent { text: t.text.clone(), text_signature: clone_opt_str(&t.text_signature) },
            ),
            ContentBlock::Thinking(t) => ContentBlock::Thinking(
                ThinkingContent {
                    thinking: t.thinking.clone(),
                    thinking_signature: clone_opt_str(&t.thinking_signature),
                    redacted: t.redacted,
                },
            ),
            ContentBlock::Image(i) => ContentBlock::Image(
                ImageContent { data: i.data.clone(), mime_type: i.mime_type.clone() },
            ),
            ContentBlock::ToolCall(tc) => ContentBlock::ToolCall(tc.copy()),
        }
    }
}

impl AssistantMessage {
    /// `AssistantMessage::default()`: no content, empty identifiers, zero usage,
    /// stop reason `Stop`, no error, timestamp 0.
    pub fn empty() -> (m: AssistantMessage)
        ensures
            m@.content.len() == 0,
            m@.api.len() == 0,
            m@.provider.len() == 0,
            m@.model.len() == 0,
            m.usage == Usage::zero_spec(),
            m.stop_reason == StopReason::Stop,
            m.error_message is None,
            m.timestamp == 0,
    {
        let m = AssistantMessage {
            content: Vec::new(),
            api: String::new(),
            provider: String::new(),
            model: String::new(),
            usage: Usage::zero(),
            stop_reason: StopReason::Stop,
            error_message: None,
            timestamp: 0,
        };
        assert(m@.content =~= Seq::<BlockView>::empty());
        m
    }

    /// A deep copy.
    pub fn copy(&self) -> (r: AssistantMessage)
        ensures
            r@ == self@,
    {
        let mut content: Vec<ContentBlock> = Vec::new();
        let mut i: usize = 0;
        while i < self.content.len()
            invariant
                i <= self.content@.len(),
                blocks_view(content@) == blocks_view(self.content@.take(i as int)),
            decreases self.content@.len() - i,
        {
            let b = self.content[i].copy();
            let ghost prev = content@;
            content.push(b);
            assert(blocks_view(content@) =~= blocks_view(prev).push(b@));
            assert(self.content@.take(i + 1) == self.content@.take(i as int).push(
                self.content@[i as int],
            ));
            assert(blocks_view(self.content@.take(i + 1)) =~= blocks_view(
                self.content@.take(i as int),
            ).push(self.content@[i as int]@));
            i = i + 1;
        }
        assert(self.content@.take(self.content@.len() as int) == self.content@);
        AssistantMessage {
            content,
            api: self.api.clone(),
            provider: self.provider.clone(),
            model: self.model.clone(),
            usage: self.usage,
            stop_reason: self.stop_reason,
            error_message: clone_opt_str(&self.error_message),
            timestamp: self.timestamp,
        }
    }
}

impl Usage {
    pub open spec fn zero_spec() -> Usage {
        Usage { input: 0, output: 0, cache_read: 0, cache_write: 0, total_tokens: 0 }
    }
}

} // verus!

verus! {

pub enum EventView {
    Start { partial: AssistantView },
    TextStart { index: usize, partial: AssistantView },
    TextDelta { index: usize, delta: Seq<char>, partial: AssistantView },
    TextEnd { index: usize, content: Seq<char>, partial: AssistantView },
    ThinkingStart { index: usize, partial: AssistantView },
    ThinkingDelta { index: usize, delta: Seq<char>, partial: AssistantView },
    ThinkingEnd { index: usize, content: Seq<char>, partial: AssistantView },
    ToolCallStart { index: usize, partial: AssistantView },
    ToolCallDelta { index: usize, delta: Seq<char>, partial: AssistantView },
    ToolCallEnd { index: usize, tool_call: ToolCallView, partial: AssistantView },
    Done { reason: StopReason, message: AssistantView },
    Error { reason: StopReason, error: AssistantView },
}

impl View for AssistantMessageEvent {
    type V = EventView;

    open spec fn view(&self) -> EventView {
        match self {
            AssistantMessageEvent::Start { partial } => EventView::Start { partial: partial@ },
            AssistantMessageEvent::TextStart { content_index, partial } => EventView::TextStart {
                index: *content_index,
                partial: partial@,
            },
            AssistantMessageEvent::TextDelta { content_index, delta, partial } =>
                EventView::TextDelta { index: *content_index, delta: delta@, partial: partial@ },
            AssistantMessageEvent::TextEnd { content_index, content, partial } =>
                EventView::TextEnd { index: *content_index, content: content@, partial: partial@ },
            AssistantMessageEvent::ThinkingStart { content_index, partial } =>
                EventView::ThinkingStart { index: *content_index, partial: partial@ },
            AssistantMessageEvent::ThinkingDelta { content_index, delta, partial } =>
                EventView::ThinkingDelta { index: *content_index, delta: delta@, partial: partial@ },
            AssistantMessageEvent::ThinkingEnd { content_index, content, partial } =>
                EventView::ThinkingEnd {
                    index: *content_index,
                    content: content@,
                    partial: partial@,
                },
            AssistantMessageEvent::ToolCallStart { content_index, partial } =>
                EventView::ToolCallStart { index: *content_index, partial: partial@ },
            AssistantMessageEvent::ToolCallDelta { content_index, delta, partial } =>
                EventView::ToolCallDelta { index: *content_index, delta: delta@, partial: partial@ },
            AssistantMessageEvent::ToolCallEnd { content_index, tool_call, partial } =>
                EventView::ToolCallEnd {
                    index: *content_index,
                    tool_call: tool_call@,
                    partial: partial@,
                },
            AssistantMessageEvent::Done { reason, message } => EventView::Done {
                reason: *reason,
                message: message@,
            },
            AssistantMessageEvent::Error { reason, error } => EventView::Error {
                reason: *reason,
                error: error@,
            },
        }
    }
}

pub open spec fn events_view(es: Seq<AssistantMessageEvent>) -> Seq<EventView> {
    es.map_values(|e: AssistantMessageEvent| e@)
}

} // verus!
