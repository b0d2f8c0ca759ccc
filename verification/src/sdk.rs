//! The programmatic query interface: the messages a query yields, and how an
//! agent's events and options become them.
use vstd::prelude::*;

use crate::agent_types::{result_contents_view, AgentEvent};
use crate::ai_types::{
    blocks_view, opt_str, AssistantMessage, AssistantMessageEvent, BlockView, ContentBlock, Message, StopReason,
    ToolResultContent, Usage,
};
use crate::data::{Data, DataValue};
use crate::errors::{agent_error_text, AgentError};
use crate::text::str_eq;

verus! {

#[derive(Clone)]
pub struct GCUsage {
    pub input_tokens: u64,
    pub output_tokens: u64,
    pub cache_read_tokens: u64,
    pub cache_write_tokens: u64,
    pub total_tokens: u64,
}

#[derive(Clone)]
pub struct GCAssistantMessage {
    pub content: String,
    pub thinking: Option<String>,
    pub model: String,
    pub provider: String,
    pub stop_reason: String,
    pub error_message: Option<String>,
    pub usage: Option<GCUsage>,
}

#[derive(Clone)]
pub struct GCUserMessage {
    pub content: String,
}

#[derive(Clone)]
pub struct GCToolUseMessage {
    pub tool_call_id: String,
    pub tool_name: String,
    pub args: Vec<(String, DataValue)>,
}

#[derive(Clone)]
pub struct GCToolResultMessage {
    pub tool_call_id: String,
    pub tool_name: String,
    pub content: String,
    pub is_error: bool,
}

#[derive(Clone)]
pub struct GCSystemMessage {
    pub subtype: String,
    pub content: String,
    pub metadata: Option<Vec<(String, DataValue)>>,
}

#[derive(Clone)]
pub struct GCStreamDelta {
    pub delta_type: String,
    pub content: String,
}

#[derive(Clone)]
pub enum GCMessage {
    Assistant(GCAssistantMessage),
    User(GCUserMessage),
    ToolUse(GCToolUseMessage),
    ToolResult(GCToolResultMessage),
    System(GCSystemMessage),
    Delta(GCStreamDelta),
}

pub struct GCHookContext {
    pub session_id: String,
    pub agent_name: String,
    pub event: String,
}

pub struct GCPreToolUseContext {
    pub session_id: String,
    pub agent_name: String,
    pub event: String,
    pub tool_name: String,
    pub args: Vec<(String, DataValue)>,
}

pub struct GCHookResult {
    pub action: String,
    pub reason: Option<String>,
    pub args: Option<Vec<(String, DataValue)>>,
}

pub struct LocalRepoOptions {
    pub url: String,
    pub token: String,
    pub dir: Option<String>,
    pub session: Option<String>,
}

pub struct SandboxOptions {
    pub provider: String,
    pub template: Option<String>,
    pub timeout: Option<u64>,
    pub repository: Option<String>,
    pub token: Option<String>,
    pub session: Option<String>,
    pub auto_commit: Option<bool>,
    pub envs: Option<Vec<(String, String)>>,
}

/// The text of a message's text blocks, concatenated.
pub open spec fn text_of(bs: Seq<BlockView>) -> Seq<char>
    decreases bs.len(),
{
    if bs.len() == 0 {
        Seq::empty()
    } else {
        text_of(bs.drop_last()) + match bs.last() {
            BlockView::Text { text, .. } => text,
            _ => Seq::empty(),
        }
    }
}

/// The text of a message's thinking blocks, concatenated.
pub open spec fn thinking_of(bs: Seq<BlockView>) -> Seq<char>
    decreases bs.len(),
{
    if bs.len() == 0 {
        Seq::empty()
    } else {
        thinking_of(bs.drop_last()) + match bs.last() {
            BlockView::Thinking { thinking, .. } => thinking,
            _ => Seq::empty(),
        }
    }
}

/// The text and the thinking of a response.
pub fn extract_content(msg: &AssistantMessage) -> (r: (String, String))
    ensures
        r.0@ == text_of(blocks_view(msg.content@)),
        r.1@ == thinking_of(blocks_view(msg.content@)),
{
    let mut text = String::new();
    let mut thinking = String::new();
    let mut i: usize = 0;
    while i < msg.content.len()
        invariant
            i <= msg.content@.len(),
            text@ == text_of(blocks_view(msg.content@.take(i as int))),
            thinking@ == thinking_of(blocks_view(msg.content@.take(i as int))),
        decreases msg.content@.len() - i,
    {
        proof {
            assert(msg.content@.take(i + 1) == msg.content@.take(i as int).push(msg.content@[i as int]));
            assert(blocks_view(msg.content@.take(i + 1)) =~= blocks_view(msg.content@.take(i as int)).push(
                msg.content@[i as int]@,
            ));
            assert(blocks_view(msg.content@.take(i + 1)).drop_last() =~= blocks_view(msg.content@.take(i as int)));
        }
        match &msg.content[i] {
            ContentBlock::Text(t) => {
                text.append(t.text.as_str());
                assert(thinking@ =~= thinking@ + Seq::<char>::empty());
            },
            ContentBlock::Thinking(t) => {
                thinking.append(t.thinking.as_str());
                assert(text@ =~= text@ + Seq::<char>::empty());
            },
            _ => {
                assert(text@ =~= text@ + Seq::<char>::empty());
                assert(thinking@ =~= thinking@ + Seq::<char>::empty());
            },
        }
        i = i + 1;
    }
    assert(msg.content@.take(msg.content@.len() as int) == msg.content@);
    (text, thinking)
}

/// A stop reason as the query reports it: its name in lowercase.
pub open spec fn stop_reason_text(r: StopReason) -> Seq<char> {
    match r {
        StopReason::Stop => "stop"@,
        StopReason::Length => "length"@,
        StopReason::ToolUse => "tooluse"@,
        StopReason::Error => "error"@,
        StopReason::Aborted => "aborted"@,
    }
}

pub fn stop_reason_name(r: StopReason) -> (s: String)
    ensures
        s@ == stop_reason_text(r),
{
    match r {
        StopReason::Stop => "stop".to_owned(),
        StopReason::Length => "length".to_owned(),
        StopReason::ToolUse => "tooluse".to_owned(),
        StopReason::Error => "error".to_owned(),
        StopReason::Aborted => "aborted".to_owned(),
    }
}

/// The text of a tool result's first block, where it is text.
pub open spec fn first_text(cs: Seq<BlockView>) -> Seq<char> {
    if cs.len() > 0 {
        match cs[0] {
            BlockView::Text { text, .. } => text,
            _ => Seq::empty(),
        }
    } else {
        Seq::empty()
    }
}

/// Turns an agent's events into the messages of a query, gathering the
/// streamed text and thinking of the current response.
pub struct QueryEventMapper {
    pub acc_text: String,
    pub acc_thinking: String,
    pub agent_name: String,
    pub session_id: String,
}


/// The message an event is reported as, and the gathered text after it.
pub open spec fn mapped(before: QueryEventMapper, event: AgentEvent, r: Option<GCMessage>, after: QueryEventMapper) -> bool {
    match event {
        AgentEvent::AgentStart => match r {
            Some(GCMessage::System(m)) => {
                &&& m.subtype@ == "session_start"@
                &&& m.content@ == "Agent "@ + before.agent_name@ + " started"@
                &&& m.metadata matches Some(md) && crate::data::pairs_view(md@) == seq![
                    ("sessionId"@, Data::Str(before.session_id@)),
                ]
            },
            _ => false,
        },
        AgentEvent::MessageUpdate { assistant_message_event } => match assistant_message_event {
            AssistantMessageEvent::TextDelta { delta, .. } => match r {
                Some(GCMessage::Delta(d)) => {
                    &&& d.delta_type@ == "text"@
                    &&& d.content@ == delta@
                    &&& after.acc_text@ == before.acc_text@ + delta@
                    &&& after.acc_thinking == before.acc_thinking
                },
                _ => false,
            },
            AssistantMessageEvent::ThinkingDelta { delta, .. } => match r {
                Some(GCMessage::Delta(d)) => {
                    &&& d.delta_type@ == "thinking"@
                    &&& d.content@ == delta@
                    &&& after.acc_thinking@ == before.acc_thinking@ + delta@
                    &&& after.acc_text == before.acc_text
                },
                _ => false,
            },
            _ => r is None && after.acc_text == before.acc_text && after.acc_thinking == before.acc_thinking,
        },
        AgentEvent::MessageEnd { message } => match message {
            Message::Assistant(msg) => {
                let bs = blocks_view(msg.content@);
                let content = if text_of(bs).len() == 0 {
                    before.acc_text@
                } else {
                    text_of(bs)
                };
                let think = if thinking_of(bs).len() == 0 {
                    before.acc_thinking@
                } else {
                    thinking_of(bs)
                };
                match r {
                    Some(GCMessage::Assistant(a)) => {
                        &&& a.content@ == content
                        &&& opt_str(a.thinking) == (if think.len() == 0 {
                            None
                        } else {
                            Some(think)
                        })
                        &&& a.model@ == msg.model@
                        &&& a.provider@ == msg.provider@
                        &&& a.stop_reason@ == stop_reason_text(msg.stop_reason)
                        &&& opt_str(a.error_message) == opt_str(msg.error_message)
                        &&& a.usage == Some(
                            GCUsage {
                                input_tokens: msg.usage.input,
                                output_tokens: msg.usage.output,
                                cache_read_tokens: msg.usage.cache_read,
                                cache_write_tokens: msg.usage.cache_write,
                                total_tokens: msg.usage.total_tokens,
                            },
                        )
                        &&& after.acc_text@.len() == 0
                        &&& after.acc_thinking@.len() == 0
                    },
                    _ => false,
                }
            },
            _ => r is None && after.acc_text == before.acc_text && after.acc_thinking == before.acc_thinking,
        },
        AgentEvent::ToolExecutionStart { tool_call_id, tool_name, args } => match r {
            Some(GCMessage::ToolUse(u)) => {
                &&& u.tool_call_id@ == tool_call_id@
                &&& u.tool_name@ == tool_name@
                &&& crate::data::pairs_view(u.args@) == (match args {
                    Some(a) => crate::data::pairs_view(a@),
                    None => Seq::empty(),
                })
                &&& after.acc_text == before.acc_text
                &&& after.acc_thinking == before.acc_thinking
            },
            _ => false,
        },
        AgentEvent::ToolExecutionEnd { tool_call_id, tool_name, result, is_error } => match r {
            Some(GCMessage::ToolResult(t)) => {
                &&& t.tool_call_id@ == tool_call_id@
                &&& t.tool_name@ == tool_name@
                &&& t.is_error == is_error
                &&& t.content@ == (match result {
                    Some(res) => first_text(result_contents_view(res.content@)),
                    None => Seq::empty(),
                })
                &&& after.acc_text == before.acc_text
                &&& after.acc_thinking == before.acc_thinking
            },
            _ => false,
        },
        _ => r is None && after.acc_text == before.acc_text && after.acc_thinking == before.acc_thinking,
    }
}

impl QueryEventMapper {
    pub fn new(agent_name: &str, session_id: &str) -> (r: QueryEventMapper)
        ensures
            r.acc_text@.len() == 0,
            r.acc_thinking@.len() == 0,
            r.agent_name@ == agent_name@,
            r.session_id@ == session_id@,
    {
        QueryEventMapper {
            acc_text: String::new(),
            acc_thinking: String::new(),
            agent_name: agent_name.to_owned(),
            session_id: session_id.to_owned(),
        }
    }

    /// The message for one event, if any. The start of the run announces the
    /// session; text and thinking deltas are passed on and gathered; the end
    /// of a response is reported with its text and thinking (the gathered
    /// ones where the response has none), after which the gathered text is
    /// dropped; tool starts and ends are reported.
    pub fn on_event(&mut self, event: &AgentEvent) -> (r: Option<GCMessage>)
        ensures
            final(self).agent_name == old(self).agent_name,
            final(self).session_id == old(self).session_id,
            mapped(*old(self), *event, r, *final(self)),
    {
        match event {
            AgentEvent::AgentStart => {
                let mut md: Vec<(String, DataValue)> = Vec::new();
                crate::data::push_entry(&mut md, "sessionId", DataValue::text(self.session_id.as_str()));
                assert(crate::data::pairs_view(md@) =~= seq![("sessionId"@, Data::Str(self.session_id@))]);
                Some(
                    GCMessage::System(
                        GCSystemMessage {
                            subtype: "session_start".to_owned(),
                            content: "Agent ".to_owned().concat(self.agent_name.as_str()).concat(" started"),
                            metadata: Some(md),
                        },
                    ),
                )
            },
            AgentEvent::MessageUpdate { assistant_message_event } => match assistant_message_event {
                AssistantMessageEvent::TextDelta { delta, .. } => {
                    self.acc_text.append(delta.as_str());
                    Some(GCMessage::Delta(GCStreamDelta { delta_type: "text".to_owned(), content: delta.clone() }))
                },
                AssistantMessageEvent::ThinkingDelta { delta, .. } => {
                    self.acc_thinking.append(delta.as_str());
                    Some(
                        GCMessage::Delta(GCStreamDelta { delta_type: "thinking".to_owned(), content: delta.clone() }),
                    )
                },
                _ => None,
            },
            AgentEvent::MessageEnd { message } => match message {
                Message::Assistant(msg) => {
                    let (text, thinking) = extract_content(msg);
                    let content = if text.as_str().is_empty() {
                        self.acc_text.clone()
                    } else {
                        text
                    };
                    let think = if thinking.as_str().is_empty() {
                        self.acc_thinking.clone()
                    } else {
                        thinking
                    };
                    let thinking_out = if think.as_str().is_empty() {
                        None
                    } else {
                        Some(think)
                    };
                    let a = GCAssistantMessage {
                        content,
                        thinking: thinking_out,
                        model: msg.model.clone(),
                        provider: msg.provider.clone(),
                        stop_reason: stop_reason_name(msg.stop_reason),
                        error_message: crate::ai_types::clone_opt_str(&msg.error_message),
                        usage: Some(
                            GCUsage {
                                input_tokens: msg.usage.input,
                                output_tokens: msg.usage.output,
                                cache_read_tokens: msg.usage.cache_read,
                                cache_write_tokens: msg.usage.cache_write,
                                total_tokens: msg.usage.total_tokens,
                            },
                        ),
                    };
                    self.acc_text = String::new();
                    self.acc_thinking = String::new();
                    Some(GCMessage::Assistant(a))
                },
                _ => None,
            },
            AgentEvent::ToolExecutionStart { tool_call_id, tool_name, args } => {
                let copied = match args {
                    Some(a) => crate::ai_types::clone_entries(a),
                    None => {
                        let v: Vec<(String, DataValue)> = Vec::new();
                        assert(crate::data::pairs_view(v@) =~= Seq::<(Seq<char>, Data)>::empty());
                        v
                    },
                };
                assert(crate::ai_types::entries_view(copied@) == crate::data::pairs_view(copied@));
                proof {
                    if let Some(a) = args {
                        assert(crate::ai_types::entries_view(a@) == crate::data::pairs_view(a@));
                    }
                }
                Some(
                    GCMessage::ToolUse(
                        GCToolUseMessage {
                            tool_call_id: tool_call_id.clone(),
                            tool_name: tool_name.clone(),
                            args: copied,
                        },
                    ),
                )
            },
            AgentEvent::ToolExecutionEnd { tool_call_id, tool_name, result, is_error } => {
                let content = match result {
                    Some(res) => {
                        if res.content.len() > 0 {
                            match &res.content[0] {
                                ToolResultContent::Text(t) => t.text.clone(),
                                _ => String::new(),
                            }
                        } else {
                            String::new()
                        }
                    },
                    None => String::new(),
                };
                Some(
                    GCMessage::ToolResult(
                        GCToolResultMessage {
                            tool_call_id: tool_call_id.clone(),
                            tool_name: tool_name.clone(),
                            content,
                            is_error: *is_error,
                        },
                    ),
                )
            },
            _ => None,
        }
    }
}

/// A system message of the query.
pub fn system_message(subtype: &str, content: String) -> (r: GCMessage)
    ensures
        r matches GCMessage::System(m) && m.subtype@ == subtype@ && m.content == content && m.metadata is None,
{
    GCMessage::System(GCSystemMessage { subtype: subtype.to_owned(), content, metadata: None })
}

/// A query cannot run on a repository.
pub fn check_query_options(has_repo: bool) -> (r: Result<(), String>)
    ensures
        has_repo ==> (r matches Err(e) && e@ == "repo and sandbox options are mutually exclusive with each other"@),
        !has_repo ==> r is Ok,
{
    if has_repo {
        Err("repo and sandbox options are mutually exclusive with each other".to_owned())
    } else {
        Ok(())
    }
}

/// The failure of loading the agent, as the query reports it.
pub fn load_failure(error: &str) -> (r: String)
    ensures
        r@ == "Failed to load agent: "@ + error@,
{
    "Failed to load agent: ".to_owned().concat(error)
}

/// The failure of the agent's run, as the query reports it.
pub fn agent_failure(error: &AgentError) -> (r: String)
    ensures
        r@ == "Agent error: "@ + agent_error_text(*error),
{
    let t = error.to_string();
    "Agent error: ".to_owned().concat(t.as_str())
}

/// The session of a query: the one asked for, unless none or an empty one
/// was, then the agent's.
pub fn choose_session_id(requested: &Option<String>, loaded: &str) -> (r: String)
    ensures
        r@ == (match opt_str(*requested) {
            Some(s) => if s.len() == 0 {
                loaded@
            } else {
                s
            },
            None => loaded@,
        }),
{
    match requested {
        Some(s) => if s.as_str().is_empty() {
            loaded.to_owned()
        } else {
            s.clone()
        },
        None => loaded.to_owned(),
    }
}

/// The system prompt of a query: the agent's, or the one given in its place,
/// then the suffix after a blank line.
pub fn apply_prompt_overrides(base: &str, replacement: &Option<String>, suffix: &Option<String>) -> (r: String)
    ensures
        r@ == (match opt_str(*replacement) {
            Some(p) => p,
            None => base@,
        }) + (match opt_str(*suffix) {
            Some(s) => "\n\n"@ + s,
            None => Seq::empty(),
        }),
{
    let prompt = match replacement {
        Some(p) => p.clone(),
        None => base.to_owned(),
    };
    match suffix {
        Some(s) => prompt.concat("\n\n").concat(s.as_str()),
        None => {
            assert(prompt@ + Seq::<char>::empty() =~= prompt@);
            prompt
        },
    }
}

pub open spec fn listed(names: Seq<String>, name: Seq<char>) -> bool {
    exists|i: int| 0 <= i < names.len() && names[i]@ == name
}

fn in_list(names: &Vec<String>, name: &str) -> (r: bool)
    ensures
        r == listed(names@, name@),
{
    let mut i: usize = 0;
    while i < names.len()
        invariant
            i <= names@.len(),
            forall|j: int| 0 <= j < i ==> names@[j]@ != name@,
        decreases names@.len() - i,
    {
        if str_eq(names[i].as_str(), name) {
            return true;
        }
        i = i + 1;
    }
    false
}

/// Whether a tool stays: it is allowed (where an allowlist is given) and not
/// denied (where a denylist is given).
pub fn keep_tool(name: &str, allowed: &Option<Vec<String>>, denied: &Option<Vec<String>>) -> (r: bool)
    ensures
        r == ((match allowed {
            Some(a) => listed(a@, name@),
            None => true,
        }) && (match denied {
            Some(d) => !listed(d@, name@),
            None => true,
        })),
{
    let ok = match allowed {
        Some(a) => in_list(a, name),
        None => true,
    };
    if !ok {
        return false;
    }
    match denied {
        Some(d) => !in_list(d, name),
        None => true,
    }
}

} // verus!
