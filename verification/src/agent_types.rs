//! Types of the agent layer: thinking levels, tool results and the events an
//! agent run reports.
use vstd::prelude::*;

use crate::ai_types::{
    clone_opt_str, opt_str, AssistantMessageEvent, BlockView, ImageContent, Message, TextContent,
    ThinkingLevel, ToolResultContent,
};
use crate::data::{opt_view, Data, DataValue};

verus! {

#[derive(Debug, Clone, Copy, PartialEq, Eq, Structural)]
pub enum AgentThinkingLevel {
    Off,
    Minimal,
    Low,
    Medium,
    High,
    Xhigh,
}

pub open spec fn spec_to_pi_ai(level: AgentThinkingLevel) -> Option<ThinkingLevel> {
    match level {
        AgentThinkingLevel::Off => None,
        AgentThinkingLevel::Minimal => Some(ThinkingLevel::Minimal),
        AgentThinkingLevel::Low => Some(ThinkingLevel::Low),
        AgentThinkingLevel::Medium => Some(ThinkingLevel::Medium),
        AgentThinkingLevel::High => Some(ThinkingLevel::High),
        AgentThinkingLevel::Xhigh => Some(ThinkingLevel::Xhigh),
    }
}

impl AgentThinkingLevel {
    /// The reasoning level sent to the model; `Off` sends none.
    pub fn to_pi_ai(&self) -> (r: Option<ThinkingLevel>)
        ensures
            r == spec_to_pi_ai(*self),
    {
        match self {
            AgentThinkingLevel::Off => None,
            AgentThinkingLevel::Minimal => Some(ThinkingLevel::Minimal),
            AgentThinkingLevel::Low => Some(ThinkingLevel::Low),
            AgentThinkingLevel::Medium => Some(ThinkingLevel::Medium),
            AgentThinkingLevel::High => Some(ThinkingLevel::High),
            AgentThinkingLevel::Xhigh => Some(ThinkingLevel::Xhigh),
        }
    }
}

/// What a tool hands back: content blocks and optional details.
#[derive(Clone)]
pub struct AgentToolResult {
    pub content: Vec<ToolResultContent>,
    pub details: Option<DataValue>,
}

pub struct ToolResultView {
    pub content: Seq<BlockView>,
    pub details: Option<Data>,
}

pub open spec fn result_content_view(c: ToolResultContent) -> BlockView {
    match c {
        ToolResultContent::Text(t) => BlockView::Text { text: t.text@, signature: opt_str(t.text_signature) },
        ToolResultContent::Image(i) => BlockView::Image { data: i.data@, mime_type: i.mime_type@ },
    }
}

pub open spec fn result_contents_view(cs: Seq<ToolResultContent>) -> Seq<BlockView> {
    cs.map_values(|c: ToolResultContent| result_content_view(c))
}

impl View for AgentToolResult {
    type V = ToolResultView;

    open spec fn view(&self) -> ToolResultView {
        ToolResultView { content: result_contents_view(self.content@), details: opt_view(self.details) }
    }
}

/// A deep copy of one content block of a tool result.
pub fn copy_result_content(c: &ToolResultContent) -> (r: ToolResultContent)
    ensures
        result_content_view(r) == result_content_view(*c),
{
    match c {
        ToolResultContent::Text(t) => ToolResultContent::Text(
            TextContent { text: t.text.clone(), text_signature: clone_opt_str(&t.text_signature) },
        ),
        ToolResultContent::Image(i) => ToolResultContent::Image(
            ImageContent { data: i.data.clone(), mime_type: i.mime_type.clone() },
        ),
    }
}

/// A deep copy of the content blocks of a tool result.
pub fn copy_result_contents(cs: &Vec<ToolResultContent>) -> (r: Vec<ToolResultContent>)
    ensures
        result_contents_view(r@) == result_contents_view(cs@),
{
    let mut out: Vec<ToolResultContent> = Vec::new();
    let mut i: usize = 0;
    while i < cs.len()
        invariant
            i <= cs@.len(),
            result_contents_view(out@) == result_contents_view(cs@.take(i as int)),
        decreases cs@.len() - i,
    {
        let c = copy_result_content(&cs[i]);
        let ghost prev = out@;
        out.push(c);
        proof {
            assert(result_contents_view(out@) =~= result_contents_view(prev).push(result_content_view(c)));
            assert(cs@.take(i + 1) == cs@.take(i as int).push(cs@[i as int]));
            assert(result_contents_view(cs@.take(i + 1)) =~= result_contents_view(cs@.take(i as int)).push(
                result_content_view(cs@[i as int]),
            ));
        }
        i = i + 1;
    }
    assert(cs@.take(cs@.len() as int) == cs@);
    out
}

impl AgentToolResult {
    /// A deep copy.
    pub fn copy(&self) -> (r: AgentToolResult)
        ensures
            r@ == self@,
    {
        let details = match &self.details {
            Some(d) => Some(d.copy()),
            None => None,
        };
        AgentToolResult { content: copy_result_contents(&self.content), details }
    }

    /// A result of one text block and no details.
    pub fn text(text: String) -> (r: AgentToolResult)
        ensures
            r@.content == seq![BlockView::Text { text: text@, signature: None }],
            r@.details is None,
    {
        let mut content: Vec<ToolResultContent> = Vec::new();
        content.push(ToolResultContent::Text(TextContent { text, text_signature: None }));
        let r = AgentToolResult { content, details: None };
        assert(r@.content =~= seq![BlockView::Text { text: text@, signature: None }]);
        r
    }
}

/// What an agent run reports, in order.
#[derive(Clone)]
#[allow(inconsistent_fields)]
pub enum AgentEvent {
    AgentStart,
    AgentEnd,
    TurnStart { turn: usize },
    TurnEnd { turn: usize },
    MessageStart,
    MessageUpdate { assistant_message_event: AssistantMessageEvent },
    MessageEnd { message: Message },
    ToolExecutionStart {
        tool_call_id: String,
        tool_name: String,
        args: Option<Vec<(String, DataValue)>>,
    },
    ToolExecutionUpdate { tool_call_id: String, tool_name: String, result: AgentToolResult },
    ToolExecutionEnd {
        tool_call_id: String,
        tool_name: String,
        result: Option<AgentToolResult>,
        is_error: bool,
    },
}

} // verus!
