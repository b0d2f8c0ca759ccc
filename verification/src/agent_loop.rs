//! The decisions of the agent loop. A run alternates between asking the model
//! for a response and running the tool calls it makes; the caller performs
//! each action the loop asks for and hands back what came of it.
use vstd::prelude::*;

use crate::agent_types::{AgentEvent, AgentThinkingLevel, AgentToolResult, spec_to_pi_ai};
use crate::ai_types::{
    blocks_view, AssistantMessage, AssistantMessageEvent, AssistantView, BlockView, ContentBlock,
    Context, Message, Model, SimpleStreamOptions, StopReason, StreamOptions, TextContent, Tool,
    ToolCall, ToolCallView, ToolResultContent, ToolResultMessage, entries_view,
};
use crate::data::{opt_view, DataValue};
use crate::errors::{pi_ai_error_text, PiAiError};

verus! {

/// Where a run stands.
#[derive(Debug, Clone, Copy, PartialEq, Eq, Structural)]
pub enum LoopPhase {
    /// About to start a turn.
    Ready,
    /// Waiting for the model's response of the current turn.
    AwaitingResponse,
    /// Waiting for the results of the current turn's tool calls.
    AwaitingToolResults,
    /// The run is over.
    Finished,
}

/// What the caller is asked to do next.
pub enum LoopAction {
    /// Stream the model's response to the current history.
    StreamResponse,
    /// Run these tool calls, in order, and hand back their results.
    ExecuteTools(Vec<ToolCall>),
    /// The run is over; the history is final.
    Stop,
}

/// The state of one run: the history so far and the current turn.
pub struct AgentLoop {
    pub messages: Vec<Message>,
    pub turn: usize,
    pub phase: LoopPhase,
}

/// The tool calls among content blocks, in order.
pub open spec fn calls_in(bs: Seq<BlockView>) -> Seq<ToolCallView>
    decreases bs.len(),
{
    if bs.len() == 0 {
        Seq::empty()
    } else {
        let rest = calls_in(bs.drop_last());
        match bs.last() {
            BlockView::ToolCall(tc) => rest.push(tc),
            _ => rest,
        }
    }
}

pub open spec fn calls_view(cs: Seq<ToolCall>) -> Seq<ToolCallView> {
    cs.map_values(|c: ToolCall| c@)
}

/// Copies of the tool calls among content blocks, in order.
pub fn tool_calls_of(content: &Vec<ContentBlock>) -> (r: Vec<ToolCall>)
    ensures
        calls_view(r@) == calls_in(blocks_view(content@)),
{
    let mut out: Vec<ToolCall> = Vec::new();
    let mut i: usize = 0;
    while i < content.len()
        invariant
            i <= content@.len(),
            calls_view(out@) == calls_in(blocks_view(content@.take(i as int))),
        decreases content@.len() - i,
    {
        let ghost prev = out@;
        proof {
            assert(content@.take(i + 1) == content@.take(i as int).push(content@[i as int]));
            assert(blocks_view(content@.take(i + 1)) =~= blocks_view(content@.take(i as int)).push(
                content@[i as int]@,
            ));
            assert(blocks_view(content@.take(i + 1)).drop_last() =~= blocks_view(content@.take(i as int)));
        }
        match &content[i] {
            ContentBlock::ToolCall(tc) => {
                let c = tc.copy();
                out.push(c);
                assert(calls_view(out@) =~= calls_view(prev).push(c@));
            },
            _ => {},
        }
        i = i + 1;
    }
    assert(content@.take(content@.len() as int) == content@);
    out
}

pub open spec fn results_as_messages(rs: Seq<ToolResultMessage>) -> Seq<Message> {
    rs.map_values(|r: ToolResultMessage| Message::ToolResult(r))
}

/// Whether a response ends the run: it makes no tool call, or it did not stop
/// to use tools.
pub open spec fn ends_run(m: AssistantView) -> bool {
    calls_in(m.content).len() == 0 || m.stop_reason != StopReason::ToolUse
}

impl AgentLoop {
    /// Starts a run on a history; reports `AgentStart`.
    pub fn start(initial_messages: Vec<Message>) -> (r: (AgentLoop, Vec<AgentEvent>))
        ensures
            r.0.messages@ == initial_messages@,
            r.0.turn == 0,
            r.0.phase == LoopPhase::Ready,
            r.1@.len() == 1,
            r.1@[0] is AgentStart,
    {
        let mut events: Vec<AgentEvent> = Vec::new();
        events.push(AgentEvent::AgentStart);
        (AgentLoop { messages: initial_messages, turn: 0, phase: LoopPhase::Ready }, events)
    }

    /// Starts the next turn, unless the run was cancelled: then it ends with
    /// `AgentEnd`. A turn is numbered one more than the last.
    pub fn begin_turn(&mut self, cancelled: bool) -> (r: (LoopAction, Vec<AgentEvent>))
        requires
            old(self).phase == LoopPhase::Ready,
            !cancelled ==> old(self).turn < usize::MAX,
        ensures
            final(self).messages@ == old(self).messages@,
            cancelled ==> {
                &&& final(self).phase == LoopPhase::Finished
                &&& final(self).turn == old(self).turn
                &&& r.0 is Stop
                &&& r.1@.len() == 1
                &&& r.1@[0] is AgentEnd
            },
            !cancelled ==> {
                &&& final(self).phase == LoopPhase::AwaitingResponse
                &&& final(self).turn == old(self).turn + 1
                &&& r.0 is StreamResponse
                &&& r.1@.len() == 1
                &&& r.1@[0] == (AgentEvent::TurnStart { turn: final(self).turn })
            },
    {
        let mut events: Vec<AgentEvent> = Vec::new();
        if cancelled {
            self.phase = LoopPhase::Finished;
            events.push(AgentEvent::AgentEnd);
            return (LoopAction::Stop, events);
        }
        self.turn = self.turn + 1;
        self.phase = LoopPhase::AwaitingResponse;
        events.push(AgentEvent::TurnStart { turn: self.turn });
        (LoopAction::StreamResponse, events)
    }

    /// Takes the model's response of the current turn. Without one the run
    /// ends. Otherwise the response joins the history and is reported; where
    /// it asks for tools, their calls are to run, else the turn and the run end.
    pub fn on_response(&mut self, response: Option<AssistantMessage>) -> (r: (LoopAction, Vec<AgentEvent>))
        requires
            old(self).phase == LoopPhase::AwaitingResponse,
        ensures
            final(self).turn == old(self).turn,
            response is None ==> {
                &&& final(self).messages@ == old(self).messages@
                &&& final(self).phase == LoopPhase::Finished
                &&& r.0 is Stop
                &&& r.1@.len() == 1
                &&& r.1@[0] is AgentEnd
            },
            response matches Some(m) ==> {
                &&& final(self).messages@ == old(self).messages@.push(Message::Assistant(m))
                &&& r.1@.len() >= 1
                &&& r.1@[0] matches AgentEvent::MessageEnd { message: Message::Assistant(e) } && e@ == m@
            },
            response matches Some(m) && ends_run(m@) ==> {
                &&& final(self).phase == LoopPhase::Finished
                &&& r.0 is Stop
                &&& r.1@.len() == 3
                &&& r.1@[1] == (AgentEvent::TurnEnd { turn: old(self).turn })
                &&& r.1@[2] is AgentEnd
            },
            response matches Some(m) && !ends_run(m@) ==> {
                &&& final(self).phase == LoopPhase::AwaitingToolResults
                &&& r.1@.len() == 1
                &&& r.0 matches LoopAction::ExecuteTools(calls) && calls_view(calls@) == calls_in(response->Some_0@.content)
            },
    {
        let mut events: Vec<AgentEvent> = Vec::new();
        match response {
            None => {
                self.phase = LoopPhase::Finished;
                events.push(AgentEvent::AgentEnd);
                (LoopAction::Stop, events)
            },
            Some(m) => {
                let calls = tool_calls_of(&m.content);
                let reported = m.copy();
                let stop_reason = m.stop_reason;
                self.messages.push(Message::Assistant(m));
                events.push(AgentEvent::MessageEnd { message: Message::Assistant(reported) });
                if calls.len() == 0 || stop_reason != StopReason::ToolUse {
                    self.phase = LoopPhase::Finished;
                    events.push(AgentEvent::TurnEnd { turn: self.turn });
                    events.push(AgentEvent::AgentEnd);
                    (LoopAction::Stop, events)
                } else {
                    self.phase = LoopPhase::AwaitingToolResults;
                    (LoopAction::ExecuteTools(calls), events)
                }
            },
        }
    }

    /// Takes the results of the current turn's tool calls: they join the
    /// history in order, and the turn ends.
    pub fn on_tool_results(&mut self, results: Vec<ToolResultMessage>) -> (r: Vec<AgentEvent>)
        requires
            old(self).phase == LoopPhase::AwaitingToolResults,
        ensures
            final(self).messages@ == old(self).messages@ + results_as_messages(results@),
            final(self).turn == old(self).turn,
            final(self).phase == LoopPhase::Ready,
            r@ == seq![AgentEvent::TurnEnd { turn: old(self).turn }],
    {
        let ghost start = self.messages@;
        let ghost all = results@;
        assert(all.len() == results.len());
        let mut rest = results;
        let mut k: usize = 0;
        while rest.len() > 0
            invariant
                k <= all.len(),
                all.len() <= usize::MAX,
                rest@ == all.skip(k as int),
                rest@.len() == all.len() - k,
                self.turn == old(self).turn,
                self.messages@ == start + results_as_messages(all.take(k as int)),
            decreases rest@.len(),
        {
            let x = rest.remove(0);
            proof {
                assert(all.take(k + 1) == all.take(k as int).push(x));
                assert(results_as_messages(all.take(k + 1)) =~= results_as_messages(all.take(k as int)).push(
                    Message::ToolResult(x),
                ));
                assert(rest@ =~= all.skip(k + 1));
            }
            self.messages.push(Message::ToolResult(x));
            k = k + 1;
        }
        assert(all.take(k as int) == all);
        self.phase = LoopPhase::Ready;
        let mut events: Vec<AgentEvent> = Vec::new();
        events.push(AgentEvent::TurnEnd { turn: self.turn });
        events
    }
}


/// The request context of a turn: the system prompt, the history, and the
/// tools where there are any.
pub fn build_context(system_prompt: Option<String>, messages: Vec<Message>, tools: Vec<Tool>) -> (r: Context)
    ensures
        r.system_prompt == system_prompt,
        r.messages == messages,
        tools@.len() == 0 ==> r.tools is None,
        tools@.len() > 0 ==> r.tools == Some(tools),
{
    let tools = if tools.len() == 0 {
        None
    } else {
        Some(tools)
    };
    Context { system_prompt, messages, tools }
}

/// The request options of a turn: the loop's temperature and token limit, the
/// reasoning level its thinking level maps to, nothing else.
pub fn build_simple_options(
    temperature: Option<DataValue>,
    max_tokens: Option<u32>,
    thinking_level: AgentThinkingLevel,
) -> (r: SimpleStreamOptions)
    ensures
        r.base.temperature == temperature,
        r.base.max_tokens == max_tokens,
        r.base.api_key is None,
        r.base.transport is None,
        r.base.cache_retention is None,
        r.base.session_id is None,
        r.base.headers is None,
        r.base.max_retry_delay_ms is None,
        r.base.metadata is None,
        r.reasoning == spec_to_pi_ai(thinking_level),
        r.thinking_budgets is None,
        r.base.keyed(),
{
    SimpleStreamOptions {
        base: StreamOptions {
            temperature,
            max_tokens,
            api_key: None,
            transport: None,
            cache_retention: None,
            session_id: None,
            headers: None,
            max_retry_delay_ms: None,
            metadata: None,
        },
        reasoning: thinking_level.to_pi_ai(),
        thinking_budgets: None,
    }
}

/// The response recorded when a stream cannot start: no content, stop reason
/// `Error`, the failure's text, the model's identifiers and the time; with the
/// update that reports it.
pub fn stream_start_failure(model: &Model, error: &PiAiError, now: u64) -> (r: (AssistantMessage, AgentEvent))
    ensures
        r.0@ == (AssistantView {
            content: Seq::empty(),
            api: model.api@,
            provider: model.provider@,
            model: model.id@,
            usage: crate::ai_types::Usage::zero_spec(),
            stop_reason: StopReason::Error,
            error_message: Some("Failed to start stream: "@ + pi_ai_error_text(*error)),
            timestamp: now,
        }),
        r.1 matches AgentEvent::MessageUpdate {
            assistant_message_event: AssistantMessageEvent::Error { reason: StopReason::Error, error: e },
        } && e@ == r.0@,
{
    let mut m = AssistantMessage::empty();
    m.stop_reason = StopReason::Error;
    let text = error.to_string();
    m.error_message = Some("Failed to start stream: ".to_owned().concat(text.as_str()));
    m.model = model.id.clone();
    m.provider = model.provider.clone();
    m.api = model.api.clone();
    m.timestamp = now;
    let reported = m.copy();
    assert(m@.content =~= Seq::<BlockView>::empty());
    (
        m,
        AgentEvent::MessageUpdate {
            assistant_message_event: AssistantMessageEvent::Error { reason: StopReason::Error, error: reported },
        },
    )
}

/// Follows the events of one response stream and keeps the last complete
/// message it reported.
pub struct ResponseCollector {
    pub last: Option<AssistantMessage>,
}

pub open spec fn last_view(o: Option<AssistantMessage>) -> Option<AssistantView> {
    match o {
        Some(m) => Some(m@),
        None => None,
    }
}

/// The message an event completes, if it is terminal.
pub open spec fn completed_by(e: AssistantMessageEvent) -> Option<AssistantView> {
    match e {
        AssistantMessageEvent::Done { message, .. } => Some(message@),
        AssistantMessageEvent::Error { error, .. } => Some(error@),
        _ => None,
    }
}

impl ResponseCollector {
    pub fn new() -> (r: ResponseCollector)
        ensures
            r.last is None,
    {
        ResponseCollector { last: None }
    }

    /// Takes one event of the stream: it is reported as an update; a `Done` or
    /// `Error` event's message becomes the last message. Returns the update and
    /// whether the event ends the stream.
    pub fn on_event(&mut self, event: AssistantMessageEvent) -> (r: (AgentEvent, bool))
        ensures
            r.1 == event.spec_is_terminal(),
            r.0 == (AgentEvent::MessageUpdate { assistant_message_event: event }),
            last_view(final(self).last) == (match completed_by(event) {
                Some(m) => Some(m),
                None => last_view(old(self).last),
            }),
    {
        match &event {
            AssistantMessageEvent::Done { message, .. } => {
                self.last = Some(message.copy());
            },
            AssistantMessageEvent::Error { error, .. } => {
                self.last = Some(error.copy());
            },
            _ => {},
        }
        let terminal = event.is_terminal();
        (AgentEvent::MessageUpdate { assistant_message_event: event }, terminal)
    }

    /// The message recorded when the run is cancelled mid-stream: the last
    /// message (or an empty one) with stop reason `Aborted` and the time.
    pub fn aborted(self, now: u64) -> (r: AssistantMessage)
        ensures
            match self.last {
                Some(m) => r@ == (AssistantView { stop_reason: StopReason::Aborted, timestamp: now, ..m@ }),
                None => r@ == (AssistantView {
                    content: Seq::empty(),
                    api: Seq::empty(),
                    provider: Seq::empty(),
                    model: Seq::empty(),
                    usage: crate::ai_types::Usage::zero_spec(),
                    stop_reason: StopReason::Aborted,
                    error_message: None,
                    timestamp: now,
                }),
            },
    {
        let mut m = match self.last {
            Some(m) => m,
            None => AssistantMessage::empty(),
        };
        m.stop_reason = StopReason::Aborted;
        m.timestamp = now;
        proof {
            if self.last is None {
                assert(m@.content =~= Seq::<BlockView>::empty());
                assert(m@.api =~= Seq::<char>::empty());
                assert(m@.provider =~= Seq::<char>::empty());
                assert(m@.model =~= Seq::<char>::empty());
            }
        }
        m
    }
}


/// A tool result of one text block and no details.
pub open spec fn text_result_view(text: Seq<char>) -> crate::agent_types::ToolResultView {
    crate::agent_types::ToolResultView {
        content: seq![BlockView::Text { text: text, signature: None }],
        details: None,
    }
}

/// The result recorded for a call that was not run because the run was
/// cancelled.
pub fn aborted_tool_result(tc: &ToolCall, now: u64) -> (r: ToolResultMessage)
    ensures
        r.tool_call_id@ == tc.id@,
        r.tool_name@ == tc.name@,
        crate::agent_types::result_contents_view(r.content@) == text_result_view("Operation aborted"@).content,
        r.details is None,
        r.is_error,
        r.timestamp == now,
{
    let res = AgentToolResult::text("Operation aborted".to_owned());
    ToolResultMessage {
        tool_call_id: tc.id.clone(),
        tool_name: tc.name.clone(),
        content: res.content,
        details: None,
        is_error: true,
        timestamp: now,
    }
}

/// The report that a call starts, with a copy of its arguments.
pub fn tool_start_event(tc: &ToolCall) -> (r: AgentEvent)
    ensures
        r matches AgentEvent::ToolExecutionStart { tool_call_id, tool_name, args: Some(a) } && tool_call_id@
            == tc.id@ && tool_name@ == tc.name@ && entries_view(a@) == entries_view(tc.arguments@),
{
    AgentEvent::ToolExecutionStart {
        tool_call_id: tc.id.clone(),
        tool_name: tc.name.clone(),
        args: Some(crate::ai_types::clone_entries(&tc.arguments)),
    }
}

/// What to do with one tool call.
pub enum ToolCallPlan {
    /// Run the tool with these arguments.
    Run(Vec<(String, DataValue)>),
    /// Do not run it; this is its (failed) result.
    Fail(AgentToolResult),
}

/// Whether a plan is the one owed to a call, given how checking it went:
/// `None` where the agent has no tool of that name, else the validated
/// arguments or the text of the validation failure.
pub open spec fn plan_matches(
    p: ToolCallPlan,
    tc: ToolCall,
    checked: Option<Result<crate::data::Data, Seq<char>>>,
) -> bool {
    match checked {
        None => p matches ToolCallPlan::Fail(res) && res@ == text_result_view(
            "Tool '"@ + tc.name@ + "' not found"@,
        ),
        Some(Err(t)) => p matches ToolCallPlan::Fail(res) && res@ == text_result_view(
            "Argument validation failed: "@ + t,
        ),
        Some(Ok(d)) => p matches ToolCallPlan::Run(args) && entries_view(args@) == (match d {
            crate::data::Data::Object(es) => es,
            _ => entries_view(tc.arguments@),
        }),
    }
}

pub open spec fn checked_view(v: Option<Result<DataValue, PiAiError>>) -> Option<Result<crate::data::Data, Seq<char>>> {
    match v {
        None => None,
        Some(Ok(d)) => Some(Ok(d@)),
        Some(Err(e)) => Some(Err(pi_ai_error_text(e))),
    }
}

/// The plan for a call given how checking it went (`None`: the agent has no
/// tool of that name). Validated arguments that are a JSON object are the
/// arguments the tool runs with; any other value leaves the call's own.
pub fn plan_from_check(tc: &ToolCall, checked: Option<Result<DataValue, PiAiError>>) -> (r: ToolCallPlan)
    ensures
        plan_matches(r, *tc, checked_view(checked)),
{
    match checked {
        None => {
            let text = "Tool '".to_owned().concat(tc.name.as_str()).concat("' not found");
            ToolCallPlan::Fail(AgentToolResult::text(text))
        },
        Some(Err(e)) => {
            let shown = e.to_string();
            let text = "Argument validation failed: ".to_owned().concat(shown.as_str());
            ToolCallPlan::Fail(AgentToolResult::text(text))
        },
        Some(Ok(v)) => {
            let ghost d = v@;
            match v {
                DataValue::Object(es) => {
                    assert(d->Object_0 =~= entries_view(es@));
                    ToolCallPlan::Run(es)
                },
                _ => ToolCallPlan::Run(crate::ai_types::clone_entries(&tc.arguments)),
            }
        },
    }
}

/// How the validation of a call reads as a check: the arguments, or the text
/// of the error.
pub open spec fn outcome_as_check(o: Result<crate::data::Data, Seq<char>>) -> Result<crate::data::Data, Seq<char>> {
    match o {
        Ok(d) => Ok(d),
        Err(t) => Err("Validation error: "@ + t),
    }
}

/// The plan for one call: a call of a tool the agent lacks fails; else its
/// arguments are validated against the schemas and either run or fail.
pub fn plan_tool_call(tool_names: &Vec<String>, tools: &[Tool], tc: &ToolCall) -> (r: ToolCallPlan)
    ensures
        (forall|j: int| 0 <= j < tool_names@.len() ==> tool_names@[j]@ != tc.name@) ==> plan_matches(
            r,
            *tc,
            None,
        ),
        (exists|j: int| 0 <= j < tool_names@.len() && tool_names@[j]@ == tc.name@) && (forall|i: int|
            0 <= i < tools@.len() ==> tools@[i].name@ != tc.name@) ==> plan_matches(
            r,
            *tc,
            Some(Err("Tool not found: "@ + tc.name@)),
        ),
        forall|i: int|
            #![trigger tools@[i]]
            (exists|j: int| 0 <= j < tool_names@.len() && tool_names@[j]@ == tc.name@) && 0 <= i
                < tools@.len() && tools@[i].name@ == tc.name@ && (forall|k: int|
                0 <= k < i ==> tools@[k].name@ != tc.name@) ==> plan_matches(
                r,
                *tc,
                Some(
                    outcome_as_check(
                        crate::validation::validation_outcome(
                            tc.name@,
                            crate::validation::args_data(*tc),
                            crate::validation::schema_check(tools@[i].parameters@, crate::validation::args_data(*tc)),
                        ),
                    ),
                ),
            ),
{
    let mut found = false;
    let mut j: usize = 0;
    while j < tool_names.len()
        invariant
            j <= tool_names@.len(),
            found == (exists|k: int| 0 <= k < j && tool_names@[k]@ == tc.name@),
        decreases tool_names@.len() - j,
    {
        if crate::text::str_eq(tool_names[j].as_str(), tc.name.as_str()) {
            found = true;
        }
        j = j + 1;
    }
    if !found {
        return plan_from_check(tc, None);
    }
    let checked = crate::validation::validate_tool_call(tools, tc);
    plan_from_check(tc, Some(checked))
}

/// How a tool's run turned out: its result, or its failure text as a result
/// marked as an error.
pub fn execution_outcome(outcome: Result<AgentToolResult, String>) -> (r: (AgentToolResult, bool))
    ensures
        outcome matches Ok(res) ==> r.0 == res && !r.1,
        outcome matches Err(e) ==> r.0@ == text_result_view(e@) && r.1,
{
    match outcome {
        Ok(res) => (res, false),
        Err(e) => (AgentToolResult::text(e), true),
    }
}

/// The end of one call: the report with a copy of the result, and the result
/// as a message of the history.
pub fn finish_tool_call(tc: &ToolCall, result: AgentToolResult, is_error: bool, now: u64) -> (r: (
    AgentEvent,
    ToolResultMessage,
))
    ensures
        r.0 matches AgentEvent::ToolExecutionEnd { tool_call_id, tool_name, result: Some(res), is_error: e }
            && tool_call_id@ == tc.id@ && tool_name@ == tc.name@ && res@ == result@ && e == is_error,
        r.1 == (ToolResultMessage {
            tool_call_id: r.1.tool_call_id,
            tool_name: r.1.tool_name,
            content: result.content,
            details: result.details,
            is_error,
            timestamp: now,
        }),
        r.1.tool_call_id@ == tc.id@,
        r.1.tool_name@ == tc.name@,
{
    let reported = result.copy();
    let event = AgentEvent::ToolExecutionEnd {
        tool_call_id: tc.id.clone(),
        tool_name: tc.name.clone(),
        result: Some(reported),
        is_error,
    };
    let message = ToolResultMessage {
        tool_call_id: tc.id.clone(),
        tool_name: tc.name.clone(),
        content: result.content,
        details: result.details,
        is_error,
        timestamp: now,
    };
    (event, message)
}

} // verus!
