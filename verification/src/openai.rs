//! The OpenAI chat completions API: request building and the server-sent event
//! decoder.
use vstd::prelude::*;

use crate::ai_types::{
    entries_view, AssistantMessage, AssistantMessageEvent, AssistantView, BlockView, ContentBlock,
    Context, EventView, Message, Model, StopReason, StreamOptions, TextContent, ThinkingLevel,
    Tool, ToolCall, ToolCallView, tool_calls_keyed, ToolResultContent, Usage, UserContent, UserContentBlock,
};
use crate::anthropic::{initial_partial, push_block, upd, with_usage};
use crate::data::{
    at, json_parse, nested_str, num_data, pairs_view, parse_json, push_entry, push_value,
    str_or_empty, views, Data, DataValue,
};
use crate::sse::{sse_payload, sse_payload_of};
use crate::text::{lemma_map_take_push, str_eq, str_pairs};

verus! {

/// The API identifier of the OpenAI chat completions provider.
pub struct OpenAICompletionsProvider;

impl OpenAICompletionsProvider {
    pub fn api(&self) -> (r: &'static str)
        ensures
            r@ == "openai-completions"@,
    {
        "openai-completions"
    }
}

/// A tool call being streamed: its index, id, name and argument text so far.
pub struct PendingCall {
    pub index: usize,
    pub id: String,
    pub name: String,
    pub args: String,
}

pub struct CallView {
    pub index: usize,
    pub id: Seq<char>,
    pub name: Seq<char>,
    pub args: Seq<char>,
}

impl View for PendingCall {
    type V = CallView;

    open spec fn view(&self) -> CallView {
        CallView { index: self.index, id: self.id@, name: self.name@, args: self.args@ }
    }
}

pub open spec fn calls_view(cs: Seq<PendingCall>) -> Seq<CallView> {
    cs.map_values(|c: PendingCall| c@)
}

/// Pending calls are kept in increasing order of index, each index once.
pub open spec fn sorted_calls(cs: Seq<CallView>) -> bool {
    forall|i: int, j: int| 0 <= i < j < cs.len() ==> cs[i].index < cs[j].index
}

/// Decoder state of one chat completions response stream.
pub struct OpenAIStream {
    pub partial: AssistantMessage,
    pub current_text: String,
    pub calls: Vec<PendingCall>,
    pub text_started: bool,
    pub finished: bool,
}

pub struct OpenAIState {
    pub partial: AssistantView,
    pub text: Seq<char>,
    pub calls: Seq<CallView>,
    pub text_started: bool,
    pub finished: bool,
}

impl View for OpenAIStream {
    type V = OpenAIState;

    open spec fn view(&self) -> OpenAIState {
        OpenAIState {
            partial: self.partial@,
            text: self.current_text@,
            calls: calls_view(self.calls@),
            text_started: self.text_started,
            finished: self.finished,
        }
    }
}

/// How a `finish_reason` maps to a stop reason.
pub open spec fn openai_stop_reason(f: Seq<char>) -> StopReason {
    if f == "stop"@ {
        StopReason::Stop
    } else if f == "length"@ {
        StopReason::Length
    } else if f == "tool_calls"@ {
        StopReason::ToolUse
    } else {
        StopReason::Stop
    }
}

/// The usage block of a chunk, where present.
pub open spec fn on_usage(p: AssistantView, chunk: Data) -> AssistantView {
    match chunk.get("usage"@) {
        Some(u) => {
            let us = p.usage;
            let cached = match u.get("prompt_tokens_details"@) {
                Some(d) => at(d, "cached_tokens"@).u64_of(),
                None => None,
            };
            with_usage(
                p,
                Usage {
                    input: upd(us.input, at(u, "prompt_tokens"@).u64_of()),
                    output: upd(us.output, at(u, "completion_tokens"@).u64_of()),
                    total_tokens: upd(us.total_tokens, at(u, "total_tokens"@).u64_of()),
                    cache_read: upd(us.cache_read, cached),
                    ..us
                },
            )
        },
        None => p,
    }
}

/// The number of pending calls with an index below `idx`.
pub open spec fn count_below(cs: Seq<CallView>, idx: usize) -> nat
    decreases cs.len(),
{
    if cs.len() == 0 {
        0
    } else {
        count_below(cs.drop_last(), idx) + (if cs.last().index < idx { 1nat } else { 0nat })
    }
}

/// One entry of a chunk's `tool_calls`: the call with that index is opened
/// (with its id and name) where it is new, and its argument text grows.
pub open spec fn on_tool_call_delta(s: OpenAIState, tc: Data) -> (OpenAIState, Seq<EventView>) {
    let idx = (match at(tc, "index"@).u64_of() {
        Some(n) => n,
        None => 0,
    }) as usize;
    let pos = count_below(s.calls, idx) as int;
    let exists = pos < s.calls.len() && s.calls[pos].index == idx;
    let (calls1, open_events) = if exists {
        (s.calls, Seq::<EventView>::empty())
    } else {
        (
            s.calls.insert(
                pos,
                CallView {
                    index: idx,
                    id: str_or_empty(at(tc, "id"@)),
                    name: nested_str(tc, "function"@, "name"@),
                    args: Seq::empty(),
                },
            ),
            seq![EventView::ToolCallStart { index: idx, partial: s.partial }],
        )
    };
    let args = match tc.get("function"@) {
        Some(f) => at(f, "arguments"@).str_of(),
        None => None,
    };
    match args {
        Some(a) => (
            OpenAIState {
                calls: calls1.update(pos, CallView { args: calls1[pos].args + a, ..calls1[pos] }),
                ..s
            },
            open_events.push(EventView::ToolCallDelta { index: idx, delta: a, partial: s.partial }),
        ),
        None => (OpenAIState { calls: calls1, ..s }, open_events),
    }
}

pub open spec fn on_tool_call_deltas(s: OpenAIState, tcs: Seq<Data>) -> (OpenAIState, Seq<EventView>)
    decreases tcs.len(),
{
    if tcs.len() == 0 {
        (s, Seq::empty())
    } else {
        let (s1, e1) = on_tool_call_deltas(s, tcs.drop_last());
        let (s2, e2) = on_tool_call_delta(s1, tcs.last());
        (s2, e1 + e2)
    }
}

pub open spec fn reasoning_event(delta: Data, k: Seq<char>, partial: AssistantView) -> Seq<EventView> {
    match delta.get_str(k) {
        Some(r) => seq![EventView::ThinkingDelta { index: 0, delta: r, partial }],
        None => Seq::<EventView>::empty(),
    }
}

/// Reasoning text under any of the three keys providers use, in that order.
pub open spec fn reasoning_events(delta: Data, partial: AssistantView) -> Seq<EventView> {
    reasoning_event(delta, "reasoning_content"@, partial) + reasoning_event(delta, "reasoning"@, partial)
        + reasoning_event(delta, "reasoning_text"@, partial)
}

/// One entry of a chunk's `choices`.
pub open spec fn on_choice(s: OpenAIState, choice: Data) -> (OpenAIState, Seq<EventView>) {
    match choice.get("delta"@) {
        None => (s, Seq::empty()),
        Some(delta) => {
            let p1 = match choice.get_str("finish_reason"@) {
                Some(f) => AssistantView { stop_reason: openai_stop_reason(f), ..s.partial },
                None => s.partial,
            };
            let s1 = OpenAIState { partial: p1, ..s };
            let (s2, e2) = match delta.get_str("content"@) {
                Some(c) => {
                    let start = if s1.text_started {
                        Seq::<EventView>::empty()
                    } else {
                        seq![EventView::TextStart { index: 0, partial: p1 }]
                    };
                    (
                        OpenAIState { text_started: true, text: s1.text + c, ..s1 },
                        start.push(EventView::TextDelta { index: 0, delta: c, partial: p1 }),
                    )
                },
                None => (s1, Seq::empty()),
            };
            let e3 = reasoning_events(delta, p1);
            let (s4, e4) = match delta.get_list("tool_calls"@) {
                Some(tcs) => on_tool_call_deltas(s2, tcs),
                None => (s2, Seq::empty()),
            };
            (s4, e2 + e3 + e4)
        },
    }
}

pub open spec fn on_choices(s: OpenAIState, cs: Seq<Data>) -> (OpenAIState, Seq<EventView>)
    decreases cs.len(),
{
    if cs.len() == 0 {
        (s, Seq::empty())
    } else {
        let (s1, e1) = on_choices(s, cs.drop_last());
        let (s2, e2) = on_choice(s1, cs.last());
        (s2, e1 + e2)
    }
}

/// One parsed chunk: its usage, then its choices.
pub open spec fn openai_chunk(s: OpenAIState, chunk: Data) -> (OpenAIState, Seq<EventView>) {
    let s1 = OpenAIState { partial: on_usage(s.partial, chunk), ..s };
    match chunk.get_list("choices"@) {
        Some(cs) => on_choices(s1, cs),
        None => (s1, Seq::empty()),
    }
}

proof fn lemma_tool_call_deltas_keep_partial(s: OpenAIState, tcs: Seq<Data>)
    ensures
        on_tool_call_deltas(s, tcs).0.partial == s.partial,
    decreases tcs.len(),
{
    if tcs.len() > 0 {
        lemma_tool_call_deltas_keep_partial(s, tcs.drop_last());
    }
}

/// A choice with a delta and a `finish_reason` sets the stop reason that
/// reason names: `length` is `Length`, `tool_calls` is `ToolUse`, and `stop`
/// or anything else is `Stop`; the message's content is left as it was.
pub proof fn lemma_finish_reason(s: OpenAIState, choice: Data, reason: Seq<char>)
    requires
        choice.get("delta"@) is Some,
        choice.get_str("finish_reason"@) == Some(reason),
    ensures
        reason == "length"@ ==> on_choice(s, choice).0.partial.stop_reason == StopReason::Length,
        reason == "tool_calls"@ ==> on_choice(s, choice).0.partial.stop_reason == StopReason::ToolUse,
        reason != "length"@ && reason != "tool_calls"@ ==> on_choice(s, choice).0.partial.stop_reason
            == StopReason::Stop,
        on_choice(s, choice).0.partial.content == s.partial.content,
{
    reveal_strlit("length");
    reveal_strlit("tool_calls");
    reveal_strlit("stop");
    assert("length"@ != "stop"@) by {
        assert("length"@.len() != "stop"@.len());
    }
    assert("tool_calls"@ != "stop"@ && "tool_calls"@ != "length"@) by {
        assert("tool_calls"@.len() != "stop"@.len());
        assert("tool_calls"@.len() != "length"@.len());
    }
    let delta = choice.get("delta"@)->Some_0;
    let p1 = AssistantView { stop_reason: openai_stop_reason(reason), ..s.partial };
    let s1 = OpenAIState { partial: p1, ..s };
    let s2 = match delta.get_str("content"@) {
        Some(c) => OpenAIState { text_started: true, text: s1.text + c, ..s1 },
        None => s1,
    };
    match delta.get_list("tool_calls"@) {
        Some(tcs) => lemma_tool_call_deltas_keep_partial(s2, tcs),
        None => {},
    }
}

/// One line of the response body.
pub open spec fn openai_line(s: OpenAIState, line: Seq<char>) -> (OpenAIState, Seq<EventView>) {
    if s.finished {
        (s, Seq::empty())
    } else {
        match sse_payload(line) {
            None => (s, Seq::empty()),
            Some(d) => if d == "[DONE]"@ {
                (OpenAIState { finished: true, ..s }, Seq::empty())
            } else {
                match json_parse(d) {
                    None => (s, Seq::empty()),
                    Some(chunk) => openai_chunk(s, chunk),
                }
            },
        }
    }
}

} // verus!

verus! {

pub proof fn lemma_count_below(cs: Seq<CallView>, idx: usize, i: int)
    requires
        sorted_calls(cs),
        0 <= i <= cs.len(),
        forall|j: int| 0 <= j < i ==> cs[j].index < idx,
        i == cs.len() || cs[i].index >= idx,
    ensures
        count_below(cs, idx) == i,
    decreases cs.len(),
{
    if cs.len() > 0 {
        let d = cs.drop_last();
        if i == cs.len() {
            lemma_count_below(d, idx, i - 1);
        } else {
            assert(cs.last().index >= idx);
            lemma_count_below(d, idx, i);
        }
    }
}

pub fn events_push(out: &mut Vec<AssistantMessageEvent>, e: AssistantMessageEvent)
    ensures
        crate::ai_types::events_view(final(out)@) == crate::ai_types::events_view(old(out)@).push(e@),
{
    let ghost prev = out@;
    let ghost ev = e@;
    out.push(e);
    assert(crate::ai_types::events_view(out@) =~= crate::ai_types::events_view(prev).push(ev));
}

pub fn events_append(out: &mut Vec<AssistantMessageEvent>, more: Vec<AssistantMessageEvent>)
    ensures
        crate::ai_types::events_view(final(out)@) == crate::ai_types::events_view(old(out)@)
            + crate::ai_types::events_view(more@),
{
    let ghost prev = out@;
    let mut more = more;
    let ghost m = more@;
    out.append(&mut more);
    assert(crate::ai_types::events_view(out@) =~= crate::ai_types::events_view(prev)
        + crate::ai_types::events_view(m));
}

impl OpenAIStream {
    pub open spec fn wf(&self) -> bool {
        &&& sorted_calls(self@.calls)
        &&& tool_calls_keyed(self@.partial.content)
    }

    /// A decoder for a response of `model` from `provider`, with the `Start`
    /// event that opens the stream.
    pub fn new(provider: &str, model: &str, timestamp: u64) -> (r: (OpenAIStream, AssistantMessageEvent))
        ensures
            r.0.wf(),
            r.0@.partial == initial_partial("openai-completions"@, provider@, model@, timestamp),
            r.0@.text.len() == 0,
            r.0@.calls.len() == 0,
            !r.0@.text_started,
            !r.0@.finished,
            r.1@ == (EventView::Start { partial: r.0@.partial }),
    {
        let mut partial = AssistantMessage::empty();
        partial.api = "openai-completions".to_owned();
        partial.provider = provider.to_owned();
        partial.model = model.to_owned();
        partial.timestamp = timestamp;
        assert(partial@.content =~= Seq::<BlockView>::empty());
        let start = AssistantMessageEvent::Start { partial: partial.copy() };
        let s = OpenAIStream {
            partial,
            current_text: String::new(),
            calls: Vec::new(),
            text_started: false,
            finished: false,
        };
        assert(s@.calls =~= Seq::<CallView>::empty());
        (s, start)
    }

    fn on_usage(&mut self, chunk: &DataValue)
        ensures
            final(self)@ == (OpenAIState { partial: on_usage(old(self)@.partial, chunk@), ..old(self)@ }),
    {
        if let Some(u) = chunk.get("usage") {
            if let Some(x) = u.u64_at("prompt_tokens") {
                self.partial.usage.input = x;
            }
            if let Some(x) = u.u64_at("completion_tokens") {
                self.partial.usage.output = x;
            }
            if let Some(x) = u.u64_at("total_tokens") {
                self.partial.usage.total_tokens = x;
            }
            let cached = match u.get("prompt_tokens_details") {
                Some(d) => d.u64_at("cached_tokens"),
                None => None,
            };
            if let Some(x) = cached {
                self.partial.usage.cache_read = x;
            }
        }
    }

    fn position_of(&self, idx: usize) -> (p: usize)
        requires
            self.wf(),
        ensures
            p == count_below(self@.calls, idx),
            p <= self@.calls.len(),
            forall|j: int| 0 <= j < p ==> self@.calls[j].index < idx,
            p == self@.calls.len() || self@.calls[p as int].index >= idx,
    {
        let mut i: usize = 0;
        while i < self.calls.len() && self.calls[i].index < idx
            invariant
                i <= self.calls@.len(),
                forall|j: int| 0 <= j < i ==> self@.calls[j].index < idx,
            decreases self.calls@.len() - i,
        {
            i = i + 1;
        }
        proof {
            lemma_count_below(self@.calls, idx, i as int);
        }
        i
    }

    #[verifier::spinoff_prover]
    #[verifier::rlimit(40)]
    fn on_tool_call_delta(&mut self, tc: &DataValue) -> (out: Vec<AssistantMessageEvent>)
        requires
            old(self).wf(),
        ensures
            final(self).wf(),
            (final(self)@, crate::ai_types::events_view(out@)) == on_tool_call_delta(old(self)@, tc@),
    {
        let idx = match tc.u64_at("index") {
            Some(n) => n,
            None => 0,
        } as usize;
        let pos = self.position_of(idx);
        let mut out: Vec<AssistantMessageEvent> = Vec::new();
        let exists = pos < self.calls.len() && self.calls[pos].index == idx;
        let ghost s0 = self@;
        if !exists {
            let c = PendingCall {
                index: idx,
                id: tc.str_at("id"),
                name: tc.nested_str("function", "name"),
                args: String::new(),
            };
            let ghost cv = c@;
            self.calls.insert(pos, c);
            assert(self@.calls =~= s0.calls.insert(pos as int, cv));
            events_push(
                &mut out,
                AssistantMessageEvent::ToolCallStart { content_index: idx, partial: self.partial.copy() },
            );
        }
        let ghost s1 = self@;
        let args = match tc.get("function") {
            Some(f) => match f.get("arguments") {
                Some(a) => match a.as_str() {
                    Some(x) => Some(x.to_owned()),
                    None => None,
                },
                None => None,
            },
            None => None,
        };
        if let Some(a) = args {
            let mut newargs = self.calls[pos].args.clone();
            newargs.append(a.as_str());
            let c = PendingCall {
                index: self.calls[pos].index,
                id: self.calls[pos].id.clone(),
                name: self.calls[pos].name.clone(),
                args: newargs,
            };
            let ghost cv = c@;
            self.calls.set(pos, c);
            assert(self@.calls =~= s1.calls.update(pos as int, cv));
            events_push(
                &mut out,
                AssistantMessageEvent::ToolCallDelta {
                    content_index: idx,
                    delta: a,
                    partial: self.partial.copy(),
                },
            );
        }
        out
    }

    fn on_tool_calls(&mut self, tcs: &Vec<DataValue>) -> (out: Vec<AssistantMessageEvent>)
        requires
            old(self).wf(),
        ensures
            final(self).wf(),
            (final(self)@, crate::ai_types::events_view(out@)) == on_tool_call_deltas(
                old(self)@,
                views(tcs@),
            ),
    {
        let ghost s0 = self@;
        let ghost tseq = views(tcs@);
        let mut out: Vec<AssistantMessageEvent> = Vec::new();
        let mut i: usize = 0;
        assert(tseq.take(0) =~= Seq::<Data>::empty());
        assert(crate::ai_types::events_view(out@) =~= Seq::<EventView>::empty());
        while i < tcs.len()
            invariant
                self.wf(),
                i <= tcs@.len(),
                tseq == views(tcs@),
                (self@, crate::ai_types::events_view(out@)) == on_tool_call_deltas(
                    s0,
                    tseq.take(i as int),
                ),
            decreases tcs@.len() - i,
        {
            let more = self.on_tool_call_delta(&tcs[i]);
            events_append(&mut out, more);
            assert(tseq.take(i + 1).drop_last() =~= tseq.take(i as int));
            assert(tseq.take(i + 1).last() == tcs@[i as int]@);
            i = i + 1;
        }
        assert(tseq.take(tcs@.len() as int) =~= tseq);
        out
    }

    fn on_content(&mut self, delta: &DataValue) -> (out: Vec<AssistantMessageEvent>)
        ensures
            (final(self)@, crate::ai_types::events_view(out@)) == (match delta@.get_str("content"@) {
                Some(c) => {
                    let start = if old(self)@.text_started {
                        Seq::<EventView>::empty()
                    } else {
                        seq![EventView::TextStart { index: 0, partial: old(self)@.partial }]
                    };
                    (
                        OpenAIState { text_started: true, text: old(self)@.text + c, ..old(self)@ },
                        start.push(EventView::TextDelta { index: 0, delta: c, partial: old(self)@.partial }),
                    )
                },
                None => (old(self)@, Seq::empty()),
            }),
    {
        let mut out: Vec<AssistantMessageEvent> = Vec::new();
        assert(crate::ai_types::events_view(out@) =~= Seq::<EventView>::empty());
        if let Some(c) = delta.get_str("content") {
            if !self.text_started {
                self.text_started = true;
                events_push(
                    &mut out,
                    AssistantMessageEvent::TextStart { content_index: 0, partial: self.partial.copy() },
                );
            }
            self.current_text.append(c.as_str());
            events_push(
                &mut out,
                AssistantMessageEvent::TextDelta { content_index: 0, delta: c, partial: self.partial.copy() },
            );
        }
        out
    }

    fn reasoning(&self, delta: &DataValue) -> (out: Vec<AssistantMessageEvent>)
        ensures
            crate::ai_types::events_view(out@) == reasoning_events(delta@, self@.partial),
    {
        let mut out: Vec<AssistantMessageEvent> = Vec::new();
        assert(crate::ai_types::events_view(out@) =~= Seq::<EventView>::empty());
        if let Some(r) = delta.get_str("reasoning_content") {
            events_push(
                &mut out,
                AssistantMessageEvent::ThinkingDelta { content_index: 0, delta: r, partial: self.partial.copy() },
            );
        }
        let ghost e1 = crate::ai_types::events_view(out@);
        if let Some(r) = delta.get_str("reasoning") {
            events_push(
                &mut out,
                AssistantMessageEvent::ThinkingDelta { content_index: 0, delta: r, partial: self.partial.copy() },
            );
        }
        let ghost e2 = crate::ai_types::events_view(out@);
        if let Some(r) = delta.get_str("reasoning_text") {
            events_push(
                &mut out,
                AssistantMessageEvent::ThinkingDelta { content_index: 0, delta: r, partial: self.partial.copy() },
            );
        }
        assert(e1 =~= reasoning_event(delta@, "reasoning_content"@, self@.partial));
        assert(e2 =~= e1 + reasoning_event(delta@, "reasoning"@, self@.partial));
        assert(crate::ai_types::events_view(out@) =~= e2 + reasoning_event(delta@, "reasoning_text"@, self@.partial));
        out
    }

    fn on_choice(&mut self, choice: &DataValue) -> (out: Vec<AssistantMessageEvent>)
        requires
            old(self).wf(),
        ensures
            final(self).wf(),
            (final(self)@, crate::ai_types::events_view(out@)) == on_choice(old(self)@, choice@),
    {
        let delta = match choice.get("delta") {
            Some(d) => d,
            None => {
                let out: Vec<AssistantMessageEvent> = Vec::new();
                assert(crate::ai_types::events_view(out@) =~= Seq::<EventView>::empty());
                return out;
            },
        };
        if let Some(f) = choice.get_str("finish_reason") {
            self.partial.stop_reason = if str_eq(f.as_str(), "stop") {
                StopReason::Stop
            } else if str_eq(f.as_str(), "length") {
                StopReason::Length
            } else if str_eq(f.as_str(), "tool_calls") {
                StopReason::ToolUse
            } else {
                StopReason::Stop
            };
        }
        let ghost p1 = self.partial@;
        let mut out = self.on_content(delta);
        let r = self.reasoning(delta);
        assert(self.partial@ == p1);
        events_append(&mut out, r);
        let ghost e3 = crate::ai_types::events_view(out@);
        match delta.get("tool_calls") {
            Some(tv) => match tv.as_list() {
                Some(tcs) => {
                    let more = self.on_tool_calls(tcs);
                    events_append(&mut out, more);
                },
                None => {
                    assert(crate::ai_types::events_view(out@) =~= e3 + Seq::<EventView>::empty());
                },
            },
            None => {
                assert(crate::ai_types::events_view(out@) =~= e3 + Seq::<EventView>::empty());
            },
        }
        out
    }
}

} // verus!

verus! {

pub open spec fn finish_calls(p: AssistantView, cs: Seq<CallView>) -> (AssistantView, Seq<EventView>)
    decreases cs.len(),
{
    if cs.len() == 0 {
        (p, Seq::empty())
    } else {
        let (p1, e1) = finish_calls(p, cs.drop_last());
        let c = cs.last();
        let tc = ToolCallView {
            id: c.id,
            name: c.name,
            arguments: crate::anthropic::args_of(c.args),
            thought_signature: None,
        };
        let p2 = push_block(p1, BlockView::ToolCall(tc));
        (p2, e1.push(EventView::ToolCallEnd { index: c.index, tool_call: tc, partial: p2 }))
    }
}

/// The end of the stream: the text block where text was streamed, then each
/// tool call in increasing order of index, with its parsed arguments.
pub open spec fn openai_finish(s: OpenAIState) -> (AssistantView, Seq<EventView>) {
    let (p1, e1) = if s.text_started {
        let p = push_block(s.partial, BlockView::Text { text: s.text, signature: None });
        (p, seq![EventView::TextEnd { index: 0, content: s.text, partial: p }])
    } else {
        (s.partial, Seq::empty())
    };
    let (p2, e2) = finish_calls(p1, s.calls);
    (p2, e1 + e2)
}

proof fn lemma_finish_calls_keep_stop_reason(p: AssistantView, cs: Seq<CallView>)
    ensures
        finish_calls(p, cs).0.stop_reason == p.stop_reason,
    decreases cs.len(),
{
    if cs.len() > 0 {
        lemma_finish_calls_keep_stop_reason(p, cs.drop_last());
    }
}

/// Closing the stream keeps the stop reason that the chunks set.
pub proof fn lemma_finish_keeps_stop_reason(s: OpenAIState)
    ensures
        openai_finish(s).0.stop_reason == s.partial.stop_reason,
{
    let p1 = if s.text_started {
        push_block(s.partial, BlockView::Text { text: s.text, signature: None })
    } else {
        s.partial
    };
    lemma_finish_calls_keep_stop_reason(p1, s.calls);
}

impl OpenAIStream {
    fn on_choices(&mut self, cs: &Vec<DataValue>) -> (out: Vec<AssistantMessageEvent>)
        requires
            old(self).wf(),
        ensures
            final(self).wf(),
            (final(self)@, crate::ai_types::events_view(out@)) == on_choices(old(self)@, views(cs@)),
    {
        let ghost s0 = self@;
        let ghost cseq = views(cs@);
        let mut out: Vec<AssistantMessageEvent> = Vec::new();
        let mut i: usize = 0;
        assert(cseq.take(0) =~= Seq::<Data>::empty());
        assert(crate::ai_types::events_view(out@) =~= Seq::<EventView>::empty());
        while i < cs.len()
            invariant
                self.wf(),
                i <= cs@.len(),
                cseq == views(cs@),
                (self@, crate::ai_types::events_view(out@)) == on_choices(s0, cseq.take(i as int)),
            decreases cs@.len() - i,
        {
            let more = self.on_choice(&cs[i]);
            events_append(&mut out, more);
            assert(cseq.take(i + 1).drop_last() =~= cseq.take(i as int));
            assert(cseq.take(i + 1).last() == cs@[i as int]@);
            i = i + 1;
        }
        assert(cseq.take(cs@.len() as int) =~= cseq);
        out
    }

    /// Applies one parsed chunk.
    pub fn on_chunk(&mut self, chunk: &DataValue) -> (out: Vec<AssistantMessageEvent>)
        requires
            old(self).wf(),
        ensures
            final(self).wf(),
            (final(self)@, crate::ai_types::events_view(out@)) == openai_chunk(old(self)@, chunk@),
    {
        self.on_usage(chunk);
        match chunk.get("choices") {
            Some(cv) => match cv.as_list() {
                Some(cs) => self.on_choices(cs),
                None => {
                    let out: Vec<AssistantMessageEvent> = Vec::new();
                    assert(crate::ai_types::events_view(out@) =~= Seq::<EventView>::empty());
                    out
                },
            },
            None => {
                let out: Vec<AssistantMessageEvent> = Vec::new();
                assert(crate::ai_types::events_view(out@) =~= Seq::<EventView>::empty());
                out
            },
        }
    }

    /// Feeds one line of the response body.
    pub fn process_line(&mut self, line: &str) -> (out: Vec<AssistantMessageEvent>)
        requires
            old(self).wf(),
        ensures
            final(self).wf(),
            (final(self)@, crate::ai_types::events_view(out@)) == openai_line(old(self)@, line@),
    {
        let empty: Vec<AssistantMessageEvent> = Vec::new();
        assert(crate::ai_types::events_view(empty@) =~= Seq::<EventView>::empty());
        if self.finished {
            return empty;
        }
        match sse_payload_of(line) {
            None => empty,
            Some(d) => {
                if str_eq(d.as_str(), "[DONE]") {
                    self.finished = true;
                    empty
                } else {
                    match parse_json(d.as_str()) {
                        None => empty,
                        Some(chunk) => self.on_chunk(&chunk),
                    }
                }
            },
        }
    }

    /// Closes the stream: the final message and the closing events.
    pub fn finish(self) -> (r: (AssistantMessage, Vec<AssistantMessageEvent>))
        ensures
            (r.0@, crate::ai_types::events_view(r.1@)) == openai_finish(self@),
            tool_calls_keyed(self@.partial.content) ==> tool_calls_keyed(r.0@.content),
    {
        let ghost s0 = self@;
        let mut partial = self.partial;
        let mut out: Vec<AssistantMessageEvent> = Vec::new();
        assert(crate::ai_types::events_view(out@) =~= Seq::<EventView>::empty());
        if self.text_started {
            let text = self.current_text;
            let ghost before = partial@;
            partial.content.push(ContentBlock::Text(TextContent { text: text.clone(), text_signature: None }));
            assert(partial@.content =~= before.content.push(BlockView::Text { text: text@, signature: None }));
            events_push(
                &mut out,
                AssistantMessageEvent::TextEnd { content_index: 0, content: text, partial: partial.copy() },
            );
        }
        let ghost p1 = partial@;
        let ghost e1 = crate::ai_types::events_view(out@);
        let calls = self.calls;
        let mut i: usize = 0;
        assert(calls_view(calls@).take(0) =~= Seq::<CallView>::empty());
        while i < calls.len()
            invariant
                i <= calls@.len(),
                calls_view(calls@) == s0.calls,
                e1.len() <= crate::ai_types::events_view(out@).len(),
                crate::ai_types::events_view(out@).subrange(0, e1.len() as int) == e1,
                (partial@, crate::ai_types::events_view(out@).subrange(e1.len() as int, crate::ai_types::events_view(out@).len() as int))
                    == finish_calls(p1, s0.calls.take(i as int)),
                tool_calls_keyed(s0.partial.content) ==> tool_calls_keyed(partial@.content),
            decreases calls@.len() - i,
        {
            let c = &calls[i];
            let parsed = parse_json(c.args.as_str());
            let ghost pv = crate::data::opt_view(parsed);
            let arguments = match parsed {
                Some(DataValue::Object(es)) => es,
                _ => Vec::new(),
            };
            proof {
                assert(entries_view(arguments@) =~= crate::anthropic::args_of(s0.calls[i as int].args));
                if pv matches Some(Data::Object(_)) {
                    crate::data::lemma_object_keys_distinct(pv->Some_0);
                }
                assert(crate::data::distinct_keys(entries_view(arguments@)));
            }
            let tc = ToolCall { id: c.id.clone(), name: c.name.clone(), arguments, thought_signature: None };
            let tc2 = tc.copy();
            let ghost before = partial@;
            partial.content.push(ContentBlock::ToolCall(tc));
            assert(partial@.content =~= before.content.push(BlockView::ToolCall(tc2@)));
            let ghost ebefore = crate::ai_types::events_view(out@);
            events_push(
                &mut out,
                AssistantMessageEvent::ToolCallEnd { content_index: c.index, tool_call: tc2, partial: partial.copy() },
            );
            assert(s0.calls.take(i + 1).drop_last() =~= s0.calls.take(i as int));
            assert(s0.calls.take(i + 1).last() == s0.calls[i as int]);
            assert(crate::ai_types::events_view(out@).subrange(e1.len() as int, crate::ai_types::events_view(out@).len() as int)
                =~= ebefore.subrange(e1.len() as int, ebefore.len() as int).push(crate::ai_types::events_view(out@).last()));
            assert(crate::ai_types::events_view(out@).subrange(0, e1.len() as int) =~= e1);
            i = i + 1;
        }
        assert(s0.calls.take(calls@.len() as int) =~= s0.calls);
        assert(crate::ai_types::events_view(out@) =~= e1 + crate::ai_types::events_view(out@).subrange(e1.len() as int, crate::ai_types::events_view(out@).len() as int));
        (partial, out)
    }
}

} // verus!

verus! {

/// Per-model deviations from the chat completions protocol.
pub struct OpenAICompletionsCompat {
    pub supports_store: Option<bool>,
    pub supports_developer_role: Option<bool>,
    pub supports_reasoning_effort: Option<bool>,
    pub reasoning_effort_map: Option<Vec<(String, String)>>,
    pub supports_usage_in_streaming: Option<bool>,
    pub max_tokens_field: Option<String>,
    pub requires_tool_result_name: Option<bool>,
    pub requires_assistant_after_tool_result: Option<bool>,
    pub requires_thinking_as_text: Option<bool>,
    pub requires_mistral_tool_ids: Option<bool>,
    pub thinking_format: Option<String>,
    pub supports_strict_mode: Option<bool>,
}

/// The body field that carries the token limit: the model's own name for it,
/// else `max_tokens`.
pub open spec fn spec_max_tokens_field(compat: Option<OpenAICompletionsCompat>) -> Seq<char> {
    match compat {
        Some(c) => match c.max_tokens_field {
            Some(f) => f@,
            None => "max_tokens"@,
        },
        None => "max_tokens"@,
    }
}

pub fn max_tokens_field(compat: &Option<OpenAICompletionsCompat>) -> (r: String)
    ensures
        r@ == spec_max_tokens_field(*compat),
{
    match compat {
        Some(c) => match &c.max_tokens_field {
            Some(f) => f.clone(),
            None => "max_tokens".to_owned(),
        },
        None => "max_tokens".to_owned(),
    }
}

/// The reasoning effort a thinking level is sent as.
pub open spec fn spec_reasoning_effort(level: ThinkingLevel) -> Seq<char> {
    match level {
        ThinkingLevel::Minimal | ThinkingLevel::Low => "low"@,
        ThinkingLevel::Medium => "medium"@,
        ThinkingLevel::High | ThinkingLevel::Xhigh => "high"@,
    }
}

pub fn reasoning_effort(level: ThinkingLevel) -> (r: String)
    ensures
        r@ == spec_reasoning_effort(level),
{
    match level {
        ThinkingLevel::Minimal | ThinkingLevel::Low => "low".to_owned(),
        ThinkingLevel::Medium => "medium".to_owned(),
        ThinkingLevel::High | ThinkingLevel::Xhigh => "high".to_owned(),
    }
}

pub open spec fn s(x: Seq<char>) -> Data {
    Data::Str(x)
}

pub open spec fn text_part(t: Seq<char>) -> Data {
    Data::Object(seq![("type"@, s("text"@)), ("text"@, s(t))])
}

pub open spec fn user_block_json(b: UserContentBlock) -> Data {
    match b {
        UserContentBlock::Text(t) => text_part(t.text@),
        UserContentBlock::Image(img) => Data::Object(
            seq![
                ("type"@, s("image_url"@)),
                (
                    "image_url"@,
                    Data::Object(
                        seq![("url"@, s("data:"@ + img.mime_type@ + ";base64,"@ + img.data@))],
                    ),
                ),
            ],
        ),
    }
}

pub open spec fn user_content_json(c: UserContent) -> Data {
    match c {
        UserContent::Text(t) => s(t@),
        UserContent::Blocks(bs) => Data::List(bs@.map_values(|b: UserContentBlock| user_block_json(b))),
    }
}

/// The text parts of an assistant message: text as is, thinking wrapped in
/// `<thinking>` tags; tool calls and images give none.
pub open spec fn content_parts(bs: Seq<ContentBlock>) -> Seq<Data>
    decreases bs.len(),
{
    if bs.len() == 0 {
        Seq::empty()
    } else {
        let rest = content_parts(bs.drop_last());
        match bs.last() {
            ContentBlock::Text(t) => rest.push(text_part(t.text@)),
            ContentBlock::Thinking(t) => rest.push(
                text_part("<thinking>"@ + t.thinking@ + "</thinking>"@),
            ),
            _ => rest,
        }
    }
}

/// The tool calls of an assistant message, with their arguments rendered as
/// JSON text.
pub open spec fn tool_call_parts(bs: Seq<ContentBlock>) -> Seq<Data>
    decreases bs.len(),
{
    if bs.len() == 0 {
        Seq::empty()
    } else {
        let rest = tool_call_parts(bs.drop_last());
        match bs.last() {
            ContentBlock::ToolCall(tc) => rest.push(
                Data::Object(
                    seq![
                        ("id"@, s(tc.id@)),
                        ("type"@, s("function"@)),
                        (
                            "function"@,
                            Data::Object(
                                seq![
                                    ("name"@, s(tc.name@)),
                                    (
                                        "arguments"@,
                                        s(crate::data::json_render(Data::Object(entries_view(tc.arguments@)))),
                                    ),
                                ],
                            ),
                        ),
                    ],
                ),
            ),
            _ => rest,
        }
    }
}

/// The texts of a tool result.
pub open spec fn result_texts(cs: Seq<ToolResultContent>) -> Seq<Seq<char>>
    decreases cs.len(),
{
    if cs.len() == 0 {
        Seq::empty()
    } else {
        let rest = result_texts(cs.drop_last());
        match cs.last() {
            ToolResultContent::Text(t) => rest.push(t.text@),
            _ => rest,
        }
    }
}

/// An assistant message: a single text part is sent as plain content, several
/// as a list; tool calls go under `tool_calls`.
pub open spec fn assistant_json(bs: Seq<ContentBlock>) -> Data {
    let parts = content_parts(bs);
    let calls = tool_call_parts(bs);
    let content = if parts.len() == 1 {
        match parts[0].get("text"@) {
            Some(t) => seq![("content"@, t)],
            None => Seq::empty(),
        }
    } else if parts.len() > 0 {
        seq![("content"@, Data::List(parts))]
    } else {
        Seq::empty()
    };
    let tool_calls = if calls.len() > 0 {
        seq![("tool_calls"@, Data::List(calls))]
    } else {
        Seq::empty()
    };
    Data::Object(seq![("role"@, s("assistant"@))] + content + tool_calls)
}

pub open spec fn openai_message_json(m: Message) -> Data {
    match m {
        Message::User(u) => Data::Object(
            seq![("role"@, s("user"@)), ("content"@, user_content_json(u.content))],
        ),
        Message::Assistant(a) => assistant_json(a.content@),
        Message::ToolResult(tr) => Data::Object(
            seq![
                ("role"@, s("tool"@)),
                ("tool_call_id"@, s(tr.tool_call_id@)),
                ("content"@, s(crate::text::join_seq(result_texts(tr.content@), "\n"@))),
            ],
        ),
    }
}

pub open spec fn openai_messages_json(ms: Seq<Message>) -> Seq<Data> {
    ms.map_values(|m: Message| openai_message_json(m))
}

/// The request messages: the system prompt first where there is one, then
/// each message.
pub open spec fn openai_context_json(c: Context) -> Seq<Data> {
    let system = match c.system_prompt {
        Some(sp) => seq![Data::Object(seq![("role"@, s("system"@)), ("content"@, s(sp@))])],
        None => Seq::empty(),
    };
    system + openai_messages_json(c.messages@)
}

} // verus!

verus! {

fn text_part_value(t: String) -> (r: DataValue)
    ensures
        r@ == text_part(t@),
{
    DataValue::obj2("type", DataValue::text("text"), "text", DataValue::string(t))
}

fn user_block_value(b: &UserContentBlock) -> (r: DataValue)
    ensures
        r@ == user_block_json(*b),
{
    match b {
        UserContentBlock::Text(t) => text_part_value(t.text.clone()),
        UserContentBlock::Image(img) => {
            let url = "data:".to_owned().concat(img.mime_type.as_str()).concat(";base64,").concat(
                img.data.as_str(),
            );
            DataValue::obj2(
                "type",
                DataValue::text("image_url"),
                "image_url",
                DataValue::obj1("url", DataValue::string(url)),
            )
        },
    }
}

fn user_content_value(c: &UserContent) -> (r: DataValue)
    ensures
        r@ == user_content_json(*c),
{
    match c {
        UserContent::Text(t) => DataValue::string(t.clone()),
        UserContent::Blocks(bs) => {
            let mut items: Vec<DataValue> = Vec::new();
            let mut i: usize = 0;
            while i < bs.len()
                invariant
                    i <= bs@.len(),
                    views(items@) == bs@.take(i as int).map_values(|b: UserContentBlock| user_block_json(b)),
                decreases bs@.len() - i,
            {
                push_value(&mut items, user_block_value(&bs[i]));
                proof {
                    lemma_map_take_push(bs@, i as int, |b: UserContentBlock| user_block_json(b));
                }
                i = i + 1;
            }
            assert(bs@.take(bs@.len() as int) == bs@);
            DataValue::list(items)
        },
    }
}

fn assistant_value(bs: &Vec<ContentBlock>) -> (r: DataValue)
    ensures
        r@ == assistant_json(bs@),
{
    let mut parts: Vec<DataValue> = Vec::new();
    let mut calls: Vec<DataValue> = Vec::new();
    let mut i: usize = 0;
    assert(bs@.take(0) =~= Seq::<ContentBlock>::empty());
    assert(views(parts@) =~= Seq::<Data>::empty());
    assert(views(calls@) =~= Seq::<Data>::empty());
    while i < bs.len()
        invariant
            i <= bs@.len(),
            views(parts@) == content_parts(bs@.take(i as int)),
            views(calls@) == tool_call_parts(bs@.take(i as int)),
        decreases bs@.len() - i,
    {
        assert(bs@.take(i + 1).drop_last() =~= bs@.take(i as int));
        assert(bs@.take(i + 1).last() == bs@[i as int]);
        match &bs[i] {
            ContentBlock::Text(t) => {
                push_value(&mut parts, text_part_value(t.text.clone()));
            },
            ContentBlock::Thinking(t) => {
                let wrapped = "<thinking>".to_owned().concat(t.thinking.as_str()).concat("</thinking>");
                push_value(&mut parts, text_part_value(wrapped));
            },
            ContentBlock::ToolCall(tc) => {
                let args = crate::data::render_json(&DataValue::object(crate::ai_types::clone_entries(&tc.arguments)));
                let f = DataValue::obj2("name", DataValue::string(tc.name.clone()), "arguments", DataValue::string(args));
                push_value(
                    &mut calls,
                    DataValue::obj3("id", DataValue::string(tc.id.clone()), "type", DataValue::text("function"), "function", f),
                );
            },
            ContentBlock::Image(_) => {},
        }
        i = i + 1;
    }
    assert(bs@.take(bs@.len() as int) =~= bs@);
    let mut es: Vec<(String, DataValue)> = Vec::new();
    push_entry(&mut es, "role", DataValue::text("assistant"));
    let ghost role = pairs_view(es@);
    if parts.len() == 1 {
        match parts[0].get("text") {
            Some(t) => {
                push_entry(&mut es, "content", t.copy());
            },
            None => {},
        }
    } else if parts.len() > 0 {
        push_entry(&mut es, "content", DataValue::list(parts));
    }
    let ghost with_content = pairs_view(es@);
    if calls.len() > 0 {
        push_entry(&mut es, "tool_calls", DataValue::list(calls));
    }
    proof {
        let ps = content_parts(bs@);
        let cs = tool_call_parts(bs@);
        let content = if ps.len() == 1 {
            match ps[0].get("text"@) {
                Some(t) => seq![("content"@, t)],
                None => Seq::empty(),
            }
        } else if ps.len() > 0 {
            seq![("content"@, Data::List(ps))]
        } else {
            Seq::empty()
        };
        assert(with_content =~= seq![("role"@, s("assistant"@))] + content);
        let tool_calls = if cs.len() > 0 {
            seq![("tool_calls"@, Data::List(cs))]
        } else {
            Seq::empty()
        };
        assert(pairs_view(es@) =~= seq![("role"@, s("assistant"@))] + content + tool_calls);
    }
    DataValue::object(es)
}

fn result_text(cs: &Vec<ToolResultContent>) -> (r: String)
    ensures
        r@ == crate::text::join_seq(result_texts(cs@), "\n"@),
{
    let mut texts: Vec<String> = Vec::new();
    let mut i: usize = 0;
    assert(cs@.take(0) =~= Seq::<ToolResultContent>::empty());
    assert(crate::text::views_of(texts@) =~= Seq::<Seq<char>>::empty());
    while i < cs.len()
        invariant
            i <= cs@.len(),
            crate::text::views_of(texts@) == result_texts(cs@.take(i as int)),
        decreases cs@.len() - i,
    {
        assert(cs@.take(i + 1).drop_last() =~= cs@.take(i as int));
        assert(cs@.take(i + 1).last() == cs@[i as int]);
        match &cs[i] {
            ToolResultContent::Text(t) => {
                let ghost prev = texts@;
                let x = t.text.clone();
                texts.push(x);
                assert(crate::text::views_of(texts@) =~= crate::text::views_of(prev).push(x@));
            },
            _ => {},
        }
        i = i + 1;
    }
    assert(cs@.take(cs@.len() as int) =~= cs@);
    crate::text::join(&texts, "\n")
}

fn message_value(m: &Message) -> (r: DataValue)
    ensures
        r@ == openai_message_json(*m),
{
    match m {
        Message::User(u) => DataValue::obj2("role", DataValue::text("user"), "content", user_content_value(&u.content)),
        Message::Assistant(a) => assistant_value(&a.content),
        Message::ToolResult(tr) => DataValue::obj3(
            "role",
            DataValue::text("tool"),
            "tool_call_id",
            DataValue::string(tr.tool_call_id.clone()),
            "content",
            DataValue::string(result_text(&tr.content)),
        ),
    }
}

/// Converts the context to chat completions messages.
pub fn convert_messages(context: &Context) -> (r: Vec<DataValue>)
    ensures
        views(r@) == openai_context_json(*context),
{
    let mut out: Vec<DataValue> = Vec::new();
    if let Some(sp) = &context.system_prompt {
        push_value(&mut out, DataValue::obj2("role", DataValue::text("system"), "content", DataValue::string(sp.clone())));
    }
    let ghost system = views(out@);
    let ms = &context.messages;
    let mut i: usize = 0;
    while i < ms.len()
        invariant
            i <= ms@.len(),
            views(out@) == system + openai_messages_json(ms@.take(i as int)),
        decreases ms@.len() - i,
    {
        push_value(&mut out, message_value(&ms[i]));
        proof {
            lemma_map_take_push(ms@, i as int, |m: Message| openai_message_json(m));
        }
        i = i + 1;
    }
    assert(ms@.take(ms@.len() as int) == ms@);
    proof {
        let c = *context;
        assert(system =~= match c.system_prompt {
            Some(sp) => seq![Data::Object(seq![("role"@, s("system"@)), ("content"@, s(sp@))])],
            None => Seq::<Data>::empty(),
        });
    }
    out
}

} // verus!

verus! {

pub open spec fn tool_def_json(t: Tool) -> Data {
    Data::Object(
        seq![
            ("type"@, s("function"@)),
            (
                "function"@,
                Data::Object(
                    seq![
                        ("name"@, s(t.name@)),
                        ("description"@, s(t.description@)),
                        ("parameters"@, t.parameters@),
                    ],
                ),
            ),
        ],
    )
}

pub open spec fn tool_defs_json(ts: Seq<Tool>) -> Seq<Data> {
    ts.map_values(|t: Tool| tool_def_json(t))
}

/// The request body: model, messages, the token limit under the model's
/// field name, streaming with usage, then temperature, reasoning effort and
/// tools where given.
pub open spec fn openai_body(
    model: Model,
    context: Context,
    options: StreamOptions,
    effort: Option<Seq<char>>,
    field: Seq<char>,
) -> Data {
    let base = seq![
        ("model"@, s(model.id@)),
        ("messages"@, Data::List(openai_context_json(context))),
        (field, num_data(crate::anthropic::request_max_tokens(model, options) as u64)),
        ("stream"@, Data::Bool(true)),
        ("stream_options"@, Data::Object(seq![("include_usage"@, Data::Bool(true))])),
    ];
    let temperature = match options.temperature {
        Some(t) => seq![("temperature"@, t@)],
        None => Seq::empty(),
    };
    let effort_entry = match effort {
        Some(e) => seq![("reasoning_effort"@, s(e))],
        None => Seq::empty(),
    };
    let tools = match context.tools {
        Some(ts) => crate::anthropic::opt_entry(ts@.len() > 0, "tools"@, Data::List(tool_defs_json(ts@))),
        None => Seq::empty(),
    };
    Data::Object(base + temperature + effort_entry + tools)
}

fn tool_defs_value(ts: &Vec<Tool>) -> (r: Vec<DataValue>)
    ensures
        views(r@) == tool_defs_json(ts@),
{
    let mut out: Vec<DataValue> = Vec::new();
    let mut i: usize = 0;
    while i < ts.len()
        invariant
            i <= ts@.len(),
            views(out@) == tool_defs_json(ts@.take(i as int)),
        decreases ts@.len() - i,
    {
        let t = &ts[i];
        let f = DataValue::obj3(
            "name",
            DataValue::string(t.name.clone()),
            "description",
            DataValue::string(t.description.clone()),
            "parameters",
            t.parameters.copy(),
        );
        push_value(&mut out, DataValue::obj2("type", DataValue::text("function"), "function", f));
        proof {
            lemma_map_take_push(ts@, i as int, |t: Tool| tool_def_json(t));
        }
        i = i + 1;
    }
    assert(ts@.take(ts@.len() as int) == ts@);
    out
}

pub open spec fn opt_seq(o: Option<String>) -> Option<Seq<char>> {
    crate::ai_types::opt_str(o)
}

/// The request body of a streaming request.
pub fn request_body(
    model: &Model,
    context: &Context,
    options: &StreamOptions,
    effort: &Option<String>,
    field: &str,
) -> (r: DataValue)
    ensures
        r@ == openai_body(*model, *context, *options, opt_seq(*effort), field@),
{
    let max_tokens: u32 = match options.max_tokens {
        Some(n) => n,
        None => if model.max_tokens <= 32000 { model.max_tokens } else { 32000 },
    };
    let mut es: Vec<(String, DataValue)> = Vec::new();
    push_entry(&mut es, "model", DataValue::string(model.id.clone()));
    push_entry(&mut es, "messages", DataValue::list(convert_messages(context)));
    push_entry(&mut es, field, DataValue::from_u64(max_tokens as u64));
    push_entry(&mut es, "stream", DataValue::Bool(true));
    push_entry(&mut es, "stream_options", DataValue::obj1("include_usage", DataValue::Bool(true)));
    let ghost base = pairs_view(es@);
    if let Some(t) = &options.temperature {
        push_entry(&mut es, "temperature", t.copy());
    }
    let ghost with_temperature = pairs_view(es@);
    if let Some(e) = effort {
        push_entry(&mut es, "reasoning_effort", DataValue::string(e.clone()));
    }
    let ghost with_effort = pairs_view(es@);
    if let Some(ts) = &context.tools {
        if ts.len() > 0 {
            push_entry(&mut es, "tools", DataValue::list(tool_defs_value(ts)));
        }
    }
    proof {
        let m = *model;
        let c = *context;
        let o = *options;
        assert(base =~= seq![
            ("model"@, s(m.id@)),
            ("messages"@, Data::List(openai_context_json(c))),
            (field@, num_data(crate::anthropic::request_max_tokens(m, o) as u64)),
            ("stream"@, Data::Bool(true)),
            ("stream_options"@, Data::Object(seq![("include_usage"@, Data::Bool(true))])),
        ]);
        let temperature = match o.temperature {
            Some(t) => seq![("temperature"@, t@)],
            None => Seq::empty(),
        };
        assert(with_temperature =~= base + temperature);
        let effort_entry = match opt_seq(*effort) {
            Some(e) => seq![("reasoning_effort"@, s(e))],
            None => Seq::empty(),
        };
        assert(with_effort =~= base + temperature + effort_entry);
        let tools = match c.tools {
            Some(ts) => crate::anthropic::opt_entry(ts@.len() > 0, "tools"@, Data::List(tool_defs_json(ts@))),
            None => Seq::empty(),
        };
        assert(pairs_view(es@) =~= base + temperature + effort_entry + tools);
    }
    DataValue::object(es)
}

/// The endpoint of a model's base URL.
pub fn request_url(base_url: &str) -> (r: String)
    ensures
        r@ == base_url@ + "/v1/chat/completions"@,
{
    base_url.to_owned().concat("/v1/chat/completions")
}

/// The request headers: bearer authorization and content type, then the
/// caller's headers.
pub fn request_headers(api_key: &str, extra: &Option<Vec<(String, String)>>) -> (r: Vec<(String, String)>)
    ensures
        str_pairs(r@) == seq![
            ("Authorization"@, "Bearer "@ + api_key@),
            ("Content-Type"@, "application/json"@),
        ] + (match *extra {
            Some(h) => str_pairs(h@),
            None => Seq::empty(),
        }),
{
    let mut r: Vec<(String, String)> = Vec::new();
    r.push(("Authorization".to_owned(), "Bearer ".to_owned().concat(api_key)));
    r.push(("Content-Type".to_owned(), "application/json".to_owned()));
    let ghost fixed = str_pairs(r@);
    if let Some(h) = extra {
        let mut i: usize = 0;
        while i < h.len()
            invariant
                i <= h@.len(),
                str_pairs(r@) == fixed + str_pairs(h@.take(i as int)),
            decreases h@.len() - i,
        {
            let p = (h[i].0.clone(), h[i].1.clone());
            let ghost prev = r@;
            r.push(p);
            assert(str_pairs(r@) =~= str_pairs(prev).push((p.0@, p.1@)));
            proof {
                lemma_map_take_push(h@, i as int, |p: (String, String)| (p.0@, p.1@));
            }
            i = i + 1;
        }
        assert(h@.take(h@.len() as int) == h@);
    }
    proof {
        assert(fixed =~= seq![
            ("Authorization"@, "Bearer "@ + api_key@),
            ("Content-Type"@, "application/json"@),
        ]);
        if extra is None {
            assert(str_pairs(r@) =~= fixed + Seq::empty());
        }
    }
    r
}

/// The failure text when no API key is known.
pub fn missing_key_message(provider: &str) -> (r: String)
    ensures
        r@ == "No API key found for provider '"@ + provider@ + "'. Set the appropriate API key env var."@,
{
    "No API key found for provider '".to_owned().concat(provider).concat(
        "'. Set the appropriate API key env var.",
    )
}

} // verus!
