//! The Google Generative AI API: content conversion, request building and the
//! server-sent event decoder.
use vstd::prelude::*;

use crate::ai_types::{
    entries_view, AssistantMessage, AssistantMessageEvent, AssistantView, BlockView, ContentBlock,
    Context, EventView, Message, Model, StopReason, StreamOptions, TextContent, ThinkingLevel,
    Tool, ToolCall, ToolCallView, tool_calls_keyed, ToolResultContent, Usage, UserContent, UserContentBlock,
};
use crate::anthropic::{initial_partial, push_block, upd, with_usage};
use crate::data::{
    at, json_parse, keys_unique, lemma_get_keys_unique, lemma_item_keys_unique, lemma_object_keys_distinct, pairs_view, parse_json, push_entry, push_value, views, Data, DataValue,
};
use crate::sse::{sse_payload, sse_payload_of};
use crate::text::{lemma_map_take_push, str_eq, str_pairs};
use crate::openai::{events_append, events_push};

verus! {

/// The API identifier of the Google provider.
pub struct GoogleProvider;

impl GoogleProvider {
    pub fn api(&self) -> (r: &'static str)
        ensures
            r@ == "google-generative-ai"@,
    {
        "google-generative-ai"
    }
}

pub open spec fn spec_map_stop_reason(reason: Seq<char>) -> StopReason {
    if reason == "MAX_TOKENS"@ {
        StopReason::Length
    } else {
        StopReason::Stop
    }
}

/// Maps a Google finish reason: `MAX_TOKENS` is a length stop; `STOP`,
/// `SAFETY`, `RECITATION`, `OTHER` and anything else are plain stops.
pub fn map_stop_reason(reason: &str) -> (r: StopReason)
    ensures
        r == spec_map_stop_reason(reason@),
{
    proof {
        reveal_strlit("STOP");
        reveal_strlit("MAX_TOKENS");
        assert("STOP"@.len() != "MAX_TOKENS"@.len());
    }
    if str_eq(reason, "STOP") {
        StopReason::Stop
    } else if str_eq(reason, "MAX_TOKENS") {
        StopReason::Length
    } else {
        StopReason::Stop
    }
}

pub open spec fn s(x: Seq<char>) -> Data {
    Data::Str(x)
}

pub open spec fn text_obj(t: Seq<char>) -> Data {
    Data::Object(seq![("text"@, s(t))])
}

pub open spec fn user_part(b: UserContentBlock) -> Data {
    match b {
        UserContentBlock::Text(t) => text_obj(t.text@),
        UserContentBlock::Image(img) => Data::Object(
            seq![(
                "inlineData"@,
                Data::Object(seq![("mimeType"@, s(img.mime_type@)), ("data"@, s(img.data@))]),
            )],
        ),
    }
}

pub open spec fn user_parts(c: UserContent) -> Seq<Data> {
    match c {
        UserContent::Text(t) => seq![text_obj(t@)],
        UserContent::Blocks(bs) => bs@.map_values(|b: UserContentBlock| user_part(b)),
    }
}

/// The parts of an assistant message: text, thinking marked as thought, and
/// function calls; images give none.
pub open spec fn model_parts(bs: Seq<ContentBlock>) -> Seq<Data>
    decreases bs.len(),
{
    if bs.len() == 0 {
        Seq::empty()
    } else {
        let rest = model_parts(bs.drop_last());
        match bs.last() {
            ContentBlock::Text(t) => rest.push(text_obj(t.text@)),
            ContentBlock::Thinking(t) => rest.push(
                Data::Object(seq![("text"@, s(t.thinking@)), ("thought"@, Data::Bool(true))]),
            ),
            ContentBlock::ToolCall(tc) => rest.push(
                Data::Object(
                    seq![(
                        "functionCall"@,
                        Data::Object(
                            seq![
                                ("name"@, s(tc.name@)),
                                ("args"@, Data::Object(entries_view(tc.arguments@))),
                            ],
                        ),
                    )],
                ),
            ),
            ContentBlock::Image(_) => rest,
        }
    }
}

/// The role an entry of the request contents has.
pub open spec fn role_of(entry: Data) -> Option<Data> {
    entry.get("role"@)
}

/// Converting one more message appends at most one entry to the contents of
/// the messages before it: a user or tool-result message appends one with
/// role `user`; an assistant message appends one with role `model`, or none
/// where it has nothing Google can show.
pub proof fn lemma_contents_roles(ms: Seq<Message>, m: Message)
    ensures
        google_contents(ms).is_prefix_of(google_contents(ms.push(m))),
        google_contents(ms.push(m)).len() <= google_contents(ms).len() + 1,
        m is User || m is ToolResult ==> google_contents(ms.push(m)).len() == google_contents(ms).len() + 1
            && role_of(google_contents(ms.push(m)).last()) == Some(Data::Str("user"@)),
        m is Assistant && google_contents(ms.push(m)).len() > google_contents(ms).len() ==> role_of(
            google_contents(ms.push(m)).last(),
        ) == Some(Data::Str("model"@)),
{
    reveal_strlit("role");
    reveal_strlit("parts");
    let c = google_contents(ms);
    assert(ms.push(m).drop_last() =~= ms);
    assert(ms.push(m).last() == m);
    assert forall|d: Data| #[trigger] c.push(d).subrange(0, c.len() as int) =~= c by {}
    assert(c.subrange(0, c.len() as int) =~= c);
}

/// Every entry of the request contents has role `user` or `model`, the only
/// roles the API accepts.
pub proof fn lemma_contents_user_or_model(ms: Seq<Message>)
    ensures
        forall|i: int|
            0 <= i < google_contents(ms).len() ==> role_of(#[trigger] google_contents(ms)[i]) == Some(
                Data::Str("user"@),
            ) || role_of(google_contents(ms)[i]) == Some(Data::Str("model"@)),
    decreases ms.len(),
{
    if ms.len() > 0 {
        lemma_contents_user_or_model(ms.drop_last());
        lemma_contents_roles(ms.drop_last(), ms.last());
        assert(ms.drop_last().push(ms.last()) =~= ms);
        let before = google_contents(ms.drop_last());
        let after = google_contents(ms);
        assert forall|i: int| 0 <= i < after.len() implies role_of(#[trigger] after[i]) == Some(Data::Str("user"@))
            || role_of(after[i]) == Some(Data::Str("model"@)) by {
            if i < before.len() {
                assert(after[i] == after.subrange(0, before.len() as int)[i]);
            } else {
                assert(i == after.len() - 1);
                if ms.last() is Assistant {
                } else {
                }
            }
        }
    }
}

/// The contents of a conversation: user and tool-result messages each give
/// one user turn; an assistant message gives a model turn where it has parts.
pub open spec fn google_contents(ms: Seq<Message>) -> Seq<Data>
    decreases ms.len(),
{
    if ms.len() == 0 {
        Seq::empty()
    } else {
        let rest = google_contents(ms.drop_last());
        match ms.last() {
            Message::User(u) => rest.push(
                Data::Object(seq![("role"@, s("user"@)), ("parts"@, Data::List(user_parts(u.content)))]),
            ),
            Message::Assistant(a) => {
                let parts = model_parts(a.content@);
                if parts.len() > 0 {
                    rest.push(Data::Object(seq![("role"@, s("model"@)), ("parts"@, Data::List(parts))]))
                } else {
                    rest
                }
            },
            Message::ToolResult(tr) => rest.push(
                Data::Object(
                    seq![
                        ("role"@, s("user"@)),
                        (
                            "parts"@,
                            Data::List(
                                seq![Data::Object(seq![(
                                    "functionResponse"@,
                                    Data::Object(
                                        seq![
                                            ("name"@, s(tr.tool_name@)),
                                            (
                                                "response"@,
                                                Data::Object(seq![(
                                                    "result"@,
                                                    s(crate::text::join_seq(
                                                        crate::openai::result_texts(tr.content@),
                                                        "\n"@,
                                                    )),
                                                )]),
                                            ),
                                        ],
                                    ),
                                )])],
                            ),
                        ),
                    ],
                ),
            ),
        }
    }
}

fn text_obj_value(t: String) -> (r: DataValue)
    ensures
        r@ == text_obj(t@),
{
    DataValue::obj1("text", DataValue::string(t))
}

fn user_parts_value(c: &UserContent) -> (r: Vec<DataValue>)
    ensures
        views(r@) == user_parts(*c),
{
    let mut out: Vec<DataValue> = Vec::new();
    match c {
        UserContent::Text(t) => {
            push_value(&mut out, text_obj_value(t.clone()));
            assert(views(out@) =~= seq![text_obj(t@)]);
        },
        UserContent::Blocks(bs) => {
            let mut i: usize = 0;
            while i < bs.len()
                invariant
                    i <= bs@.len(),
                    views(out@) == bs@.take(i as int).map_values(|b: UserContentBlock| user_part(b)),
                decreases bs@.len() - i,
            {
                let v = match &bs[i] {
                    UserContentBlock::Text(t) => text_obj_value(t.text.clone()),
                    UserContentBlock::Image(img) => DataValue::obj1(
                        "inlineData",
                        DataValue::obj2(
                            "mimeType",
                            DataValue::string(img.mime_type.clone()),
                            "data",
                            DataValue::string(img.data.clone()),
                        ),
                    ),
                };
                push_value(&mut out, v);
                proof {
                    lemma_map_take_push(bs@, i as int, |b: UserContentBlock| user_part(b));
                }
                i = i + 1;
            }
            assert(bs@.take(bs@.len() as int) == bs@);
        },
    }
    out
}

fn model_parts_value(bs: &Vec<ContentBlock>) -> (r: Vec<DataValue>)
    ensures
        views(r@) == model_parts(bs@),
{
    let mut parts: Vec<DataValue> = Vec::new();
    let mut i: usize = 0;
    assert(bs@.take(0) =~= Seq::<ContentBlock>::empty());
    assert(views(parts@) =~= Seq::<Data>::empty());
    while i < bs.len()
        invariant
            i <= bs@.len(),
            views(parts@) == model_parts(bs@.take(i as int)),
        decreases bs@.len() - i,
    {
        assert(bs@.take(i + 1).drop_last() =~= bs@.take(i as int));
        assert(bs@.take(i + 1).last() == bs@[i as int]);
        match &bs[i] {
            ContentBlock::Text(t) => {
                push_value(&mut parts, text_obj_value(t.text.clone()));
            },
            ContentBlock::Thinking(t) => {
                push_value(
                    &mut parts,
                    DataValue::obj2("text", DataValue::string(t.thinking.clone()), "thought", DataValue::Bool(true)),
                );
            },
            ContentBlock::ToolCall(tc) => {
                let f = DataValue::obj2(
                    "name",
                    DataValue::string(tc.name.clone()),
                    "args",
                    DataValue::object(crate::ai_types::clone_entries(&tc.arguments)),
                );
                push_value(&mut parts, DataValue::obj1("functionCall", f));
            },
            ContentBlock::Image(_) => {},
        }
        i = i + 1;
    }
    assert(bs@.take(bs@.len() as int) =~= bs@);
    parts
}

fn result_text(cs: &Vec<ToolResultContent>) -> (r: String)
    ensures
        r@ == crate::text::join_seq(crate::openai::result_texts(cs@), "\n"@),
{
    let mut texts: Vec<String> = Vec::new();
    let mut i: usize = 0;
    assert(cs@.take(0) =~= Seq::<ToolResultContent>::empty());
    assert(crate::text::views_of(texts@) =~= Seq::<Seq<char>>::empty());
    while i < cs.len()
        invariant
            i <= cs@.len(),
            crate::text::views_of(texts@) == crate::openai::result_texts(cs@.take(i as int)),
        decreases cs@.len() - i,
    {
        assert(cs@.take(i + 1).drop_last() =~= cs@.take(i as int));
        assert(cs@.take(i + 1).last() == cs@[i as int]);
        match &cs[i] {
            ToolResultContent::Text(t) => {
                let ghost prev = texts@;
                let x = t.text.clone();
                texts.push(x);
                assert(crate::text::views_of(texts@) =~= crate::text::views_of(prev).push(x@));
            },
            _ => {},
        }
        i = i + 1;
    }
    assert(cs@.take(cs@.len() as int) =~= cs@);
    crate::text::join(&texts, "\n")
}

/// Converts messages to Google contents.
pub fn convert_messages(context: &Context) -> (r: Vec<DataValue>)
    ensures
        views(r@) == google_contents(context.messages@),
{
    let ms = &context.messages;
    let mut out: Vec<DataValue> = Vec::new();
    let mut i: usize = 0;
    assert(ms@.take(0) =~= Seq::<Message>::empty());
    assert(views(out@) =~= Seq::<Data>::empty());
    while i < ms.len()
        invariant
            i <= ms@.len(),
            views(out@) == google_contents(ms@.take(i as int)),
        decreases ms@.len() - i,
    {
        assert(ms@.take(i + 1).drop_last() =~= ms@.take(i as int));
        assert(ms@.take(i + 1).last() == ms@[i as int]);
        match &ms[i] {
            Message::User(u) => {
                let parts = DataValue::list(user_parts_value(&u.content));
                push_value(&mut out, DataValue::obj2("role", DataValue::text("user"), "parts", parts));
            },
            Message::Assistant(a) => {
                let parts = model_parts_value(&a.content);
                if parts.len() > 0 {
                    push_value(
                        &mut out,
                        DataValue::obj2("role", DataValue::text("model"), "parts", DataValue::list(parts)),
                    );
                }
            },
            Message::ToolResult(tr) => {
                let response = DataValue::obj1("result", DataValue::string(result_text(&tr.content)));
                let fr = DataValue::obj2("name", DataValue::string(tr.tool_name.clone()), "response", response);
                let part = DataValue::obj1("functionResponse", fr);
                push_value(
                    &mut out,
                    DataValue::obj2("role", DataValue::text("user"), "parts", DataValue::list1(part)),
                );
            },
        }
        i = i + 1;
    }
    assert(ms@.take(ms@.len() as int) =~= ms@);
    out
}

pub open spec fn declaration(t: Tool) -> Data {
    Data::Object(
        seq![("name"@, s(t.name@)), ("description"@, s(t.description@)), ("parameters"@, t.parameters@)],
    )
}

pub open spec fn declarations(ts: Seq<Tool>) -> Seq<Data> {
    ts.map_values(|t: Tool| declaration(t))
}

/// `[{"functionDeclarations": [..]}]`.
pub open spec fn google_tools(ts: Seq<Tool>) -> Seq<Data> {
    seq![Data::Object(seq![("functionDeclarations"@, Data::List(declarations(ts)))])]
}

/// Converts tools to one Google function-declarations entry.
pub fn convert_tools(tools: &[Tool]) -> (r: Vec<DataValue>)
    ensures
        views(r@) == google_tools(tools@),
{
    let mut ds: Vec<DataValue> = Vec::new();
    let mut i: usize = 0;
    while i < tools.len()
        invariant
            i <= tools@.len(),
            views(ds@) == declarations(tools@.take(i as int)),
        decreases tools@.len() - i,
    {
        let t = &tools[i];
        push_value(
            &mut ds,
            DataValue::obj3(
                "name",
                DataValue::string(t.name.clone()),
                "description",
                DataValue::string(t.description.clone()),
                "parameters",
                t.parameters.copy(),
            ),
        );
        proof {
            lemma_map_take_push(tools@, i as int, |t: Tool| declaration(t));
        }
        i = i + 1;
    }
    assert(tools@.take(tools@.len() as int) == tools@);
    let mut out: Vec<DataValue> = Vec::new();
    push_value(&mut out, DataValue::obj1("functionDeclarations", DataValue::list(ds)));
    assert(views(out@) =~= google_tools(tools@));
    out
}

} // verus!

verus! {

/// Decoder state of one Google response stream.
pub struct GoogleStream {
    pub partial: AssistantMessage,
    pub current_text: String,
    pub text_started: bool,
    /// Number of function calls seen so far; call ids are `tc_<n>`.
    pub tool_call_idx: usize,
}

pub struct GoogleState {
    pub partial: AssistantView,
    pub text: Seq<char>,
    pub text_started: bool,
    pub calls: usize,
}

impl View for GoogleStream {
    type V = GoogleState;

    open spec fn view(&self) -> GoogleState {
        GoogleState {
            partial: self.partial@,
            text: self.current_text@,
            text_started: self.text_started,
            calls: self.tool_call_idx,
        }
    }
}

/// The arguments of a function call: the entries of `args` where it is an
/// object, none otherwise.
pub open spec fn call_args(fc: Data) -> Seq<(Seq<char>, Data)> {
    match fc.get("args"@) {
        Some(Data::Object(es)) => es,
        _ => Seq::empty(),
    }
}

/// The text of a part (plain or thought).
pub open spec fn on_part_text(st: GoogleState, part: Data) -> (GoogleState, Seq<EventView>) {
    match part.get_str("text"@) {
        None => (st, Seq::empty()),
        Some(t) => {
            let thought = match part.get_bool("thought"@) {
                Some(b) => b,
                None => false,
            };
            if thought {
                (st, seq![EventView::ThinkingDelta { index: 0, delta: t, partial: st.partial }])
            } else {
                let start = if st.text_started {
                    Seq::<EventView>::empty()
                } else {
                    seq![EventView::TextStart { index: 0, partial: st.partial }]
                };
                (
                    GoogleState { text_started: true, text: st.text + t, ..st },
                    start.push(EventView::TextDelta { index: 0, delta: t, partial: st.partial }),
                )
            }
        },
    }
}

/// The function call of a part: a tool call with id `tc_<n>` is added and
/// announced, and the stop reason becomes `ToolUse`.
pub open spec fn on_part_call(st: GoogleState, part: Data) -> (GoogleState, Seq<EventView>) {
    match part.get("functionCall"@) {
        None => (st, Seq::empty()),
        Some(fc) => {
            let tc = ToolCallView {
                id: "tc_"@ + crate::text::decimal(st.calls as nat),
                name: str_or_empty_at(fc, "name"@),
                arguments: call_args(fc),
                thought_signature: None,
            };
            let n: usize = if st.calls < usize::MAX { (st.calls + 1) as usize } else { 0 };
            let p = AssistantView { stop_reason: StopReason::ToolUse, ..st.partial };
            (
                GoogleState { partial: push_block(p, BlockView::ToolCall(tc)), calls: n, ..st },
                seq![
                    EventView::ToolCallStart { index: n, partial: p },
                    EventView::ToolCallEnd { index: n, tool_call: tc, partial: p },
                ],
            )
        },
    }
}

pub open spec fn str_or_empty_at(d: Data, key: Seq<char>) -> Seq<char> {
    crate::data::str_or_empty(at(d, key))
}

pub open spec fn on_part(st: GoogleState, part: Data) -> (GoogleState, Seq<EventView>) {
    let (s1, e1) = on_part_text(st, part);
    let (s2, e2) = on_part_call(s1, part);
    (s2, e1 + e2)
}

pub open spec fn on_parts(st: GoogleState, ps: Seq<Data>) -> (GoogleState, Seq<EventView>)
    decreases ps.len(),
{
    if ps.len() == 0 {
        (st, Seq::empty())
    } else {
        let (s1, e1) = on_parts(st, ps.drop_last());
        let (s2, e2) = on_part(s1, ps.last());
        (s2, e1 + e2)
    }
}

pub open spec fn on_candidate(st: GoogleState, c: Data) -> (GoogleState, Seq<EventView>) {
    let s1 = match c.get_str("finishReason"@) {
        Some(f) => GoogleState {
            partial: AssistantView { stop_reason: spec_map_stop_reason(f), ..st.partial },
            ..st
        },
        None => st,
    };
    match c.get("content"@) {
        Some(content) => match content.get_list("parts"@) {
            Some(ps) => on_parts(s1, ps),
            None => (s1, Seq::empty()),
        },
        None => (s1, Seq::empty()),
    }
}

pub open spec fn on_candidates(st: GoogleState, cs: Seq<Data>) -> (GoogleState, Seq<EventView>)
    decreases cs.len(),
{
    if cs.len() == 0 {
        (st, Seq::empty())
    } else {
        let (s1, e1) = on_candidates(st, cs.drop_last());
        let (s2, e2) = on_candidate(s1, cs.last());
        (s2, e1 + e2)
    }
}

pub open spec fn on_usage_metadata(p: AssistantView, chunk: Data) -> AssistantView {
    match chunk.get("usageMetadata"@) {
        Some(u) => {
            let us = p.usage;
            with_usage(
                p,
                Usage {
                    input: upd(us.input, at(u, "promptTokenCount"@).u64_of()),
                    output: upd(us.output, at(u, "candidatesTokenCount"@).u64_of()),
                    total_tokens: upd(us.total_tokens, at(u, "totalTokenCount"@).u64_of()),
                    cache_read: upd(us.cache_read, at(u, "cachedContentTokenCount"@).u64_of()),
                    ..us
                },
            )
        },
        None => p,
    }
}

/// One parsed chunk: its candidates, then its usage metadata.
pub open spec fn google_chunk(st: GoogleState, chunk: Data) -> (GoogleState, Seq<EventView>) {
    let (s1, e1) = match chunk.get_list("candidates"@) {
        Some(cs) => on_candidates(st, cs),
        None => (st, Seq::empty()),
    };
    (GoogleState { partial: on_usage_metadata(s1.partial, chunk), ..s1 }, e1)
}

/// One line of the response body (there is no end marker).
pub open spec fn google_line(st: GoogleState, line: Seq<char>) -> (GoogleState, Seq<EventView>) {
    match sse_payload(line) {
        None => (st, Seq::empty()),
        Some(d) => match json_parse(d) {
            None => (st, Seq::empty()),
            Some(chunk) => google_chunk(st, chunk),
        },
    }
}

proof fn lemma_prefix_trans(a: Seq<BlockView>, b: Seq<BlockView>, c: Seq<BlockView>)
    requires
        a.is_prefix_of(b),
        b.is_prefix_of(c),
    ensures
        a.is_prefix_of(c),
{
    assert(c.subrange(0, a.len() as int) =~= b.subrange(0, a.len() as int));
}

proof fn lemma_part_keeps_blocks(st: GoogleState, part: Data)
    ensures
        st.partial.content.is_prefix_of(on_part(st, part).0.partial.content),
{
    let c = st.partial.content;
    assert forall|b: BlockView| #[trigger] c.push(b).subrange(0, c.len() as int) =~= c by {}
}

proof fn lemma_parts_keep_blocks(st: GoogleState, ps: Seq<Data>)
    ensures
        st.partial.content.is_prefix_of(on_parts(st, ps).0.partial.content),
    decreases ps.len(),
{
    if ps.len() == 0 {
        assert(st.partial.content.subrange(0, st.partial.content.len() as int) =~= st.partial.content);
    } else {
        let s1 = on_parts(st, ps.drop_last()).0;
        lemma_parts_keep_blocks(st, ps.drop_last());
        lemma_part_keeps_blocks(s1, ps.last());
        lemma_prefix_trans(st.partial.content, s1.partial.content, on_part(s1, ps.last()).0.partial.content);
    }
}

proof fn lemma_candidates_keep_blocks(st: GoogleState, cs: Seq<Data>)
    ensures
        st.partial.content.is_prefix_of(on_candidates(st, cs).0.partial.content),
    decreases cs.len(),
{
    if cs.len() == 0 {
        assert(st.partial.content.subrange(0, st.partial.content.len() as int) =~= st.partial.content);
    } else {
        let s1 = on_candidates(st, cs.drop_last()).0;
        lemma_candidates_keep_blocks(st, cs.drop_last());
        let c = cs.last();
        let s2 = match c.get_str("finishReason"@) {
            Some(f) => GoogleState {
                partial: AssistantView { stop_reason: spec_map_stop_reason(f), ..s1.partial },
                ..s1
            },
            None => s1,
        };
        match c.get("content"@) {
            Some(content) => match content.get_list("parts"@) {
                Some(ps) => lemma_parts_keep_blocks(s2, ps),
                None => assert(s2.partial.content.subrange(0, s2.partial.content.len() as int) =~= s2.partial.content),
            },
            None => assert(s2.partial.content.subrange(0, s2.partial.content.len() as int) =~= s2.partial.content),
        }
        lemma_prefix_trans(st.partial.content, s1.partial.content, on_candidate(s1, c).0.partial.content);
    }
}

/// Decoding a line never drops or changes a content block already in the
/// message: the blocks before are a prefix of the blocks after.
pub proof fn lemma_line_keeps_blocks(st: GoogleState, line: Seq<char>)
    ensures
        st.partial.content.is_prefix_of(google_line(st, line).0.partial.content),
{
    assert(st.partial.content.subrange(0, st.partial.content.len() as int) =~= st.partial.content);
    match sse_payload(line) {
        None => {},
        Some(d) => match json_parse(d) {
            None => {},
            Some(chunk) => match chunk.get_list("candidates"@) {
                Some(cs) => lemma_candidates_keep_blocks(st, cs),
                None => {},
            },
        },
    }
}

/// The end of the stream: the text block where text was streamed.
pub open spec fn google_finish(st: GoogleState) -> (AssistantView, Seq<EventView>) {
    if st.text_started {
        let p = push_block(st.partial, BlockView::Text { text: st.text, signature: None });
        (p, seq![EventView::TextEnd { index: 0, content: st.text, partial: p }])
    } else {
        (st.partial, Seq::empty())
    }
}

} // verus!

verus! {

impl GoogleStream {
    /// A decoder for a response of `model` from `provider`, with the `Start`
    /// event that opens the stream.
    pub fn new(provider: &str, model: &str, timestamp: u64) -> (r: (GoogleStream, AssistantMessageEvent))
        ensures
            r.0@.partial == initial_partial("google-generative-ai"@, provider@, model@, timestamp),
            r.0@.text.len() == 0,
            !r.0@.text_started,
            r.0@.calls == 0,
            r.1@ == (EventView::Start { partial: r.0@.partial }),
            tool_calls_keyed(r.0@.partial.content),
    {
        let mut partial = AssistantMessage::empty();
        partial.api = "google-generative-ai".to_owned();
        partial.provider = provider.to_owned();
        partial.model = model.to_owned();
        partial.timestamp = timestamp;
        assert(partial@.content =~= Seq::<BlockView>::empty());
        let start = AssistantMessageEvent::Start { partial: partial.copy() };
        (GoogleStream { partial, current_text: String::new(), text_started: false, tool_call_idx: 0 }, start)
    }

    fn on_part_text(&mut self, part: &DataValue) -> (out: Vec<AssistantMessageEvent>)
        ensures
            (final(self)@, crate::ai_types::events_view(out@)) == on_part_text(old(self)@, part@),
    {
        let mut out: Vec<AssistantMessageEvent> = Vec::new();
        assert(crate::ai_types::events_view(out@) =~= Seq::<EventView>::empty());
        if let Some(t) = part.get_str("text") {
            let thought = match part.get_bool("thought") {
                Some(b) => b,
                None => false,
            };
            if thought {
                events_push(
                    &mut out,
                    AssistantMessageEvent::ThinkingDelta { content_index: 0, delta: t, partial: self.partial.copy() },
                );
            } else {
                if !self.text_started {
                    self.text_started = true;
                    events_push(
                        &mut out,
                        AssistantMessageEvent::TextStart { content_index: 0, partial: self.partial.copy() },
                    );
                }
                self.current_text.append(t.as_str());
                events_push(
                    &mut out,
                    AssistantMessageEvent::TextDelta { content_index: 0, delta: t, partial: self.partial.copy() },
                );
            }
        }
        out
    }

    fn on_part_call(&mut self, part: &DataValue) -> (out: Vec<AssistantMessageEvent>)
        ensures
            (final(self)@, crate::ai_types::events_view(out@)) == on_part_call(old(self)@, part@),
            keys_unique(part@) && tool_calls_keyed(old(self)@.partial.content) ==> tool_calls_keyed(
                final(self)@.partial.content,
            ),
    {
        let mut out: Vec<AssistantMessageEvent> = Vec::new();
        assert(crate::ai_types::events_view(out@) =~= Seq::<EventView>::empty());
        if let Some(fc) = part.get("functionCall") {
            let name = fc.str_at("name");
            let args_v = fc.get("args");
            let ghost av = match args_v {
                Some(a) => Some(a@),
                None => None,
            };
            let arguments = match args_v {
                Some(DataValue::Object(es)) => crate::ai_types::clone_entries(es),
                _ => Vec::new(),
            };
            proof {
                assert(entries_view(arguments@) =~= call_args(fc@));
                if keys_unique(part@) {
                    lemma_get_keys_unique(part@, "functionCall"@);
                    if av matches Some(Data::Object(_)) {
                        lemma_get_keys_unique(fc@, "args"@);
                        lemma_object_keys_distinct(av->Some_0);
                    }
                }
            }
            let id = "tc_".to_owned().concat(crate::text::decimal_string(self.tool_call_idx as u64).as_str());
            let tc = ToolCall { id, name, arguments, thought_signature: None };
            let n: usize = if self.tool_call_idx < usize::MAX { self.tool_call_idx + 1 } else { 0 };
            self.tool_call_idx = n;
            self.partial.stop_reason = StopReason::ToolUse;
            events_push(
                &mut out,
                AssistantMessageEvent::ToolCallStart { content_index: n, partial: self.partial.copy() },
            );
            events_push(
                &mut out,
                AssistantMessageEvent::ToolCallEnd { content_index: n, tool_call: tc.copy(), partial: self.partial.copy() },
            );
            let ghost before = self.partial@;
            let ghost tcv = tc@;
            self.partial.content.push(ContentBlock::ToolCall(tc));
            assert(self.partial@.content =~= before.content.push(BlockView::ToolCall(tcv)));
        }
        out
    }

    fn on_parts(&mut self, ps: &Vec<DataValue>) -> (out: Vec<AssistantMessageEvent>)
        ensures
            (final(self)@, crate::ai_types::events_view(out@)) == on_parts(old(self)@, views(ps@)),
            (forall|i: int| 0 <= i < ps@.len() ==> #[trigger] keys_unique(views(ps@)[i])) && tool_calls_keyed(
                old(self)@.partial.content,
            ) ==> tool_calls_keyed(final(self)@.partial.content),
    {
        let ghost s0 = self@;
        let ghost pseq = views(ps@);
        let ghost ku = (forall|i: int| 0 <= i < ps@.len() ==> #[trigger] keys_unique(views(ps@)[i]))
            && tool_calls_keyed(s0.partial.content);
        let mut out: Vec<AssistantMessageEvent> = Vec::new();
        let mut i: usize = 0;
        assert(pseq.take(0) =~= Seq::<Data>::empty());
        assert(crate::ai_types::events_view(out@) =~= Seq::<EventView>::empty());
        while i < ps.len()
            invariant
                i <= ps@.len(),
                pseq == views(ps@),
                (self@, crate::ai_types::events_view(out@)) == on_parts(s0, pseq.take(i as int)),
                ku ==> (forall|j: int| 0 <= j < ps@.len() ==> #[trigger] keys_unique(views(ps@)[j])),
                ku ==> tool_calls_keyed(self@.partial.content),
            decreases ps@.len() - i,
        {
            let a = self.on_part_text(&ps[i]);
            proof {
                if ku {
                    assert(keys_unique(views(ps@)[i as int]));
                    assert(views(ps@)[i as int] == ps@[i as int]@);
                }
            }
            let b = self.on_part_call(&ps[i]);
            events_append(&mut out, a);
            events_append(&mut out, b);
            assert(pseq.take(i + 1).drop_last() =~= pseq.take(i as int));
            assert(pseq.take(i + 1).last() == ps@[i as int]@);
            proof {
                let e = crate::ai_types::events_view(out@);
                assert(e =~= on_parts(s0, pseq.take(i as int)).1 + (on_part(on_parts(s0, pseq.take(i as int)).0, ps@[i as int]@).1));
            }
            i = i + 1;
        }
        assert(pseq.take(ps@.len() as int) =~= pseq);
        out
    }

    fn on_candidate(&mut self, c: &DataValue) -> (out: Vec<AssistantMessageEvent>)
        ensures
            (final(self)@, crate::ai_types::events_view(out@)) == on_candidate(old(self)@, c@),
            keys_unique(c@) && tool_calls_keyed(old(self)@.partial.content) ==> tool_calls_keyed(
                final(self)@.partial.content,
            ),
    {
        if let Some(f) = c.get_str("finishReason") {
            self.partial.stop_reason = map_stop_reason(f.as_str());
        }
        assert(self@.partial.content == old(self)@.partial.content);
        let empty: Vec<AssistantMessageEvent> = Vec::new();
        assert(crate::ai_types::events_view(empty@) =~= Seq::<EventView>::empty());
        match c.get("content") {
            Some(content) => match content.get("parts") {
                Some(pv) => match pv.as_list() {
                    Some(ps) => {
                        proof {
                            if keys_unique(c@) {
                                lemma_get_keys_unique(c@, "content"@);
                                lemma_get_keys_unique(content@, "parts"@);
                                assert(pv@.list_of() == Some(views(ps@)));
                                assert forall|i: int| 0 <= i < ps@.len() implies #[trigger] keys_unique(views(ps@)[i]) by {
                                    lemma_item_keys_unique(pv@, i);
                                }
                            }
                        }
                        self.on_parts(ps)
                    },
                    None => empty,
                },
                None => empty,
            },
            None => empty,
        }
    }

    /// Applies one parsed chunk.
    pub fn on_chunk(&mut self, chunk: &DataValue) -> (out: Vec<AssistantMessageEvent>)
        ensures
            (final(self)@, crate::ai_types::events_view(out@)) == google_chunk(old(self)@, chunk@),
            keys_unique(chunk@) && tool_calls_keyed(old(self)@.partial.content) ==> tool_calls_keyed(
                final(self)@.partial.content,
            ),
    {
        let ghost s0 = self@;
        let ghost ku = keys_unique(chunk@) && tool_calls_keyed(s0.partial.content);
        let mut out: Vec<AssistantMessageEvent> = Vec::new();
        assert(crate::ai_types::events_view(out@) =~= Seq::<EventView>::empty());
        let cands = match chunk.get("candidates") {
            Some(cv) => cv.as_list(),
            None => None,
        };
        if let Some(cs) = cands {
            let ghost cseq = views(cs@);
            proof {
                if ku {
                    lemma_get_keys_unique(chunk@, "candidates"@);
                    assert forall|j: int| 0 <= j < cs@.len() implies #[trigger] keys_unique(cseq[j]) by {
                        lemma_item_keys_unique(chunk@.get("candidates"@)->Some_0, j);
                    }
                }
            }
            let mut i: usize = 0;
            assert(cseq.take(0) =~= Seq::<Data>::empty());
            while i < cs.len()
                invariant
                    i <= cs@.len(),
                    cseq == views(cs@),
                    (self@, crate::ai_types::events_view(out@)) == on_candidates(s0, cseq.take(i as int)),
                    ku ==> (forall|j: int| 0 <= j < cs@.len() ==> #[trigger] keys_unique(cseq[j])),
                    ku ==> tool_calls_keyed(self@.partial.content),
                decreases cs@.len() - i,
            {
                proof {
                    if ku {
                        assert(keys_unique(cseq[i as int]));
                        assert(cseq[i as int] == cs@[i as int]@);
                    }
                }
                let more = self.on_candidate(&cs[i]);
                events_append(&mut out, more);
                assert(cseq.take(i + 1).drop_last() =~= cseq.take(i as int));
                assert(cseq.take(i + 1).last() == cs@[i as int]@);
                i = i + 1;
            }
            assert(cseq.take(cs@.len() as int) =~= cseq);
        }
        if let Some(u) = chunk.get("usageMetadata") {
            if let Some(x) = u.u64_at("promptTokenCount") {
                self.partial.usage.input = x;
            }
            if let Some(x) = u.u64_at("candidatesTokenCount") {
                self.partial.usage.output = x;
            }
            if let Some(x) = u.u64_at("totalTokenCount") {
                self.partial.usage.total_tokens = x;
            }
            if let Some(x) = u.u64_at("cachedContentTokenCount") {
                self.partial.usage.cache_read = x;
            }
        }
        out
    }

    /// Feeds one line of the response body.
    pub fn process_line(&mut self, line: &str) -> (out: Vec<AssistantMessageEvent>)
        ensures
            (final(self)@, crate::ai_types::events_view(out@)) == google_line(old(self)@, line@),
            tool_calls_keyed(old(self)@.partial.content) ==> tool_calls_keyed(final(self)@.partial.content),
    {
        let empty: Vec<AssistantMessageEvent> = Vec::new();
        assert(crate::ai_types::events_view(empty@) =~= Seq::<EventView>::empty());
        match sse_payload_of(line) {
            None => empty,
            Some(d) => match parse_json(d.as_str()) {
                None => empty,
                Some(chunk) => self.on_chunk(&chunk),
            },
        }
    }

    /// Closes the stream: the final message and the closing events.
    pub fn finish(self) -> (r: (AssistantMessage, Vec<AssistantMessageEvent>))
        ensures
            (r.0@, crate::ai_types::events_view(r.1@)) == google_finish(self@),
            tool_calls_keyed(self@.partial.content) ==> tool_calls_keyed(r.0@.content),
    {
        let mut partial = self.partial;
        let mut out: Vec<AssistantMessageEvent> = Vec::new();
        assert(crate::ai_types::events_view(out@) =~= Seq::<EventView>::empty());
        if self.text_started {
            let text = self.current_text;
            let ghost before = partial@;
            partial.content.push(ContentBlock::Text(TextContent { text: text.clone(), text_signature: None }));
            assert(partial@.content =~= before.content.push(BlockView::Text { text: text@, signature: None }));
            events_push(
                &mut out,
                AssistantMessageEvent::TextEnd { content_index: 0, content: text, partial: partial.copy() },
            );
        }
        (partial, out)
    }
}

} // verus!

verus! {

/// The thinking budget a reasoning level is sent as.
pub open spec fn spec_thinking_budget(level: ThinkingLevel) -> u64 {
    match level {
        ThinkingLevel::Minimal => 1024,
        ThinkingLevel::Low => 2048,
        ThinkingLevel::Medium => 8192,
        ThinkingLevel::High | ThinkingLevel::Xhigh => 16384,
    }
}

/// `{"thinkingBudget": n}` for a reasoning level.
pub fn thinking_config(level: ThinkingLevel) -> (r: DataValue)
    ensures
        r@ == Data::Object(seq![("thinkingBudget"@, crate::data::num_data(spec_thinking_budget(level)))]),
{
    let n: u64 = match level {
        ThinkingLevel::Minimal => 1024,
        ThinkingLevel::Low => 2048,
        ThinkingLevel::Medium => 8192,
        ThinkingLevel::High | ThinkingLevel::Xhigh => 16384,
    };
    DataValue::obj1("thinkingBudget", DataValue::from_u64(n))
}

/// The request body: the contents, the system instruction where given, the
/// tools where there are any, and the generation config (token limit,
/// temperature and thinking config where given).
pub open spec fn google_body(context: Context, options: StreamOptions, thinking: Option<Data>) -> Data {
    let system = match context.system_prompt {
        Some(sp) => seq![(
            "systemInstruction"@,
            Data::Object(seq![("parts"@, Data::List(seq![text_obj(sp@)]))]),
        )],
        None => Seq::empty(),
    };
    let tools = match context.tools {
        Some(ts) => crate::anthropic::opt_entry(ts@.len() > 0, "tools"@, Data::List(google_tools(ts@))),
        None => Seq::empty(),
    };
    let config = (match options.max_tokens {
        Some(n) => seq![("maxOutputTokens"@, crate::data::num_data(n as u64))],
        None => Seq::empty(),
    }) + (match options.temperature {
        Some(t) => seq![("temperature"@, t@)],
        None => Seq::empty(),
    }) + (match thinking {
        Some(t) => seq![("thinkingConfig"@, t)],
        None => Seq::empty(),
    });
    Data::Object(
        seq![("contents"@, Data::List(google_contents(context.messages@)))] + system + tools + seq![
            ("generationConfig"@, Data::Object(config)),
        ],
    )
}

/// The request body of a streaming request.
pub fn request_body(context: &Context, options: &StreamOptions, thinking: &Option<DataValue>) -> (r: DataValue)
    ensures
        r@ == google_body(*context, *options, crate::data::opt_view(*thinking)),
{
    let mut es: Vec<(String, DataValue)> = Vec::new();
    push_entry(&mut es, "contents", DataValue::list(convert_messages(context)));
    let ghost c0 = pairs_view(es@);
    if let Some(sp) = &context.system_prompt {
        let parts = DataValue::list1(text_obj_value(sp.clone()));
        push_entry(&mut es, "systemInstruction", DataValue::obj1("parts", parts));
    }
    let ghost c1 = pairs_view(es@);
    if let Some(ts) = &context.tools {
        if ts.len() > 0 {
            push_entry(&mut es, "tools", DataValue::list(convert_tools(ts.as_slice())));
        }
    }
    let ghost c2 = pairs_view(es@);
    let mut cfg: Vec<(String, DataValue)> = Vec::new();
    if let Some(n) = options.max_tokens {
        push_entry(&mut cfg, "maxOutputTokens", DataValue::from_u64(n as u64));
    }
    let ghost g1 = pairs_view(cfg@);
    if let Some(t) = &options.temperature {
        push_entry(&mut cfg, "temperature", t.copy());
    }
    let ghost g2 = pairs_view(cfg@);
    if let Some(t) = thinking {
        push_entry(&mut cfg, "thinkingConfig", t.copy());
    }
    let ghost g3 = pairs_view(cfg@);
    push_entry(&mut es, "generationConfig", DataValue::object(cfg));
    proof {
        let c = *context;
        let o = *options;
        let system = match c.system_prompt {
            Some(sp) => seq![(
                "systemInstruction"@,
                Data::Object(seq![("parts"@, Data::List(seq![text_obj(sp@)]))]),
            )],
            None => Seq::empty(),
        };
        let tools = match c.tools {
            Some(ts) => crate::anthropic::opt_entry(ts@.len() > 0, "tools"@, Data::List(google_tools(ts@))),
            None => Seq::empty(),
        };
        assert(c0 =~= seq![("contents"@, Data::List(google_contents(c.messages@)))]);
        assert(c1 =~= c0 + system);
        assert(c2 =~= c0 + system + tools);
        let a = match o.max_tokens {
            Some(n) => seq![("maxOutputTokens"@, crate::data::num_data(n as u64))],
            None => Seq::empty(),
        };
        let b = match o.temperature {
            Some(t) => seq![("temperature"@, t@)],
            None => Seq::empty(),
        };
        let d = match crate::data::opt_view(*thinking) {
            Some(t) => seq![("thinkingConfig"@, t)],
            None => Seq::empty(),
        };
        assert(g1 =~= a);
        assert(g2 =~= a + b);
        assert(g3 =~= a + b + d);
        assert(pairs_view(es@) =~= c0 + system + tools + seq![("generationConfig"@, Data::Object(g3))]);
        assert(Data::Object(pairs_view(es@)) == google_body(c, o, crate::data::opt_view(*thinking)));
    }
    DataValue::object(es)
}

/// The streaming endpoint of a model, with the key in the query.
pub fn request_url(base_url: &str, model_id: &str, api_key: &str) -> (r: String)
    ensures
        r@ == base_url@ + "/v1beta/models/"@ + model_id@ + ":streamGenerateContent?key="@ + api_key@ + "&alt=sse"@,
{
    base_url.to_owned().concat("/v1beta/models/").concat(model_id).concat(":streamGenerateContent?key=").concat(
        api_key,
    ).concat("&alt=sse")
}

/// The request headers: content type, then the caller's headers.
pub fn request_headers(extra: &Option<Vec<(String, String)>>) -> (r: Vec<(String, String)>)
    ensures
        str_pairs(r@) == seq![("Content-Type"@, "application/json"@)] + (match *extra {
            Some(h) => str_pairs(h@),
            None => Seq::empty(),
        }),
{
    let mut r: Vec<(String, String)> = Vec::new();
    r.push(("Content-Type".to_owned(), "application/json".to_owned()));
    let ghost fixed = str_pairs(r@);
    if let Some(h) = extra {
        let mut i: usize = 0;
        while i < h.len()
            invariant
                i <= h@.len(),
                str_pairs(r@) == fixed + str_pairs(h@.take(i as int)),
            decreases h@.len() - i,
        {
            let p = (h[i].0.clone(), h[i].1.clone());
            let ghost prev = r@;
            r.push(p);
            assert(str_pairs(r@) =~= str_pairs(prev).push((p.0@, p.1@)));
            proof {
                lemma_map_take_push(h@, i as int, |p: (String, String)| (p.0@, p.1@));
            }
            i = i + 1;
        }
        assert(h@.take(h@.len() as int) == h@);
    }
    proof {
        assert(fixed =~= seq![("Content-Type"@, "application/json"@)]);
        if extra is None {
            assert(str_pairs(r@) =~= fixed + Seq::empty());
        }
    }
    r
}

/// The failure text when no API key is known.
pub fn missing_key_message(provider: &str) -> (r: String)
    ensures
        r@ == "No API key found for provider '"@ + provider@ + "'. Set GEMINI_API_KEY."@,
{
    "No API key found for provider '".to_owned().concat(provider).concat("'. Set GEMINI_API_KEY.")
}

} // verus!
