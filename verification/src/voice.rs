//! Voice mode: the OpenAI Realtime session settings, what each realtime event
//! calls for, and the texts the voice server shows.
use vstd::prelude::*;

use crate::ai_types::opt_str;
use crate::data::{at, json_parse, json_render, str_or_empty, Data, DataValue};
use crate::sdk::GCMessage;
use crate::text::{decimal, decimal_string, str_eq, utf8_boundary, utf8_head, utf8_len};

verus! {

pub struct VoiceAdapterConfig {
    pub api_key: String,
    pub model: Option<String>,
    pub voice: Option<String>,
    pub instructions: Option<String>,
}

pub struct VoiceServerOptions {
    pub port: Option<u16>,
    pub adapter: String,
    pub adapter_config: VoiceAdapterConfig,
    pub agent_dir: String,
    pub model: Option<String>,
    pub env: Option<String>,
}

pub struct OpenAIRealtimeAdapter {
    pub config: VoiceAdapterConfig,
}

/// Dimmed terminal text.
pub fn dim(s: &str) -> (r: String)
    ensures
        r@ == "\x1b[2m"@ + s@ + "\x1b[0m"@,
{
    "\x1b[2m".to_owned().concat(s).concat("\x1b[0m")
}

/// Bold terminal text.
pub fn bold(s: &str) -> (r: String)
    ensures
        r@ == "\x1b[1m"@ + s@ + "\x1b[0m"@,
{
    "\x1b[1m".to_owned().concat(s).concat("\x1b[0m")
}

/// The instructions of the voice assistant unless others are configured.
pub open spec fn default_instructions() -> Seq<char> {
    "You are a voice assistant for a git-based AI agent called gitclaw. When the user asks you to do something with code, files, or their project, use the run_agent tool to execute the request. Speak concisely."@
}

/// The `run_agent` function the realtime model can call.
pub open spec fn run_agent_tool() -> Data {
    Data::Object(
        seq![
            ("type"@, Data::Str("function"@)),
            ("name"@, Data::Str("run_agent"@)),
            (
                "description"@,
                Data::Str(
                    "Run a gitclaw agent query to perform tasks like reading files, writing code, running commands, etc."@,
                ),
            ),
            (
                "parameters"@,
                Data::Object(
                    seq![
                        ("type"@, Data::Str("object"@)),
                        (
                            "properties"@,
                            Data::Object(
                                seq![
                                    (
                                        "query"@,
                                        Data::Object(
                                            seq![
                                                ("type"@, Data::Str("string"@)),
                                                (
                                                    "description"@,
                                                    Data::Str("The user's request to pass to the gitclaw agent"@),
                                                ),
                                            ],
                                        ),
                                    ),
                                ],
                            ),
                        ),
                        ("required"@, Data::List(seq![Data::Str("query"@)])),
                    ],
                ),
            ),
        ],
    )
}

/// The `session.update` event sent when the connection opens.
pub open spec fn spec_session_update(config: VoiceAdapterConfig) -> Data {
    Data::Object(
        seq![
            ("type"@, Data::Str("session.update"@)),
            (
                "session"@,
                Data::Object(
                    seq![
                        ("instructions"@, Data::Str(match opt_str(config.instructions) {
                            Some(i) => i,
                            None => default_instructions(),
                        })),
                        ("voice"@, Data::Str(match opt_str(config.voice) {
                            Some(v) => v,
                            None => "alloy"@,
                        })),
                        ("turn_detection"@, Data::Object(seq![("type"@, Data::Str("server_vad"@))])),
                        ("input_audio_transcription"@, Data::Object(seq![("model"@, Data::Str("whisper-1"@))])),
                        ("tools"@, Data::List(seq![run_agent_tool()])),
                    ],
                ),
            ),
        ],
    )
}

fn run_agent_tool_value() -> (r: DataValue)
    ensures
        r@ == run_agent_tool(),
{
    let mut required: Vec<DataValue> = Vec::new();
    required.push(DataValue::text("query"));
    let ghost rv = required@;
    let query = DataValue::obj2(
        "type",
        DataValue::text("string"),
        "description",
        DataValue::text("The user's request to pass to the gitclaw agent"),
    );
    let params = DataValue::obj3(
        "type",
        DataValue::text("object"),
        "properties",
        DataValue::obj1("query", query),
        "required",
        DataValue::list(required),
    );
    assert(crate::data::views(rv) =~= seq![Data::Str("query"@)]);
    DataValue::obj4(
        "type",
        DataValue::text("function"),
        "name",
        DataValue::text("run_agent"),
        "description",
        DataValue::text(
            "Run a gitclaw agent query to perform tasks like reading files, writing code, running commands, etc.",
        ),
        "parameters",
        params,
    )
}

impl OpenAIRealtimeAdapter {
    pub fn new(config: VoiceAdapterConfig) -> (r: OpenAIRealtimeAdapter)
        ensures
            r.config == config,
    {
        OpenAIRealtimeAdapter { config }
    }

    /// The session settings: the configured instructions and voice (or the
    /// defaults), server-side turn detection, Whisper transcription, and the
    /// `run_agent` tool.
    pub fn build_session_update(&self) -> (r: DataValue)
        ensures
            r@ == spec_session_update(self.config),
    {
        let instructions = match &self.config.instructions {
            Some(i) => i.clone(),
            None => "You are a voice assistant for a git-based AI agent called gitclaw. When the user asks you to do something with code, files, or their project, use the run_agent tool to execute the request. Speak concisely.".to_owned(),
        };
        let voice = match &self.config.voice {
            Some(v) => v.clone(),
            None => "alloy".to_owned(),
        };
        let mut tools: Vec<DataValue> = Vec::new();
        tools.push(run_agent_tool_value());
        let ghost tv = tools@;
        let mut session: Vec<(String, DataValue)> = Vec::new();
        crate::data::push_entry(&mut session, "instructions", DataValue::string(instructions));
        crate::data::push_entry(&mut session, "voice", DataValue::string(voice));
        crate::data::push_entry(&mut session, "turn_detection", DataValue::obj1("type", DataValue::text("server_vad")));
        crate::data::push_entry(
            &mut session,
            "input_audio_transcription",
            DataValue::obj1("model", DataValue::text("whisper-1")),
        );
        crate::data::push_entry(&mut session, "tools", DataValue::list(tools));
        proof {
            assert(crate::data::views(tv) =~= seq![run_agent_tool()]);
        }
        let ghost sv = crate::data::pairs_view(session@);
        let r = DataValue::obj2("type", DataValue::text("session.update"), "session", DataValue::object(session));
        proof {
            assert(sv =~= spec_session_update(self.config)->Object_0[1].1->Object_0);
        }
        r
    }

    /// The realtime endpoint of the configured model
    /// (`gpt-4o-realtime-preview` by default).
    pub fn realtime_url(&self) -> (r: String)
        ensures
            r@ == "wss://api.openai.com/v1/realtime?model="@ + match opt_str(self.config.model) {
                Some(m) => m,
                None => "gpt-4o-realtime-preview"@,
            },
    {
        match &self.config.model {
            Some(m) => "wss://api.openai.com/v1/realtime?model=".to_owned().concat(m.as_str()),
            None => "wss://api.openai.com/v1/realtime?model=".to_owned().concat("gpt-4o-realtime-preview"),
        }
    }

    /// The headers of the WebSocket handshake, but for its random key.
    pub fn handshake_headers(&self) -> (r: Vec<(String, String)>)
        ensures
            crate::text::str_pairs(r@) == seq![
                ("Authorization"@, "Bearer "@ + self.config.api_key@),
                ("OpenAI-Beta"@, "realtime=v1"@),
                ("Host"@, "api.openai.com"@),
                ("Connection"@, "Upgrade"@),
                ("Upgrade"@, "websocket"@),
                ("Sec-WebSocket-Version"@, "13"@),
            ],
    {
        let mut h: Vec<(String, String)> = Vec::new();
        h.push(("Authorization".to_owned(), "Bearer ".to_owned().concat(self.config.api_key.as_str())));
        h.push(("OpenAI-Beta".to_owned(), "realtime=v1".to_owned()));
        h.push(("Host".to_owned(), "api.openai.com".to_owned()));
        h.push(("Connection".to_owned(), "Upgrade".to_owned()));
        h.push(("Upgrade".to_owned(), "websocket".to_owned()));
        h.push(("Sec-WebSocket-Version".to_owned(), "13".to_owned()));
        assert(crate::text::str_pairs(h@) =~= seq![
            ("Authorization"@, "Bearer "@ + self.config.api_key@),
            ("OpenAI-Beta"@, "realtime=v1"@),
            ("Host"@, "api.openai.com"@),
            ("Connection"@, "Upgrade"@),
            ("Upgrade"@, "websocket"@),
            ("Sec-WebSocket-Version"@, "13"@),
        ]);
        h
    }
}

/// What a realtime event calls for.
pub enum RealtimeAction {
    /// Show a line.
    Log(String),
    /// Run the agent on a query and answer the call with its response.
    RunAgent { call_id: String, query: String },
    /// Nothing.
    Ignore,
}

/// The arguments of a function call as a document: its JSON, or an empty
/// object where it does not parse.
pub open spec fn call_args(event: Data) -> Data {
    let text = match at(event, "arguments"@).str_of() {
        Some(t) => t,
        None => "{}"@,
    };
    match json_parse(text) {
        Some(d) => d,
        None => Data::Object(Seq::empty()),
    }
}

/// The action for an event, by its type: the session's creation and update,
/// a finished transcription and errors are shown; a finished call of
/// `run_agent` runs the agent on its `query`; a call of anything else is
/// shown as unknown; other events are ignored.
pub open spec fn spec_realtime_action(event: Data) -> (Seq<char>, Option<(Seq<char>, Seq<char>)>, bool) {
    let t = str_or_empty(at(event, "type"@));
    if t == "session.created"@ {
        ("[voice] Session created"@, None, true)
    } else if t == "session.updated"@ {
        ("[voice] Session configured"@, None, true)
    } else if t == "conversation.item.input_audio_transcription.completed"@ {
        match at(event, "transcript"@).str_of() {
            Some(s) => ("[voice] User: "@ + s, None, true),
            None => (Seq::empty(), None, false),
        }
    } else if t == "response.function_call_arguments.done"@ {
        let name = str_or_empty(at(event, "name"@));
        if name != "run_agent"@ {
            ("[voice] Unknown function call: "@ + name, None, true)
        } else {
            (
                Seq::empty(),
                Some((str_or_empty(at(event, "call_id"@)), str_or_empty(at(call_args(event), "query"@)))),
                false,
            )
        }
    } else if t == "error"@ {
        ("[voice] Error: "@ + json_render(at(event, "error"@)), None, true)
    } else {
        (Seq::empty(), None, false)
    }
}

/// Whether an action is the one owed: the log line, the agent run, or nothing.
pub open spec fn action_is(a: RealtimeAction, spec: (Seq<char>, Option<(Seq<char>, Seq<char>)>, bool)) -> bool {
    match spec.1 {
        Some((call_id, query)) => a matches RealtimeAction::RunAgent { call_id: c, query: q } && c@ == call_id
            && q@ == query,
        None => if spec.2 {
            a matches RealtimeAction::Log(l) && l@ == spec.0
        } else {
            a is Ignore
        },
    }
}

fn text_at(d: &DataValue, key: &str) -> (r: Option<String>)
    ensures
        match r {
            Some(s) => at(d@, key@).str_of() == Some(s@),
            None => at(d@, key@).str_of() is None,
        },
{
    match d.get(key) {
        Some(v) => match v.as_str() {
            Some(s) => Some(s.to_owned()),
            None => None,
        },
        None => None,
    }
}

fn text_or_empty(d: &DataValue, key: &str) -> (r: String)
    ensures
        r@ == str_or_empty(at(d@, key@)),
{
    match text_at(d, key) {
        Some(s) => s,
        None => String::new(),
    }
}

/// Decides what a realtime event calls for.
pub fn realtime_action(event: &DataValue) -> (r: RealtimeAction)
    ensures
        action_is(r, spec_realtime_action(event@)),
{
    let t = text_or_empty(event, "type");
    if str_eq(t.as_str(), "session.created") {
        RealtimeAction::Log("[voice] Session created".to_owned())
    } else if str_eq(t.as_str(), "session.updated") {
        RealtimeAction::Log("[voice] Session configured".to_owned())
    } else if str_eq(t.as_str(), "conversation.item.input_audio_transcription.completed") {
        match text_at(event, "transcript") {
            Some(s) => RealtimeAction::Log("[voice] User: ".to_owned().concat(s.as_str())),
            None => RealtimeAction::Ignore,
        }
    } else if str_eq(t.as_str(), "response.function_call_arguments.done") {
        let name = text_or_empty(event, "name");
        if !str_eq(name.as_str(), "run_agent") {
            return RealtimeAction::Log("[voice] Unknown function call: ".to_owned().concat(name.as_str()));
        }
        let call_id = text_or_empty(event, "call_id");
        let args_text = match text_at(event, "arguments") {
            Some(a) => a,
            None => "{}".to_owned(),
        };
        let args = match crate::data::parse_json(args_text.as_str()) {
            Some(d) => d,
            None => {
                let none: Vec<(String, DataValue)> = Vec::new();
                assert(crate::data::pairs_view(none@) =~= Seq::<(Seq<char>, Data)>::empty());
                DataValue::object(none)
            },
        };
        let query = text_or_empty(&args, "query");
        RealtimeAction::RunAgent { call_id, query }
    } else if str_eq(t.as_str(), "error") {
        let shown = match event.get("error") {
            Some(e) => crate::data::render_json(e),
            None => crate::data::render_json(&DataValue::Null),
        };
        RealtimeAction::Log("[voice] Error: ".to_owned().concat(shown.as_str()))
    } else {
        RealtimeAction::Ignore
    }
}

/// The event that answers a function call with the agent's response.
pub fn function_call_output(call_id: &str, output: &str) -> (r: DataValue)
    ensures
        r@ == Data::Object(
            seq![
                ("type"@, Data::Str("conversation.item.create"@)),
                (
                    "item"@,
                    Data::Object(
                        seq![
                            ("type"@, Data::Str("function_call_output"@)),
                            ("call_id"@, Data::Str(call_id@)),
                            ("output"@, Data::Str(output@)),
                        ],
                    ),
                ),
            ],
        ),
{
    DataValue::obj2(
        "type",
        DataValue::text("conversation.item.create"),
        "item",
        DataValue::obj3(
            "type",
            DataValue::text("function_call_output"),
            "call_id",
            DataValue::text(call_id),
            "output",
            DataValue::text(output),
        ),
    )
}

/// The event that asks the model to respond.
pub fn response_create() -> (r: DataValue)
    ensures
        r@ == Data::Object(seq![("type"@, Data::Str("response.create"@))]),
{
    DataValue::obj1("type", DataValue::text("response.create"))
}

/// A response as shown in the log: its first 200 bytes and an ellipsis where
/// it is longer.
pub fn response_preview(result: &str) -> (r: String)
    requires
        utf8_len(result@) > 200 ==> utf8_boundary(result@, 200),
    ensures
        r@ == (if utf8_len(result@) > 200 {
            utf8_head(result@, 200) + "..."@
        } else {
            result@
        }),
{
    let n = result.as_bytes().len();
    if n > 200 {
        let head = crate::text::head_bytes(result, 200);
        head.concat("...")
    } else {
        result.to_owned()
    }
}

/// The text of the assistant messages of a query, concatenated, or
/// `(no response)` where there is none.
pub open spec fn assistant_text(ms: Seq<GCMessage>) -> Seq<char>
    decreases ms.len(),
{
    if ms.len() == 0 {
        Seq::empty()
    } else {
        assistant_text(ms.drop_last()) + match ms.last() {
            GCMessage::Assistant(a) => a.content@,
            _ => Seq::empty(),
        }
    }
}

pub fn agent_response_text(messages: &[GCMessage]) -> (r: String)
    ensures
        r@ == (if assistant_text(messages@).len() == 0 {
            "(no response)"@
        } else {
            assistant_text(messages@)
        }),
{
    let mut text = String::new();
    let mut i: usize = 0;
    while i < messages.len()
        invariant
            i <= messages@.len(),
            text@ == assistant_text(messages@.take(i as int)),
        decreases messages@.len() - i,
    {
        proof {
            assert(messages@.take(i + 1) == messages@.take(i as int).push(messages@[i as int]));
            assert(messages@.take(i + 1).drop_last() == messages@.take(i as int));
        }
        match &messages[i] {
            GCMessage::Assistant(a) => {
                text.append(a.content.as_str());
            },
            _ => {
                assert(text@ =~= text@ + Seq::<char>::empty());
            },
        }
        i = i + 1;
    }
    assert(messages@.take(messages@.len() as int) == messages@);
    if text.as_str().is_empty() {
        "(no response)".to_owned()
    } else {
        text
    }
}

/// The port of the voice server: the configured one, else 3333.
pub fn server_port(port: Option<u16>) -> (r: u16)
    ensures
        r == (match port {
            Some(p) => p,
            None => 3333u16,
        }),
{
    match port {
        Some(p) => p,
        None => 3333,
    }
}

/// The address the health endpoint listens on.
pub fn bind_address(port: u16) -> (r: String)
    ensures
        r@ == "0.0.0.0:"@ + decimal(port as nat),
{
    let p = decimal_string(port as u64);
    "0.0.0.0:".to_owned().concat(p.as_str())
}

/// The health endpoint's answer.
pub fn health_status() -> (r: DataValue)
    ensures
        r@ == Data::Object(seq![("status"@, Data::Str("ok"@))]),
{
    DataValue::obj1("status", DataValue::text("ok"))
}

/// The line shown once the voice server runs.
pub fn running_message(port: u16) -> (r: String)
    ensures
        r@ == "Voice server running on :"@ + decimal(port as nat) + " — connected to OpenAI Realtime"@,
{
    let p = decimal_string(port as u64);
    "Voice server running on :".to_owned().concat(p.as_str()).concat(" — connected to OpenAI Realtime")
}

/// The error when the port cannot be bound.
pub fn bind_error(port: u16, error: &str) -> (r: String)
    ensures
        r@ == "Failed to bind port "@ + decimal(port as nat) + ": "@ + error@,
{
    let p = decimal_string(port as u64);
    "Failed to bind port ".to_owned().concat(p.as_str()).concat(": ").concat(error)
}

} // verus!
