//! Error types of the model layer and of the agent loop, each with the text it
//! is shown as.
use vstd::prelude::*;

verus! {

/// A failure of the model layer. Transport and decoding failures carry the
/// text of the underlying error.
#[derive(Clone)]
pub enum PiAiError {
    NoProvider(String),
    MismatchedApi { actual: String, expected: String },
    Http(String),
    Json(String),
    Sse(String),
    Validation(String),
    ToolNotFound(String),
    ApiKeyNotFound(String),
    Aborted,
    Other(String),
}

/// The text an error is shown as.
pub open spec fn pi_ai_error_text(e: PiAiError) -> Seq<char> {
    match e {
        PiAiError::NoProvider(s) => "No API provider registered for api: "@ + s@,
        PiAiError::MismatchedApi { actual, expected } => "Mismatched api: "@ + actual@ + " expected "@
            + expected@,
        PiAiError::Http(s) => "HTTP error: "@ + s@,
        PiAiError::Json(s) => "JSON error: "@ + s@,
        PiAiError::Sse(s) => "SSE error: "@ + s@,
        PiAiError::Validation(s) => "Validation error: "@ + s@,
        PiAiError::ToolNotFound(s) => "Tool not found: "@ + s@,
        PiAiError::ApiKeyNotFound(s) => "API key not found for provider: "@ + s@,
        PiAiError::Aborted => "Aborted"@,
        PiAiError::Other(s) => s@,
    }
}

impl PiAiError {
    /// The text the error is shown as.
    pub fn to_string(&self) -> (r: String)
        ensures
            r@ == pi_ai_error_text(*self),
    {
        match self {
            PiAiError::NoProvider(s) => "No API provider registered for api: ".to_owned().concat(s.as_str()),
            PiAiError::MismatchedApi { actual, expected } => "Mismatched api: ".to_owned().concat(
                actual.as_str(),
            ).concat(" expected ").concat(expected.as_str()),
            PiAiError::Http(s) => "HTTP error: ".to_owned().concat(s.as_str()),
            PiAiError::Json(s) => "JSON error: ".to_owned().concat(s.as_str()),
            PiAiError::Sse(s) => "SSE error: ".to_owned().concat(s.as_str()),
            PiAiError::Validation(s) => "Validation error: ".to_owned().concat(s.as_str()),
            PiAiError::ToolNotFound(s) => "Tool not found: ".to_owned().concat(s.as_str()),
            PiAiError::ApiKeyNotFound(s) => "API key not found for provider: ".to_owned().concat(
                s.as_str(),
            ),
            PiAiError::Aborted => "Aborted".to_owned(),
            PiAiError::Other(s) => s.clone(),
        }
    }
}

/// A failure of the agent.
#[derive(Clone)]
pub enum AgentError {
    AlreadyStreaming,
    Aborted,
    ToolExecution(String),
    AiError(PiAiError),
    Other(String),
}

/// The text an agent error is shown as.
pub open spec fn agent_error_text(e: AgentError) -> Seq<char> {
    match e {
        AgentError::AlreadyStreaming => "Agent is already streaming"@,
        AgentError::Aborted => "Agent aborted"@,
        AgentError::ToolExecution(s) => "Tool execution failed: "@ + s@,
        AgentError::AiError(inner) => "AI error: "@ + pi_ai_error_text(inner),
        AgentError::Other(s) => s@,
    }
}

impl AgentError {
    /// The text the error is shown as.
    pub fn to_string(&self) -> (r: String)
        ensures
            r@ == agent_error_text(*self),
    {
        match self {
            AgentError::AlreadyStreaming => "Agent is already streaming".to_owned(),
            AgentError::Aborted => "Agent aborted".to_owned(),
            AgentError::ToolExecution(s) => "Tool execution failed: ".to_owned().concat(s.as_str()),
            AgentError::AiError(inner) => {
                let t = inner.to_string();
                "AI error: ".to_owned().concat(t.as_str())
            },
            AgentError::Other(s) => s.clone(),
        }
    }
}

impl From<PiAiError> for AgentError {
    fn from(e: PiAiError) -> (r: AgentError)
        ensures
            r == AgentError::AiError(e),
    {
        AgentError::AiError(e)
    }
}

impl vstd::std_specs::convert::FromSpecImpl<PiAiError> for AgentError {
    open spec fn obeys_from_spec() -> bool {
        true
    }

    open spec fn from_spec(e: PiAiError) -> AgentError {
        AgentError::AiError(e)
    }
}

} // verus!
