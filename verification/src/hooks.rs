//! Hooks: scripts run at points of a session, whose verdict can block or
//! change what happens.
use vstd::prelude::*;

use crate::ai_types::opt_str;
use crate::data::{Data, DataValue};
use crate::text::{str_eq, trim, trim_seq};

verus! {

pub struct HookDefinition {
    pub script: String,
    pub description: Option<String>,
}

pub struct HooksMap {
    pub on_session_start: Option<Vec<HookDefinition>>,
    pub pre_tool_use: Option<Vec<HookDefinition>>,
    pub post_response: Option<Vec<HookDefinition>>,
    pub on_error: Option<Vec<HookDefinition>>,
}

pub struct HooksFileConfig {
    pub hooks: HooksMap,
}

/// What a hook decided: `allow`, `block` or `modify`, with an optional reason and
/// replacement arguments.
pub struct HookResult {
    pub action: String,
    pub reason: Option<String>,
    pub args: Option<Vec<(String, DataValue)>>,
}

/// A configuration counts only where it defines some hook list.
pub fn config_if_any(config: HooksFileConfig) -> (r: Option<HooksFileConfig>)
    ensures
        (config.hooks.on_session_start is None && config.hooks.pre_tool_use is None
            && config.hooks.post_response is None && config.hooks.on_error is None) ==> r is None,
        !(config.hooks.on_session_start is None && config.hooks.pre_tool_use is None
            && config.hooks.post_response is None && config.hooks.on_error is None) ==> r == Some(config),
{
    if config.hooks.on_session_start.is_none() && config.hooks.pre_tool_use.is_none()
        && config.hooks.post_response.is_none() && config.hooks.on_error.is_none() {
        None
    } else {
        Some(config)
    }
}

/// The verdict that lets things go on.
pub fn allow() -> (r: HookResult)
    ensures
        r.action@ == "allow"@,
        r.reason is None,
        r.args is None,
{
    HookResult { action: "allow".to_owned(), reason: None, args: None }
}

/// Whether a verdict ends the run of the remaining hooks: `block` or `modify`.
pub fn is_decisive(result: &HookResult) -> (r: bool)
    ensures
        r == (result.action@ == "block"@ || result.action@ == "modify"@),
{
    str_eq(result.action.as_str(), "block") || str_eq(result.action.as_str(), "modify")
}

/// The error of a hook that exited unsuccessfully.
pub fn hook_exit_error(script: &str, code: i32, stderr: &str) -> (r: String)
    ensures
        r@ == "Hook \""@ + script@ + "\" exited with code "@ + crate::text::signed_decimal(code as int) + ": "@
            + trim_seq(stderr@),
{
    let shown = crate::text::i32_string(code);
    let t = trim(stderr);
    "Hook \"".to_owned().concat(script).concat("\" exited with code ").concat(shown.as_str()).concat(": ").concat(
        t.as_str(),
    )
}

/// The error of a hook that could not start.
pub fn hook_start_error(script: &str, error: &str) -> (r: String)
    ensures
        r@ == "Hook \""@ + script@ + "\" failed to start: "@ + error@,
{
    "Hook \"".to_owned().concat(script).concat("\" failed to start: ").concat(error)
}

/// The error of a hook that ran out of time.
pub fn hook_timeout_error(script: &str) -> (r: String)
    ensures
        r@ == "Hook \""@ + script@ + "\" timed out after 10s"@,
{
    "Hook \"".to_owned().concat(script).concat("\" timed out after 10s")
}

/// The error of a hook whose run failed.
pub fn hook_failed_error(script: &str, error: &str) -> (r: String)
    ensures
        r@ == "Hook \""@ + script@ + "\" failed: "@ + error@,
{
    "Hook \"".to_owned().concat(script).concat("\" failed: ").concat(error)
}

/// What a successful hook decided: what it printed where that reads as one, else
/// `allow`.
pub fn verdict_or_allow(parsed: Option<HookResult>) -> (r: HookResult)
    ensures
        parsed matches Some(p) ==> r == p,
        parsed is None ==> r.action@ == "allow"@ && r.reason is None && r.args is None,
{
    match parsed {
        Some(p) => p,
        None => allow(),
    }
}

/// What hooks are given at the start of a session.
pub fn session_start_input(session_id: &str, agent: &str) -> (r: DataValue)
    ensures
        r@ == Data::Object(
            seq![
                ("event"@, Data::Str("on_session_start"@)),
                ("session_id"@, Data::Str(session_id@)),
                ("agent"@, Data::Str(agent@)),
            ],
        ),
{
    DataValue::obj3(
        "event",
        DataValue::text("on_session_start"),
        "session_id",
        DataValue::text(session_id),
        "agent",
        DataValue::text(agent),
    )
}

/// What hooks are given when a prompt fails.
pub fn error_input(session_id: &str, error: &str) -> (r: DataValue)
    ensures
        r@ == Data::Object(
            seq![
                ("event"@, Data::Str("on_error"@)),
                ("session_id"@, Data::Str(session_id@)),
                ("error"@, Data::Str(error@)),
            ],
        ),
{
    DataValue::obj3(
        "event",
        DataValue::text("on_error"),
        "session_id",
        DataValue::text(session_id),
        "error",
        DataValue::text(error),
    )
}

/// The notice when a hook blocks a session.
pub fn blocked_message(reason: &Option<String>) -> (r: String)
    ensures
        r@ == "Session blocked by hook: "@ + match opt_str(*reason) {
            Some(s) => s,
            None => "no reason given"@,
        },
{
    match reason {
        Some(s) => "Session blocked by hook: ".to_owned().concat(s.as_str()),
        None => "Session blocked by hook: ".to_owned().concat("no reason given"),
    }
}

} // verus!
