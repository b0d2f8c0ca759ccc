//! The audit log: one JSON line per event of a session, when the agent's
//! compliance settings ask for it.
use vstd::prelude::*;

use crate::ai_types::opt_str;
use crate::data::{opt_view, Data, DataValue};
use crate::env_keys::{join_path, join_path_str};
use crate::text::{head_bytes, utf8_boundary, utf8_head, utf8_len};

verus! {

pub struct AuditLogger {
    pub log_path: String,
    pub session_id: String,
    pub enabled: bool,
}

impl AuditLogger {
    /// A logger writing `audit.jsonl` in the agent's state directory.
    pub fn new(gitagent_dir: &str, session_id: &str, enabled: bool) -> (r: AuditLogger)
        ensures
            r.log_path@ == join_path(gitagent_dir@, "audit.jsonl"@),
            r.session_id@ == session_id@,
            r.enabled == enabled,
    {
        AuditLogger {
            log_path: join_path_str(gitagent_dir, "audit.jsonl"),
            session_id: session_id.to_owned(),
            enabled,
        }
    }
}

pub struct AuditEntry {
    pub timestamp: String,
    pub session_id: String,
    pub event: String,
    pub tool: Option<String>,
    pub args: Option<DataValue>,
    pub result: Option<String>,
    pub error: Option<String>,
}

/// The entry to log for an event, if the logger is enabled: the given entry,
/// else a plain one with the time, the session and the event.
pub fn entry_to_log(logger: &AuditLogger, event: &str, extra: Option<AuditEntry>, now: &str) -> (r: Option<AuditEntry>)
    ensures
        !logger.enabled ==> r is None,
        logger.enabled && extra is Some ==> r == extra,
        logger.enabled && extra is None ==> (r matches Some(e) && e.timestamp@ == now@ && e.session_id@
            == logger.session_id@ && e.event@ == event@ && e.tool is None && e.args is None && e.result is None
            && e.error is None),
{
    if !logger.enabled {
        return None;
    }
    match extra {
        Some(e) => Some(e),
        None => Some(
            AuditEntry {
                timestamp: now.to_owned(),
                session_id: logger.session_id.clone(),
                event: event.to_owned(),
                tool: None,
                args: None,
                result: None,
                error: None,
            },
        ),
    }
}

/// The entry of a tool call.
pub fn tool_use_entry(logger: &AuditLogger, tool: &str, args: &DataValue, now: &str) -> (r: AuditEntry)
    ensures
        r.timestamp@ == now@,
        r.session_id@ == logger.session_id@,
        r.event@ == "tool_use"@,
        opt_str(r.tool) == Some(tool@),
        opt_view(r.args) == Some(args@),
        r.result is None,
        r.error is None,
{
    AuditEntry {
        timestamp: now.to_owned(),
        session_id: logger.session_id.clone(),
        event: "tool_use".to_owned(),
        tool: Some(tool.to_owned()),
        args: Some(args.copy()),
        result: None,
        error: None,
    }
}

/// The entry of a tool's result; results over a thousand bytes are cut to
/// their first thousand.
pub fn tool_result_entry(logger: &AuditLogger, tool: &str, result: &str, now: &str) -> (r: AuditEntry)
    requires
        utf8_len(result@) > 1000 ==> utf8_boundary(result@, 1000),
    ensures
        r.timestamp@ == now@,
        r.session_id@ == logger.session_id@,
        r.event@ == "tool_result"@,
        opt_str(r.tool) == Some(tool@),
        r.args is None,
        opt_str(r.result) == Some(
            if utf8_len(result@) > 1000 {
                utf8_head(result@, 1000)
            } else {
                result@
            },
        ),
        r.error is None,
{
    AuditEntry {
        timestamp: now.to_owned(),
        session_id: logger.session_id.clone(),
        event: "tool_result".to_owned(),
        tool: Some(tool.to_owned()),
        args: None,
        result: Some(head_bytes(result, 1000)),
        error: None,
    }
}

/// The entry of an error.
pub fn error_entry(logger: &AuditLogger, error: &str, now: &str) -> (r: AuditEntry)
    ensures
        r.timestamp@ == now@,
        r.session_id@ == logger.session_id@,
        r.event@ == "error"@,
        r.tool is None,
        r.args is None,
        r.result is None,
        opt_str(r.error) == Some(error@),
{
    AuditEntry {
        timestamp: now.to_owned(),
        session_id: logger.session_id.clone(),
        event: "error".to_owned(),
        tool: None,
        args: None,
        result: None,
        error: Some(error.to_owned()),
    }
}

/// Whether the compliance settings turn audit logging on
/// (`recordkeeping.audit_logging` is `true`).
pub fn is_audit_enabled(compliance: Option<&DataValue>) -> (r: bool)
    ensures
        r == (match compliance {
            Some(c) => match c@.get("recordkeeping"@) {
                Some(rk) => rk.get_bool("audit_logging"@) == Some(true),
                None => false,
            },
            None => false,
        }),
{
    match compliance {
        Some(c) => match c.get("recordkeeping") {
            Some(rk) => rk.get_bool("audit_logging") == Some(true),
            None => false,
        },
        None => false,
    }
}

} // verus!
