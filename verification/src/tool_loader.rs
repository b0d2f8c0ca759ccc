//! Declarative tools: tools defined in YAML that run a script, and how their
//! output becomes a result.
use vstd::prelude::*;

use crate::data::{json_parse, json_render, Data, DataValue};
use crate::env_keys::{join_path, join_path_str};
use crate::text::{decimal, trim, trim_seq};

verus! {

/// The schema of a declarative tool's arguments, as written.
pub fn build_json_schema(schema: &DataValue) -> (r: DataValue)
    ensures
        r@ == schema@,
{
    schema.copy()
}

pub struct DeclarativeTool {
    pub name: String,
    pub description: String,
    pub schema: DataValue,
    pub script_path: String,
    pub runtime: String,
    pub agent_dir: String,
}

/// A declarative tool from its definition: the script lies in the tools
/// directory and runs with `sh` unless a runtime is named.
pub fn declarative_tool(
    name: String,
    description: String,
    input_schema: &DataValue,
    script: &str,
    runtime: Option<String>,
    tools_dir: &str,
    agent_dir: &str,
) -> (r: DeclarativeTool)
    ensures
        r.name == name,
        r.description == description,
        r.schema@ == input_schema@,
        r.script_path@ == join_path(tools_dir@, script@),
        r.runtime@ == (match runtime {
            Some(rt) => rt@,
            None => "sh"@,
        }),
        r.agent_dir@ == agent_dir@,
{
    DeclarativeTool {
        name,
        description,
        schema: build_json_schema(input_schema),
        script_path: join_path_str(tools_dir, script),
        runtime: match runtime {
            Some(rt) => rt,
            None => "sh".to_owned(),
        },
        agent_dir: agent_dir.to_owned(),
    }
}

/// What a script's output is shown as: the trimmed output; where it is JSON,
/// its `text` string, else its `result` (a string as is, anything else as
/// JSON text); `(no output)` where that is empty.
pub open spec fn spec_tool_output(stdout: Seq<char>) -> Seq<char> {
    let text = trim_seq(stdout);
    let shown = match json_parse(text) {
        Some(parsed) => match parsed.get_str("text"@) {
            Some(t) => t,
            None => match parsed.get("result"@) {
                Some(Data::Str(s)) => s,
                Some(r) => json_render(r),
                None => text,
            },
        },
        None => text,
    };
    if shown.len() == 0 {
        "(no output)"@
    } else {
        shown
    }
}

pub fn tool_output_text(stdout: &str) -> (r: String)
    ensures
        r@ == spec_tool_output(stdout@),
{
    let text = trim(stdout);
    let shown = match crate::data::parse_json(text.as_str()) {
        Some(parsed) => match parsed.get_str("text") {
            Some(t) => t,
            None => match parsed.get("result") {
                Some(r) => match r.as_str() {
                    Some(s) => s.to_owned(),
                    None => crate::data::render_json(r),
                },
                None => text,
            },
        },
        None => text,
    };
    if shown.as_str().is_empty() {
        "(no output)".to_owned()
    } else {
        shown
    }
}

/// The error of a tool whose script could not start.
pub fn tool_start_error(name: &str, error: &str) -> (r: String)
    ensures
        r@ == "Tool \""@ + name@ + "\" failed to start: "@ + error@,
{
    "Tool \"".to_owned().concat(name).concat("\" failed to start: ").concat(error)
}

/// The error of a tool whose script ran out of time.
pub fn tool_timeout_error(name: &str) -> (r: String)
    ensures
        r@ == "Tool \""@ + name@ + "\" timed out after 120s"@,
{
    "Tool \"".to_owned().concat(name).concat("\" timed out after 120s")
}

/// The error of a tool whose script failed to run.
pub fn tool_failed_error(name: &str, error: &str) -> (r: String)
    ensures
        r@ == "Tool \""@ + name@ + "\" failed: "@ + error@,
{
    "Tool \"".to_owned().concat(name).concat("\" failed: ").concat(error)
}

/// The error of a tool whose script exited unsuccessfully.
pub fn tool_exit_error(name: &str, code: i32, stderr: &str) -> (r: String)
    ensures
        r@ == "Tool \""@ + name@ + "\" exited with code "@ + crate::text::signed_decimal(code as int) + ": "@
            + trim_seq(stderr@),
{
    let shown = crate::text::i32_string(code);
    let t = trim(stderr);
    "Tool \"".to_owned().concat(name).concat("\" exited with code ").concat(shown.as_str()).concat(": ").concat(
        t.as_str(),
    )
}

/// Whether a file in the tools directory defines a tool: `.yaml` or `.yml`.
pub fn is_tool_file(file_name: &str) -> (r: bool)
    ensures
        r == (crate::text::is_suffix(".yaml"@, file_name@) || crate::text::is_suffix(".yml"@, file_name@)),
{
    crate::text::ends_with(file_name, ".yaml") || crate::text::ends_with(file_name, ".yml")
}

} // verus!
