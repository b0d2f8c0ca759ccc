//! Checking tool-call arguments against the tool's JSON Schema.
use vstd::prelude::*;

use crate::ai_types::{entries_view, Tool, ToolCall};
use crate::data::{json_render_pretty, Data, DataValue};
use crate::errors::PiAiError;
use crate::text::{join, join_seq, views_of};

verus! {

/// What checking a document against a JSON Schema with the `jsonschema` crate
/// gives: `Err` with the text of the compile error where the schema is not a
/// valid schema, else `Ok` with each violation as its instance path and its
/// message, in the order the validator reports them.
pub uninterp spec fn schema_check(schema: Data, instance: Data) -> Result<Seq<(Seq<char>, Seq<char>)>, Seq<char>>;

pub open spec fn check_view(r: Result<Vec<(String, String)>, String>) -> Result<Seq<(Seq<char>, Seq<char>)>, Seq<char>> {
    match r {
        Ok(v) => Ok(crate::text::str_pairs(v@)),
        Err(e) => Err(e@),
    }
}

/// `jsonschema::validator_for` on the schema, then `Validator::iter_errors` on
/// the instance, each error taken as its instance path and its display text.
/// The contract claims only that the outcome is the named check of the two
/// documents.
#[verifier::external_body]
fn run_schema_check(schema: &DataValue, instance: &DataValue) -> (r: Result<Vec<(String, String)>, String>)
    ensures
        check_view(r) == schema_check(schema@, instance@),
{
    let s = crate::data::to_serde(schema);
    let i = crate::data::to_serde(instance);
    match jsonschema::validator_for(&s) {
        Ok(v) => {
            let mut out = Vec::new();
            for e in v.iter_errors(&i) {
                out.push((e.instance_path().to_string(), e.to_string()));
            }
            Ok(out)
        },
        Err(e) => Err(e.to_string()),
    }
}

/// The line a violation is listed as; an empty path is the root.
pub open spec fn violation_line(v: (Seq<char>, Seq<char>)) -> Seq<char> {
    "  - "@ + (if v.0.len() == 0 {
        "root"@
    } else {
        v.0
    }) + ": "@ + v.1
}

pub open spec fn violation_lines(vs: Seq<(Seq<char>, Seq<char>)>) -> Seq<Seq<char>> {
    vs.map_values(|v: (Seq<char>, Seq<char>)| violation_line(v))
}

/// The outcome of a check: the arguments where nothing is violated, else the
/// text of the failure.
pub open spec fn validation_outcome(
    tool_name: Seq<char>,
    args: Data,
    check: Result<Seq<(Seq<char>, Seq<char>)>, Seq<char>>,
) -> Result<Data, Seq<char>> {
    match check {
        Err(e) => Err("Invalid schema for tool \""@ + tool_name + "\": "@ + e),
        Ok(vs) => if vs.len() == 0 {
            Ok(args)
        } else {
            Err(
                "Validation failed for tool \""@ + tool_name + "\":\n"@ + join_seq(violation_lines(vs), "\n"@)
                    + "\n\nReceived arguments:\n"@ + json_render_pretty(args),
            )
        },
    }
}

/// Whether a result agrees with an outcome, a failure being a `Validation`
/// error with its text.
pub open spec fn agrees(r: Result<DataValue, PiAiError>, expected: Result<Data, Seq<char>>) -> bool {
    match (r, expected) {
        (Ok(v), Ok(d)) => v@ == d,
        (Err(PiAiError::Validation(s)), Err(t)) => s@ == t,
        _ => false,
    }
}

/// The arguments of a call as one JSON object.
pub open spec fn args_data(tc: ToolCall) -> Data {
    Data::Object(entries_view(tc.arguments@))
}

/// Turns the outcome of a schema check into the result of validating a call.
pub fn check_outcome(
    tool_name: &str,
    args: DataValue,
    check: Result<Vec<(String, String)>, String>,
) -> (r: Result<DataValue, PiAiError>)
    ensures
        agrees(r, validation_outcome(tool_name@, args@, check_view(check))),
{
    match check {
        Err(e) => Err(
            PiAiError::Validation(
                "Invalid schema for tool \"".to_owned().concat(tool_name).concat("\": ").concat(
                    e.as_str(),
                ),
            ),
        ),
        Ok(vs) => {
            if vs.len() == 0 {
                return Ok(args);
            }
            let mut lines: Vec<String> = Vec::new();
            let mut i: usize = 0;
            while i < vs.len()
                invariant
                    i <= vs@.len(),
                    views_of(lines@) == violation_lines(crate::text::str_pairs(vs@.take(i as int))),
                decreases vs@.len() - i,
            {
                let path = if vs[i].0.as_str().is_empty() {
                    "root".to_owned()
                } else {
                    vs[i].0.clone()
                };
                let line = "  - ".to_owned().concat(path.as_str()).concat(": ").concat(vs[i].1.as_str());
                let ghost prev = lines@;
                lines.push(line);
                proof {
                    assert(vs@.take(i + 1) == vs@.take(i as int).push(vs@[i as int]));
                    assert(crate::text::str_pairs(vs@.take(i + 1)) =~= crate::text::str_pairs(
                        vs@.take(i as int),
                    ).push((vs@[i as int].0@, vs@[i as int].1@)));
                    assert(views_of(lines@) =~= views_of(prev).push(line@));
                    assert(violation_lines(crate::text::str_pairs(vs@.take(i + 1))) =~= violation_lines(
                        crate::text::str_pairs(vs@.take(i as int)),
                    ).push(violation_line((vs@[i as int].0@, vs@[i as int].1@))));
                }
                i = i + 1;
            }
            assert(vs@.take(vs@.len() as int) == vs@);
            let listed = join(&lines, "\n");
            let shown = crate::data::render_json_pretty(&args);
            Err(
                PiAiError::Validation(
                    "Validation failed for tool \"".to_owned().concat(tool_name).concat("\":\n").concat(
                        listed.as_str(),
                    ).concat("\n\nReceived arguments:\n").concat(shown.as_str()),
                ),
            )
        },
    }
}

/// Validates a call's arguments against the tool's schema: the arguments as
/// one JSON object where they conform, else a `Validation` error.
pub fn validate_tool_arguments(tool: &Tool, tool_call: &ToolCall) -> (r: Result<DataValue, PiAiError>)
    ensures
        agrees(
            r,
            validation_outcome(
                tool_call.name@,
                args_data(*tool_call),
                schema_check(tool.parameters@, args_data(*tool_call)),
            ),
        ),
{
    let args = DataValue::object(crate::ai_types::clone_entries(&tool_call.arguments));
    let check = run_schema_check(&tool.parameters, &args);
    check_outcome(tool_call.name.as_str(), args, check)
}

/// Finds the tool a call names and validates the call against it; a call of an
/// unknown tool is `ToolNotFound` with the name.
pub fn validate_tool_call(tools: &[Tool], tool_call: &ToolCall) -> (r: Result<DataValue, PiAiError>)
    ensures
        (forall|i: int| 0 <= i < tools@.len() ==> tools@[i].name@ != tool_call.name@) ==> (r matches Err(
            PiAiError::ToolNotFound(n),
        ) && n@ == tool_call.name@),
        forall|i: int|
            0 <= i < tools@.len() && tools@[i].name@ == tool_call.name@ && (forall|j: int|
                0 <= j < i ==> tools@[j].name@ != tool_call.name@) ==> agrees(
                r,
                validation_outcome(
                    tool_call.name@,
                    args_data(*tool_call),
                    schema_check(tools@[i].parameters@, args_data(*tool_call)),
                ),
            ),
{
    let mut i: usize = 0;
    while i < tools.len()
        invariant
            i <= tools@.len(),
            forall|j: int| 0 <= j < i ==> tools@[j].name@ != tool_call.name@,
        decreases tools@.len() - i,
    {
        if crate::text::str_eq(tools[i].name.as_str(), tool_call.name.as_str()) {
            return validate_tool_arguments(&tools[i], tool_call);
        }
        i = i + 1;
    }
    Err(PiAiError::ToolNotFound(tool_call.name.clone()))
}

} // verus!
