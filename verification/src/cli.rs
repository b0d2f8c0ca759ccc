//! The command line: what the terminal shows of an agent's events, the
//! preparation of an agent directory, and the commands of the prompt loop.
use vstd::prelude::*;

use crate::agent_types::{result_contents_view, AgentEvent};
use crate::ai_types::{AssistantMessageEvent, ToolResultContent};
use crate::data::{json_render, pairs_view, Data, DataValue};
use crate::env_keys::{join_path, join_path_str};
use crate::sdk::first_text;
use crate::text::{
    chars_of, is_prefix, is_ws, is_whitespace, join, join_seq, str_eq, utf8_boundary, utf8_head, utf8_len,
    views_of,
};
use crate::voice::{bold, dim};

verus! {

/// Red terminal text.
pub fn red(s: &str) -> (r: String)
    ensures
        r@ == "\x1b[31m"@ + s@ + "\x1b[0m"@,
{
    "\x1b[31m".to_owned().concat(s).concat("\x1b[0m")
}

/// Green terminal text.
pub fn green(s: &str) -> (r: String)
    ensures
        r@ == "\x1b[32m"@ + s@ + "\x1b[0m"@,
{
    "\x1b[32m".to_owned().concat(s).concat("\x1b[0m")
}

/// Yellow terminal text.
pub fn yellow(s: &str) -> (r: String)
    ensures
        r@ == "\x1b[33m"@ + s@ + "\x1b[0m"@,
{
    "\x1b[33m".to_owned().concat(s).concat("\x1b[0m")
}

/// A text cut to a number of bytes with an ellipsis where it is longer:
/// `None` where the cut would fall inside a character.
pub open spec fn shorten(s: Seq<char>, max: int) -> Option<Seq<char>> {
    if utf8_len(s) > max {
        if utf8_boundary(s, max) {
            Some(utf8_head(s, max) + "…"@)
        } else {
            None
        }
    } else {
        Some(s)
    }
}

fn shorten_text(s: &str, max: usize) -> (r: Option<String>)
    ensures
        match r {
            Some(t) => shorten(s@, max as int) == Some(t@),
            None => shorten(s@, max as int) is None,
        },
{
    let n = s.as_bytes().len();
    if n > max {
        if !s.is_char_boundary(max) {
            return None;
        }
        let head = crate::text::head_bytes(s, max);
        Some(head.concat("…"))
    } else {
        Some(s.to_owned())
    }
}

/// How an argument's value is shown: a string as is, anything else as JSON.
pub open spec fn value_text(v: Data) -> Seq<char> {
    match v {
        Data::Str(s) => s,
        _ => json_render(v),
    }
}

/// The argument summary lines, each `key: value` with the value cut to 60
/// bytes; `None` where a cut falls inside a character.
pub open spec fn summary_parts(es: Seq<(Seq<char>, Data)>) -> Option<Seq<Seq<char>>>
    decreases es.len(),
{
    if es.len() == 0 {
        Some(Seq::empty())
    } else {
        match (summary_parts(es.drop_last()), shorten(value_text(es.last().1), 60)) {
            (Some(r), Some(v)) => Some(r.push(es.last().0 + ": "@ + v)),
            _ => None,
        }
    }
}

/// The one-line summary of a call's arguments; empty without arguments.
pub open spec fn spec_summarize_args(args: Option<Seq<(Seq<char>, Data)>>) -> Option<Seq<char>> {
    match args {
        None => Some(Seq::empty()),
        Some(es) => match summary_parts(es) {
            Some(parts) => Some(join_seq(parts, ", "@)),
            None => None,
        },
    }
}

proof fn lemma_summary_prefix(es: Seq<(Seq<char>, Data)>, n: int)
    requires
        0 <= n <= es.len(),
        summary_parts(es.take(n)) is None,
    ensures
        summary_parts(es) is None,
    decreases es.len(),
{
    if n < es.len() {
        assert(es.drop_last().take(n) == es.take(n));
        lemma_summary_prefix(es.drop_last(), n);
    } else {
        assert(es.take(n) == es);
    }
}

fn summarize_entries(a: &Vec<(String, DataValue)>) -> (r: Option<String>)
    ensures
        match r {
            Some(s) => spec_summarize_args(Some(pairs_view(a@))) == Some(s@),
            None => spec_summarize_args(Some(pairs_view(a@))) is None,
        },
{
    let mut parts: Vec<String> = Vec::new();
    let mut i: usize = 0;
    while i < a.len()
        invariant
            i <= a@.len(),
            summary_parts(pairs_view(a@.take(i as int))) == Some(views_of(parts@)),
        decreases a@.len() - i,
    {
        proof {
            assert(a@.take(i + 1) == a@.take(i as int).push(a@[i as int]));
            assert(pairs_view(a@.take(i + 1)) =~= pairs_view(a@.take(i as int)).push((a@[i as int].0@, a@[i as int].1@)));
            assert(pairs_view(a@.take(i + 1)).drop_last() =~= pairs_view(a@.take(i as int)));
        }
        let shown = match a[i].1.as_str() {
            Some(s) => s.to_owned(),
            None => crate::data::render_json(&a[i].1),
        };
        assert(shown@ == value_text(a@[i as int].1@));
        match shorten_text(shown.as_str(), 60) {
            Some(v) => {
                let part = a[i].0.clone().concat(": ").concat(v.as_str());
                let ghost prev = parts@;
                parts.push(part);
                assert(views_of(parts@) =~= views_of(prev).push(part@));
            },
            None => {
                proof {
                    assert(pairs_view(a@).take(i + 1) =~= pairs_view(a@.take(i + 1)));
                    assert(pairs_view(a@.take(i + 1)).last().1 == a@[i as int].1@);
                    assert(summary_parts(pairs_view(a@.take(i + 1))) is None);
                    lemma_summary_prefix(pairs_view(a@), i as int + 1);
                }
                return None;
            },
        }
        i = i + 1;
    }
    assert(a@.take(a@.len() as int) == a@);
    Some(join(&parts, ", "))
}

pub fn summarize_args(args: &Option<Vec<(String, DataValue)>>) -> (r: Option<String>)
    ensures
        match r {
            Some(s) => spec_summarize_args(match args {
                Some(a) => Some(pairs_view(a@)),
                None => None,
            }) == Some(s@),
            None => spec_summarize_args(match args {
                Some(a) => Some(pairs_view(a@)),
                None => None,
            }) is None,
        },
{
    match args {
        Some(a) => summarize_entries(a),
        None => Some(String::new()),
    }
}

/// What the terminal shows of an event.
pub enum EventOutput {
    /// Nothing.
    Nothing,
    /// This text, on standard error.
    Text(String),
    /// A text would be cut inside a character.
    CutInsideChar,
}

/// What the terminal shows of an event: streamed text as it comes, a line
/// break after a response, a line for each tool call with its arguments, a
/// line for each failed tool, and the start of each tool's output.
pub open spec fn spec_event_output(event: AgentEvent) -> Option<Option<Seq<char>>> {
    match event {
        AgentEvent::MessageUpdate { assistant_message_event: AssistantMessageEvent::TextDelta { delta, .. } } => Some(
            Some(delta@),
        ),
        AgentEvent::MessageEnd { .. } => Some(Some("\n"@)),
        AgentEvent::ToolExecutionStart { tool_name, args, .. } => match spec_summarize_args(
            match args {
                Some(a) => Some(pairs_view(a@)),
                None => None,
            },
        ) {
            Some(summary) => Some(Some("\x1b[2m"@ + "\n▶ "@ + tool_name@ + "("@ + summary + ")"@ + "\x1b[0m"@ + "\n"@)),
            None => None,
        },
        AgentEvent::ToolExecutionEnd { tool_name, result, is_error, .. } => if is_error {
            Some(Some("\x1b[31m"@ + "✗ "@ + tool_name@ + " failed"@ + "\x1b[0m"@ + "\n"@))
        } else {
            match result {
                Some(res) => match shorten(first_text(result_contents_view(res.content@)), 200) {
                    Some(p) => if p.len() == 0 {
                        Some(None)
                    } else {
                        Some(Some("\x1b[2m"@ + p + "\x1b[0m"@ + "\n"@))
                    },
                    None => None,
                },
                None => Some(None),
            }
        },
        _ => Some(None),
    }
}

pub open spec fn output_is(o: EventOutput, spec: Option<Option<Seq<char>>>) -> bool {
    match spec {
        None => o is CutInsideChar,
        Some(None) => o is Nothing,
        Some(Some(t)) => o matches EventOutput::Text(s) && s@ == t,
    }
}

pub fn event_output(event: &AgentEvent) -> (r: EventOutput)
    ensures
        output_is(r, spec_event_output(*event)),
{
    match event {
        AgentEvent::MessageUpdate { assistant_message_event } => match assistant_message_event {
            AssistantMessageEvent::TextDelta { delta, .. } => EventOutput::Text(delta.clone()),
            _ => EventOutput::Nothing,
        },
        AgentEvent::MessageEnd { .. } => EventOutput::Text("\n".to_owned()),
        AgentEvent::ToolExecutionStart { tool_name, args, .. } => match summarize_args(args) {
            Some(summary) => {
                let line = "\n▶ ".to_owned().concat(tool_name.as_str()).concat("(").concat(summary.as_str()).concat(")");
                let shown = dim(line.as_str());
                let out = shown.concat("\n");
                assert(out@ =~= "\x1b[2m"@ + "\n▶ "@ + tool_name@ + "("@ + summary@ + ")"@ + "\x1b[0m"@ + "\n"@);
                EventOutput::Text(out)
            },
            None => EventOutput::CutInsideChar,
        },
        AgentEvent::ToolExecutionEnd { tool_name, result, is_error, .. } => {
            if *is_error {
                let line = "✗ ".to_owned().concat(tool_name.as_str()).concat(" failed");
                let shown = red(line.as_str());
                let out = shown.concat("\n");
                assert(out@ =~= "\x1b[31m"@ + "✗ "@ + tool_name@ + " failed"@ + "\x1b[0m"@ + "\n"@);
                return EventOutput::Text(out);
            }
            match result {
                Some(res) => {
                    let text = if res.content.len() > 0 {
                        match &res.content[0] {
                            ToolResultContent::Text(t) => t.text.clone(),
                            _ => String::new(),
                        }
                    } else {
                        String::new()
                    };
                    match shorten_text(text.as_str(), 200) {
                        Some(p) => if p.as_str().is_empty() {
                            EventOutput::Nothing
                        } else {
                            let shown = dim(p.as_str());
                            EventOutput::Text(shown.concat("\n"))
                        },
                        None => EventOutput::CutInsideChar,
                    }
                },
                None => EventOutput::Nothing,
            }
        },
        _ => EventOutput::Nothing,
    }
}

/// The variable that must hold the key of a provider the command line checks
/// before it starts.
pub open spec fn spec_required_key_var(provider: Seq<char>) -> Option<Seq<char>> {
    if provider == "anthropic"@ {
        Some("ANTHROPIC_API_KEY"@)
    } else if provider == "openai"@ {
        Some("OPENAI_API_KEY"@)
    } else if provider == "google"@ {
        Some("GOOGLE_API_KEY"@)
    } else if provider == "xai"@ {
        Some("XAI_API_KEY"@)
    } else if provider == "groq"@ {
        Some("GROQ_API_KEY"@)
    } else if provider == "mistral"@ {
        Some("MISTRAL_API_KEY"@)
    } else {
        None
    }
}

pub fn required_key_var(provider: &str) -> (r: Option<&'static str>)
    ensures
        match r {
            Some(v) => spec_required_key_var(provider@) == Some(v@),
            None => spec_required_key_var(provider@) is None,
        },
{
    if str_eq(provider, "anthropic") {
        Some("ANTHROPIC_API_KEY")
    } else if str_eq(provider, "openai") {
        Some("OPENAI_API_KEY")
    } else if str_eq(provider, "google") {
        Some("GOOGLE_API_KEY")
    } else if str_eq(provider, "xai") {
        Some("XAI_API_KEY")
    } else if str_eq(provider, "groq") {
        Some("GROQ_API_KEY")
    } else if str_eq(provider, "mistral") {
        Some("MISTRAL_API_KEY")
    } else {
        None
    }
}

/// Where a repository is cloned when no directory is given.
pub fn repo_default_dir(url: &str) -> (r: String)
    ensures
        r@ == "/tmp/gitclaw/"@ + crate::session::spec_repo_name(url@),
{
    let name = crate::session::repo_name(url);
    "/tmp/gitclaw/".to_owned().concat(name.as_str())
}

/// What is known of an agent directory before it is prepared.
pub struct RepoState {
    pub dir: String,
    pub dir_name: Option<String>,
    pub dir_exists: bool,
    pub is_git_repo: bool,
    pub gitignore_exists: bool,
    pub agent_yaml_exists: bool,
    pub memory_exists: bool,
    pub soul_exists: bool,
}

/// One step of preparing an agent directory.
pub enum RepoStep {
    /// Show a notice.
    Notice(String),
    /// Create the directory and its parents.
    CreateDir(String),
    /// Run a shell command in the directory, output discarded.
    Shell(String),
    /// Write a file.
    WriteFile { path: String, content: String },
}

pub open spec fn notice(s: Seq<char>) -> Seq<char> {
    "\x1b[2m"@ + s + "\x1b[0m"@
}

/// The identity an agent starts with.
pub open spec fn default_soul() -> Seq<char> {
    "# Identity\n\nYou are a helpful AI agent. You live inside a git repository.\nYou can run commands, read and write files, and remember things.\nBe concise and action-oriented.\n"@
}

pub open spec fn step_is(s: RepoStep, kind: int, a: Seq<char>, b: Seq<char>) -> bool {
    match s {
        RepoStep::Notice(t) => kind == 0 && t@ == a,
        RepoStep::CreateDir(d) => kind == 1 && d@ == a,
        RepoStep::Shell(c) => kind == 2 && c@ == a,
        RepoStep::WriteFile { path, content } => kind == 3 && path@ == a && content@ == b,
    }
}

pub open spec fn repo_model(model: Option<Seq<char>>) -> Seq<char> {
    match model {
        Some(m) => m,
        None => "openai:gpt-4o-mini"@,
    }
}

pub open spec fn repo_agent_name(st: RepoState) -> Seq<char> {
    match st.dir_name {
        Some(n) => n@,
        None => "my-agent"@,
    }
}

pub open spec fn dir_steps(st: RepoState) -> Seq<(int, Seq<char>, Seq<char>)> {
    if !st.dir_exists {
        seq![(0, notice("Creating directory: "@ + st.dir@), Seq::empty()), (1, st.dir@, Seq::empty())]
    } else {
        Seq::empty()
    }
}

pub open spec fn git_steps(st: RepoState) -> Seq<(int, Seq<char>, Seq<char>)> {
    if !st.is_git_repo {
        seq![(0, notice("Initializing git repository..."@), Seq::empty()), (2, "git init"@, Seq::empty())] + (if !st.gitignore_exists {
            seq![(3, join_path(st.dir@, ".gitignore"@), "node_modules/\ndist/\n.gitagent/\n"@)]
        } else {
            Seq::empty()
        }) + seq![(2, "git add -A && git commit -m 'Initial commit' --allow-empty"@, Seq::empty())]
    } else {
        Seq::empty()
    }
}

pub open spec fn yaml_steps(st: RepoState, model: Option<Seq<char>>) -> Seq<(int, Seq<char>, Seq<char>)> {
    if !st.agent_yaml_exists {
        seq![
            (3, join_path(st.dir@, "agent.yaml"@), crate::session::spec_agent_yaml(repo_agent_name(st), repo_model(model))),
            (0, notice("Created agent.yaml (model: "@ + repo_model(model) + ")"@), Seq::empty()),
        ]
    } else {
        Seq::empty()
    }
}

pub open spec fn memory_steps(st: RepoState) -> Seq<(int, Seq<char>, Seq<char>)> {
    if !st.memory_exists {
        seq![
            (1, join_path(st.dir@, "memory"@), Seq::empty()),
            (3, join_path(join_path(st.dir@, "memory"@), "MEMORY.md"@), "# Memory\n"@),
        ]
    } else {
        Seq::empty()
    }
}

pub open spec fn soul_steps(st: RepoState) -> Seq<(int, Seq<char>, Seq<char>)> {
    if !st.soul_exists {
        seq![(3, join_path(st.dir@, "SOUL.md"@), default_soul())]
    } else {
        Seq::empty()
    }
}

/// The steps that prepare an agent directory, as (kind, text, content):
/// create it where missing; make it a git repository with a `.gitignore` and
/// an initial commit where it is none; scaffold `agent.yaml` (on the given
/// model, else `openai:gpt-4o-mini`), the memory file and `SOUL.md` where
/// missing; then commit the scaffold.
pub open spec fn spec_repo_steps(st: RepoState, model: Option<Seq<char>>) -> Seq<(int, Seq<char>, Seq<char>)> {
    dir_steps(st) + git_steps(st) + yaml_steps(st, model) + memory_steps(st) + soul_steps(st) + seq![
        (2, "git add -A && git diff --cached --quiet || git commit -m 'Scaffold gitclaw agent'"@, Seq::empty()),
    ]
}

pub open spec fn steps_are(steps: Seq<RepoStep>, spec: Seq<(int, Seq<char>, Seq<char>)>) -> bool {
    steps.len() == spec.len() && forall|i: int| 0 <= i < steps.len() ==> step_is(steps[i], spec[i].0, spec[i].1, spec[i].2)
}

fn push_step(steps: &mut Vec<RepoStep>, step: RepoStep, ghost_spec: Ghost<Seq<(int, Seq<char>, Seq<char>)>>, kind: Ghost<int>, a: Ghost<Seq<char>>, b: Ghost<Seq<char>>)
    requires
        steps_are(old(steps)@, ghost_spec@),
        step_is(step, kind@, a@, b@),
    ensures
        steps_are(final(steps)@, ghost_spec@.push((kind@, a@, b@))),
{
    steps.push(step);
    assert forall|i: int| 0 <= i < steps@.len() implies step_is(
        steps@[i],
        ghost_spec@.push((kind@, a@, b@))[i].0,
        ghost_spec@.push((kind@, a@, b@))[i].1,
        ghost_spec@.push((kind@, a@, b@))[i].2,
    ) by {
        if i < steps@.len() - 1 {
            assert(steps@[i] == old(steps)@[i]);
        }
    }
}

fn add_dir_steps(steps: &mut Vec<RepoStep>, st: &RepoState, sp: Ghost<Seq<(int, Seq<char>, Seq<char>)>>)
    requires
        steps_are(old(steps)@, sp@),
    ensures
        steps_are(final(steps)@, sp@ + dir_steps(*st)),
{
    let ghost mut cur = sp@;
    if !st.dir_exists {
        let n = dim("Creating directory: ".to_owned().concat(st.dir.as_str()).as_str());
        push_step(steps, RepoStep::Notice(n), Ghost(cur), Ghost(0int), Ghost(n@), Ghost(Seq::empty()));
        proof { cur = cur.push((0, n@, Seq::empty())); }
        push_step(steps, RepoStep::CreateDir(st.dir.clone()), Ghost(cur), Ghost(1int), Ghost(st.dir@), Ghost(Seq::empty()));
        proof { cur = cur.push((1, st.dir@, Seq::empty())); }
    }
    assert(cur =~= sp@ + dir_steps(*st));
}

fn add_git_steps(steps: &mut Vec<RepoStep>, st: &RepoState, sp: Ghost<Seq<(int, Seq<char>, Seq<char>)>>)
    requires
        steps_are(old(steps)@, sp@),
    ensures
        steps_are(final(steps)@, sp@ + git_steps(*st)),
{
    let ghost mut cur = sp@;
    if !st.is_git_repo {
        let n = dim("Initializing git repository...");
        push_step(steps, RepoStep::Notice(n), Ghost(cur), Ghost(0int), Ghost(n@), Ghost(Seq::empty()));
        proof { cur = cur.push((0, n@, Seq::empty())); }
        let c = "git init".to_owned();
        push_step(steps, RepoStep::Shell(c), Ghost(cur), Ghost(2int), Ghost("git init"@), Ghost(Seq::empty()));
        proof { cur = cur.push((2, "git init"@, Seq::empty())); }
        let ghost mid = cur;
        if !st.gitignore_exists {
            let p = join_path_str(st.dir.as_str(), ".gitignore");
            let content = "node_modules/\ndist/\n.gitagent/\n".to_owned();
            push_step(steps, RepoStep::WriteFile { path: p, content }, Ghost(cur), Ghost(3int), Ghost(p@), Ghost(content@));
            proof { cur = cur.push((3, p@, content@)); }
        }
        let c2 = "git add -A && git commit -m 'Initial commit' --allow-empty".to_owned();
        push_step(steps, RepoStep::Shell(c2), Ghost(cur), Ghost(2int), Ghost(c2@), Ghost(Seq::empty()));
        proof { cur = cur.push((2, c2@, Seq::empty())); }
    }
    assert(cur =~= sp@ + git_steps(*st));
}

fn add_yaml_steps(steps: &mut Vec<RepoStep>, st: &RepoState, model: Option<&str>, sp: Ghost<Seq<(int, Seq<char>, Seq<char>)>>)
    requires
        steps_are(old(steps)@, sp@),
    ensures
        steps_are(final(steps)@, sp@ + yaml_steps(*st, match model {
            Some(m) => Some(m@),
            None => None,
        })),
{
    let ghost mut cur = sp@;
    if !st.agent_yaml_exists {
        let m: &str = match model {
            Some(m) => m,
            None => "openai:gpt-4o-mini",
        };
        let name: &str = match &st.dir_name {
            Some(n) => n.as_str(),
            None => "my-agent",
        };
        let p = join_path_str(st.dir.as_str(), "agent.yaml");
        let y = crate::session::agent_yaml(name, m);
        push_step(steps, RepoStep::WriteFile { path: p, content: y }, Ghost(cur), Ghost(3int), Ghost(p@), Ghost(y@));
        proof { cur = cur.push((3, p@, y@)); }
        let n = dim("Created agent.yaml (model: ".to_owned().concat(m).concat(")").as_str());
        push_step(steps, RepoStep::Notice(n), Ghost(cur), Ghost(0int), Ghost(n@), Ghost(Seq::empty()));
        proof { cur = cur.push((0, n@, Seq::empty())); }
    }
    assert(cur =~= sp@ + yaml_steps(*st, match model {
        Some(m) => Some(m@),
        None => None,
    }));
}

fn add_memory_steps(steps: &mut Vec<RepoStep>, st: &RepoState, sp: Ghost<Seq<(int, Seq<char>, Seq<char>)>>)
    requires
        steps_are(old(steps)@, sp@),
    ensures
        steps_are(final(steps)@, sp@ + memory_steps(*st)),
{
    let ghost mut cur = sp@;
    if !st.memory_exists {
        let md = join_path_str(st.dir.as_str(), "memory");
        let mf = join_path_str(md.as_str(), "MEMORY.md");
        push_step(steps, RepoStep::CreateDir(md), Ghost(cur), Ghost(1int), Ghost(md@), Ghost(Seq::empty()));
        proof { cur = cur.push((1, md@, Seq::empty())); }
        let c = "# Memory\n".to_owned();
        push_step(steps, RepoStep::WriteFile { path: mf, content: c }, Ghost(cur), Ghost(3int), Ghost(mf@), Ghost(c@));
        proof { cur = cur.push((3, mf@, c@)); }
    }
    assert(cur =~= sp@ + memory_steps(*st));
}

fn add_soul_steps(steps: &mut Vec<RepoStep>, st: &RepoState, sp: Ghost<Seq<(int, Seq<char>, Seq<char>)>>)
    requires
        steps_are(old(steps)@, sp@),
    ensures
        steps_are(final(steps)@, sp@ + soul_steps(*st)),
{
    let ghost mut cur = sp@;
    if !st.soul_exists {
        let p = join_path_str(st.dir.as_str(), "SOUL.md");
        let c = "# Identity\n\nYou are a helpful AI agent. You live inside a git repository.\nYou can run commands, read and write files, and remember things.\nBe concise and action-oriented.\n".to_owned();
        push_step(steps, RepoStep::WriteFile { path: p, content: c }, Ghost(cur), Ghost(3int), Ghost(p@), Ghost(c@));
        proof { cur = cur.push((3, p@, c@)); }
    }
    assert(cur =~= sp@ + soul_steps(*st));
}

/// The steps that create a missing agent directory (none where it exists).
pub fn dir_setup_steps(st: &RepoState) -> (r: Vec<RepoStep>)
    ensures
        steps_are(r@, dir_steps(*st)),
{
    let mut steps: Vec<RepoStep> = Vec::new();
    let ghost s0: Seq<(int, Seq<char>, Seq<char>)> = Seq::empty();
    assert(steps_are(steps@, s0));
    add_dir_steps(&mut steps, st, Ghost(s0));
    assert(s0 + dir_steps(*st) =~= dir_steps(*st));
    steps
}

/// The steps that follow once the directory exists: the repository, the
/// scaffold files, and the commit of the scaffold.
pub fn scaffold_steps(st: &RepoState, model: Option<&str>) -> (r: Vec<RepoStep>)
    ensures
        steps_are(r@, spec_repo_steps(*st, match model {
            Some(m) => Some(m@),
            None => None,
        }).skip(dir_steps(*st).len() as int)),
{
    let ghost mspec: Option<Seq<char>> = match model {
        Some(m) => Some(m@),
        None => None,
    };
    let mut steps: Vec<RepoStep> = Vec::new();
    let ghost s0: Seq<(int, Seq<char>, Seq<char>)> = Seq::empty();
    assert(steps_are(steps@, s0));
    add_git_steps(&mut steps, st, Ghost(s0));
    let ghost s1 = s0 + git_steps(*st);
    add_yaml_steps(&mut steps, st, model, Ghost(s1));
    let ghost s2 = s1 + yaml_steps(*st, mspec);
    add_memory_steps(&mut steps, st, Ghost(s2));
    let ghost s3 = s2 + memory_steps(*st);
    add_soul_steps(&mut steps, st, Ghost(s3));
    let ghost s4 = s3 + soul_steps(*st);
    let c = "git add -A && git diff --cached --quiet || git commit -m 'Scaffold gitclaw agent'".to_owned();
    push_step(&mut steps, RepoStep::Shell(c), Ghost(s4), Ghost(2int), Ghost(c@), Ghost(Seq::empty()));
    assert(s4.push((2, c@, Seq::<char>::empty())) =~= spec_repo_steps(*st, mspec).skip(dir_steps(*st).len() as int));
    steps
}

/// The steps that prepare an agent directory.
pub fn ensure_repo_steps(st: &RepoState, model: Option<&str>) -> (r: Vec<RepoStep>)
    ensures
        steps_are(r@, spec_repo_steps(*st, match model {
            Some(m) => Some(m@),
            None => None,
        })),
{
    let ghost mspec: Option<Seq<char>> = match model {
        Some(m) => Some(m@),
        None => None,
    };
    let mut steps: Vec<RepoStep> = Vec::new();
    let ghost s0: Seq<(int, Seq<char>, Seq<char>)> = Seq::empty();
    assert(steps_are(steps@, s0));
    add_dir_steps(&mut steps, st, Ghost(s0));
    let ghost s1 = s0 + dir_steps(*st);
    add_git_steps(&mut steps, st, Ghost(s1));
    let ghost s2 = s1 + git_steps(*st);
    add_yaml_steps(&mut steps, st, model, Ghost(s2));
    let ghost s3 = s2 + yaml_steps(*st, mspec);
    add_memory_steps(&mut steps, st, Ghost(s3));
    let ghost s4 = s3 + memory_steps(*st);
    add_soul_steps(&mut steps, st, Ghost(s4));
    let ghost s5 = s4 + soul_steps(*st);
    let c = "git add -A && git diff --cached --quiet || git commit -m 'Scaffold gitclaw agent'".to_owned();
    push_step(&mut steps, RepoStep::Shell(c), Ghost(s5), Ghost(2int), Ghost(c@), Ghost(Seq::empty()));
    assert(s5.push((2, c@, Seq::<char>::empty())) =~= spec_repo_steps(*st, mspec));
    steps
}

/// A line the prompt loop reads, as a command.
pub enum ReplCommand {
    Empty,
    Quit,
    Memory,
    Skills,
    Skill(String),
    Prompt(String),
}

/// What a line asks for, once trimmed: nothing, to quit, to show the memory
/// or the skills, a skill command, or a prompt.
pub fn repl_command(line: &str) -> (r: ReplCommand)
    ensures
        ({
            let t = crate::text::trim_seq(line@);
            if t.len() == 0 {
                r is Empty
            } else if t == "/quit"@ || t == "/exit"@ {
                r is Quit
            } else if t == "/memory"@ {
                r is Memory
            } else if t == "/skills"@ {
                r is Skills
            } else if is_prefix("/skill:"@, t) {
                r matches ReplCommand::Skill(s) && s@ == t
            } else {
                r matches ReplCommand::Prompt(s) && s@ == t
            }
        }),
{
    let t = crate::text::trim(line);
    if t.as_str().is_empty() {
        ReplCommand::Empty
    } else if str_eq(t.as_str(), "/quit") || str_eq(t.as_str(), "/exit") {
        ReplCommand::Quit
    } else if str_eq(t.as_str(), "/memory") {
        ReplCommand::Memory
    } else if str_eq(t.as_str(), "/skills") {
        ReplCommand::Skills
    } else if crate::text::starts_with(t.as_str(), "/skill:") {
        ReplCommand::Skill(t)
    } else {
        ReplCommand::Prompt(t)
    }
}

/// The first word after `/skill:` (the name shown for an unknown skill), or
/// `?` where there is none.
pub open spec fn spec_requested_skill(t: Seq<char>) -> Seq<char> {
    let rest = t.skip("/skill:"@.len() as int);
    let s = crate::skills::ws_run_end(rest, 0);
    let e = word_end(rest, s);
    if e > s {
        rest.subrange(s, e)
    } else {
        "?"@
    }
}

/// The end of the run of non-whitespace from `i` on.
pub open spec fn word_end(s: Seq<char>, i: int) -> int
    decreases s.len() - i,
{
    if 0 <= i < s.len() && !is_ws(s[i]) {
        word_end(s, i + 1)
    } else {
        i
    }
}

pub fn requested_skill(t: &str) -> (r: String)
    requires
        is_prefix("/skill:"@, t@),
    ensures
        r@ == spec_requested_skill(t@),
{
    let cs = chars_of(t);
    let start = chars_of("/skill:").len();
    let ghost rest = t@.skip("/skill:"@.len() as int);
    let mut s: usize = start;
    proof {
        assert(crate::skills::ws_run_end(rest, 0) == crate::skills::ws_run_end(rest, (s - start) as int));
    }
    while s < cs.len() && is_whitespace(cs[s])
        invariant
            start <= s <= cs@.len(),
            cs@ == t@,
            start == "/skill:"@.len(),
            rest == t@.skip(start as int),
            crate::skills::ws_run_end(rest, 0) == crate::skills::ws_run_end(rest, (s - start) as int),
        decreases cs@.len() - s,
    {
        assert(rest[(s - start) as int] == cs@[s as int]);
        s = s + 1;
    }
    let mut e: usize = s;
    proof {
        assert(word_end(rest, (s - start) as int) == word_end(rest, (e - start) as int));
    }
    while e < cs.len() && !is_whitespace(cs[e])
        invariant
            s <= e <= cs@.len(),
            start <= s,
            cs@ == t@,
            rest == t@.skip(start as int),
            word_end(rest, (s - start) as int) == word_end(rest, (e - start) as int),
        decreases cs@.len() - e,
    {
        assert(rest[(e - start) as int] == cs@[e as int]);
        e = e + 1;
    }
    if e > s {
        let w = crate::frontmatter::substring(cs.as_slice(), s, e);
        assert(w@ =~= rest.subrange((s - start) as int, (e - start) as int));
        w
    } else {
        "?".to_owned()
    }
}

} // verus!
