//! Loading an agent: its manifest, the system prompt built from its files and
//! modules, and the model it runs on.
use vstd::prelude::*;

use crate::agents::{format_sub_agents_for_prompt, spec_sub_agents_prompt, SubAgentMetadata};
use crate::data::DataValue;
use crate::examples::{format_examples_for_prompt, spec_examples_prompt, ExampleEntry};
use crate::knowledge::{format_knowledge_for_prompt, spec_knowledge_prompt, LoadedKnowledge};
use crate::ai_types::Model;
use crate::models::{builtin_model, get_model};
use crate::skills::{format_skills_for_prompt, spec_skills_prompt, SkillMetadata};
use crate::text::{chars_of, contains, contains_seq, join, join_seq, str_eq, trim_end_chars, trim_end_seq, views_of};
use crate::workflows::{format_workflows_for_prompt, spec_workflows_prompt, WorkflowMetadata};

verus! {

#[derive(Clone)]
pub struct ManifestModel {
    pub preferred: String,
    pub fallback: Vec<String>,
    pub constraints: Option<DataValue>,
}

#[derive(Clone)]
pub struct ManifestRuntime {
    pub max_turns: u32,
    pub timeout: Option<u64>,
}

#[derive(Clone)]
pub struct ManifestDependency {
    pub name: String,
    pub source: String,
    pub version: String,
    pub mount: String,
}

/// An agent's `agent.yaml`.
#[derive(Clone)]
pub struct AgentManifest {
    pub spec_version: String,
    pub name: String,
    pub version: String,
    pub description: String,
    pub author: Option<String>,
    pub license: Option<String>,
    pub tags: Option<Vec<String>>,
    pub metadata: Option<DataValue>,
    pub model: ManifestModel,
    pub tools: Vec<String>,
    pub skills: Option<Vec<String>>,
    pub runtime: ManifestRuntime,
    pub extends_from: Option<String>,
    pub dependencies: Option<Vec<ManifestDependency>>,
    pub agents: Option<DataValue>,
    pub delegation: Option<DataValue>,
    pub compliance: Option<DataValue>,
}

/// The index of the first `:` in a text.
pub open spec fn first_colon(s: Seq<char>) -> Option<int> {
    if exists|i: int| 0 <= i < s.len() && s[i] == ':' {
        Some(choose|i: int| 0 <= i < s.len() && s[i] == ':' && forall|j: int| 0 <= j < i ==> s[j] != ':')
    } else {
        None
    }
}

/// `provider:model`, split at the first colon.
pub open spec fn spec_parse_model_string(s: Seq<char>) -> Result<(Seq<char>, Seq<char>), Seq<char>> {
    match first_colon(s) {
        Some(i) => Ok((s.subrange(0, i), s.skip(i + 1))),
        None => Err(
            "Invalid model format: \""@ + s
                + "\". Expected \"provider:model\" (e.g., \"anthropic:sonnet-4-5-20250929\")"@,
        ),
    }
}

pub open spec fn pair_result_view(r: Result<(String, String), String>) -> Result<(Seq<char>, Seq<char>), Seq<char>> {
    match r {
        Ok((a, b)) => Ok((a@, b@)),
        Err(e) => Err(e@),
    }
}

/// Splits `provider:model` at the first colon.
pub fn parse_model_string(model_str: &str) -> (r: Result<(String, String), String>)
    ensures
        pair_result_view(r) == spec_parse_model_string(model_str@),
{
    let cs = chars_of(model_str);
    let mut i: usize = 0;
    while i < cs.len()
        invariant
            i <= cs@.len(),
            cs@ == model_str@,
            forall|j: int| 0 <= j < i ==> cs@[j] != ':',
        decreases cs@.len() - i,
    {
        if cs[i] == ':' {
            proof {
                let s = model_str@;
                let c = choose|k: int| 0 <= k < s.len() && s[k] == ':' && forall|j: int| 0 <= j < k ==> s[j] != ':';
                assert(0 <= i < s.len() && s[i as int] == ':' && forall|j: int| 0 <= j < i ==> s[j] != ':');
                if c < i {
                } else if c > i {
                }
            }
            let provider = crate::frontmatter::substring(cs.as_slice(), 0, i);
            let model = crate::frontmatter::substring(cs.as_slice(), i + 1, cs.len());
            assert(model@ =~= model_str@.skip(i + 1));
            return Ok((provider, model));
        }
        i = i + 1;
    }
    Err(
        "Invalid model format: \"".to_owned().concat(model_str).concat(
            "\". Expected \"provider:model\" (e.g., \"anthropic:sonnet-4-5-20250929\")",
        ),
    )
}

/// The message when no model is configured.
pub open spec fn no_model_message() -> Seq<char> {
    "No model configured. Either:\n  - Set model.preferred in agent.yaml (e.g., \"anthropic:sonnet-4-5-20250929\")\n  - Pass --model provider:model on the command line"@
}

/// The model to run: the environment's override, else the one asked for, else
/// the manifest's preferred model; an empty choice is an error, else it is
/// split into provider and model id.
pub open spec fn spec_resolve_model_string(
    model_override: Option<Seq<char>>,
    model_flag: Option<Seq<char>>,
    preferred: Seq<char>,
) -> Result<(Seq<char>, Seq<char>), Seq<char>> {
    let chosen = match model_override {
        Some(m) => m,
        None => match model_flag {
            Some(f) => f,
            None => preferred,
        },
    };
    if chosen.len() == 0 {
        Err(no_model_message())
    } else {
        spec_parse_model_string(chosen)
    }
}

pub fn resolve_model_string(model_override: &Option<String>, model_flag: Option<&str>, preferred: &str) -> (r: Result<
    (String, String),
    String,
>)
    ensures
        pair_result_view(r) == spec_resolve_model_string(
            crate::ai_types::opt_str(*model_override),
            match model_flag {
                Some(f) => Some(f@),
                None => None,
            },
            preferred@,
        ),
{
    let chosen: &str = match model_override {
        Some(m) => m.as_str(),
        None => match model_flag {
            Some(f) => f,
            None => preferred,
        },
    };
    if chosen.is_empty() {
        return Err(
            "No model configured. Either:\n  - Set model.preferred in agent.yaml (e.g., \"anthropic:sonnet-4-5-20250929\")\n  - Pass --model provider:model on the command line".to_owned(),
        );
    }
    parse_model_string(chosen)
}

/// The model an agent runs on: the model string chosen as
/// `resolve_model_string` says, looked up in the built-in registry.
pub fn resolve_model(model_override: &Option<String>, model_flag: Option<&str>, preferred: &str) -> (r: Result<
    Model,
    String,
>)
    ensures
        match spec_resolve_model_string(
            crate::ai_types::opt_str(*model_override),
            match model_flag {
                Some(f) => Some(f@),
                None => None,
            },
            preferred@,
        ) {
            Err(e) => r matches Err(m) && m@ == e,
            Ok((p, id)) => match builtin_model(p, id) {
                Some(mv) => r matches Ok(m) && m@ == mv,
                None => r matches Err(m) && m@ == "Model not found: "@ + p + ":"@ + id,
            },
        },
{
    let (provider, model_id) = match resolve_model_string(model_override, model_flag, preferred) {
        Ok(pair) => pair,
        Err(e) => return Err(e),
    };
    match get_model(provider.as_str(), model_id.as_str()) {
        Some(m) => Ok(m),
        None => Err(model_not_found_message(provider.as_str(), model_id.as_str())),
    }
}

/// The message for a model the registry lacks.
pub fn model_not_found_message(provider: &str, model_id: &str) -> (r: String)
    ensures
        r@ == "Model not found: "@ + provider@ + ":"@ + model_id@,
{
    "Model not found: ".to_owned().concat(provider).concat(":").concat(model_id)
}

/// The agent's identity files, each empty where missing.
pub struct IdentityFiles {
    pub soul: String,
    pub rules: String,
    pub duties: String,
    pub agents_md: String,
}

/// The memory section of the prompt.
pub open spec fn memory_section() -> Seq<char> {
    "# Memory\n\nYou have a memory file at memory/MEMORY.md. Use the `memory` tool to load and save memories. Each save creates a git commit, so your memory has full history. You can also use the `cli` tool to run git commands for deeper memory inspection (git log, git diff, git show)."@
}

pub open spec fn if_nonempty(s: Seq<char>) -> Seq<Seq<char>> {
    if s.len() > 0 {
        seq![s]
    } else {
        Seq::empty()
    }
}

/// The system prompt: the agent's title line and description; its identity
/// files; the memory section; then the knowledge, skills, workflows,
/// sub-agents, examples and compliance sections, each where it is not empty;
/// all separated by blank lines.
pub open spec fn spec_system_prompt(
    name: Seq<char>,
    version: Seq<char>,
    description: Seq<char>,
    identity: IdentityFiles,
    knowledge: LoadedKnowledge,
    skills: Seq<SkillMetadata>,
    workflows: Seq<WorkflowMetadata>,
    sub_agents: Seq<SubAgentMetadata>,
    examples: Seq<ExampleEntry>,
    compliance_context: Seq<char>,
) -> Seq<char> {
    join_seq(
        seq!["# "@ + name + " v"@ + version + "\n"@ + description] + if_nonempty(identity.soul@) + if_nonempty(
            identity.rules@,
        ) + if_nonempty(identity.duties@) + if_nonempty(identity.agents_md@) + seq![memory_section()]
            + if_nonempty(spec_knowledge_prompt(knowledge)) + if_nonempty(spec_skills_prompt(skills))
            + if_nonempty(spec_workflows_prompt(workflows)) + if_nonempty(spec_sub_agents_prompt(sub_agents))
            + if_nonempty(spec_examples_prompt(examples)) + if_nonempty(compliance_context),
        "\n\n"@,
    )
}

fn push_nonempty(parts: &mut Vec<String>, s: String)
    ensures
        views_of(final(parts)@) == views_of(old(parts)@) + if_nonempty(s@),
{
    let ghost prev = parts@;
    if s.as_str().is_empty() {
        assert(views_of(parts@) =~= views_of(prev) + Seq::<Seq<char>>::empty());
    } else {
        parts.push(s);
        assert(views_of(parts@) =~= views_of(prev) + seq![parts@.last()@]);
    }
}

/// Builds the system prompt of an agent.
pub fn build_system_prompt(
    manifest: &AgentManifest,
    identity: &IdentityFiles,
    knowledge: &LoadedKnowledge,
    skills: &[SkillMetadata],
    workflows: &[WorkflowMetadata],
    sub_agents: &[SubAgentMetadata],
    examples: &[ExampleEntry],
    compliance_context: &str,
) -> (r: String)
    ensures
        r@ == spec_system_prompt(
            manifest.name@,
            manifest.version@,
            manifest.description@,
            *identity,
            *knowledge,
            skills@,
            workflows@,
            sub_agents@,
            examples@,
            compliance_context@,
        ),
{
    let mut parts: Vec<String> = Vec::new();
    let head = "# ".to_owned().concat(manifest.name.as_str()).concat(" v").concat(manifest.version.as_str()).concat(
        "\n",
    ).concat(manifest.description.as_str());
    parts.push(head);
    assert(views_of(parts@) =~= seq![head@]);
    push_nonempty(&mut parts, identity.soul.clone());
    push_nonempty(&mut parts, identity.rules.clone());
    push_nonempty(&mut parts, identity.duties.clone());
    push_nonempty(&mut parts, identity.agents_md.clone());
    let ghost before_memory = views_of(parts@);
    let memory = "# Memory\n\nYou have a memory file at memory/MEMORY.md. Use the `memory` tool to load and save memories. Each save creates a git commit, so your memory has full history. You can also use the `cli` tool to run git commands for deeper memory inspection (git log, git diff, git show).".to_owned();
    parts.push(memory);
    assert(views_of(parts@) =~= before_memory + seq![memory_section()]);
    push_nonempty(&mut parts, format_knowledge_for_prompt(knowledge));
    push_nonempty(&mut parts, format_skills_for_prompt(skills));
    push_nonempty(&mut parts, format_workflows_for_prompt(workflows));
    push_nonempty(&mut parts, format_sub_agents_for_prompt(sub_agents));
    push_nonempty(&mut parts, format_examples_for_prompt(examples));
    push_nonempty(&mut parts, compliance_context.to_owned());
    join(&parts, "\n\n")
}

/// The skills the manifest allows, in order; all of them where it names none.
pub fn filter_skills(skills: Vec<SkillMetadata>, allowed: &Option<Vec<String>>) -> (r: Vec<SkillMetadata>)
    ensures
        allowed is None ==> r@ == skills@,
        allowed matches Some(a) ==> r@ == skills@.filter(
            |s: SkillMetadata| views_of(a@).contains(s.name@),
        ),
{
    match allowed {
        None => skills,
        Some(a) => {
            let ghost all = skills@;
            let ghost pred = |s: SkillMetadata| views_of(a@).contains(s.name@);
            let total: usize = skills.len();
            let mut rest = skills;
            let mut out: Vec<SkillMetadata> = Vec::new();
            let mut k: usize = 0;
            while rest.len() > 0
                invariant
                    k <= total,
                    all.len() == total,
                    rest@.len() == total - k,
                    rest@ == all.skip(k as int),
                    out@ == all.take(k as int).filter(pred),
                    pred == (|s: SkillMetadata| views_of(a@).contains(s.name@)),
                decreases rest@.len(),
            {
                let ghost before_rest = rest@;
                let s = rest.remove(0);
                proof {
                    assert(rest@ =~= all.skip(k + 1));
                    assert(all.take(k + 1) == all.take(k as int).push(s));
                    assert(all.take(k + 1).drop_last() == all.take(k as int));
                }
                let mut keep = false;
                let mut j: usize = 0;
                while j < a.len()
                    invariant
                        j <= a@.len(),
                        keep == exists|m: int| 0 <= m < j && a@[m]@ == s.name@,
                    decreases a@.len() - j,
                {
                    if str_eq(a[j].as_str(), s.name.as_str()) {
                        keep = true;
                    }
                    j = j + 1;
                }
                proof {
                    if keep {
                        let m = choose|m: int| 0 <= m < a@.len() && a@[m]@ == s.name@;
                        assert(views_of(a@)[m] == s.name@);
                    } else {
                        assert forall|m: int| 0 <= m < views_of(a@).len() implies views_of(a@)[m] != s.name@ by {
                            assert(views_of(a@)[m] == a@[m]@);
                        }
                    }
                    assert(pred(s) == keep);
                    all.take(k as int).lemma_filter_push(s, pred);
                }
                if keep {
                    out.push(s);
                }
                k = k + 1;
            }
            assert(all.take(k as int) == all);
            out
        },
    }
}

/// The `.gitignore` after making sure it ignores `.gitagent`: unchanged (no
/// write) where it mentions `.gitagent`, else with the entry appended after
/// its trailing whitespace is trimmed.
pub fn gitignore_update(existing: &str) -> (r: Option<String>)
    ensures
        contains_seq(existing@, ".gitagent"@) ==> r is None,
        !contains_seq(existing@, ".gitagent"@) ==> (r matches Some(s) && s@ == trim_end_seq(existing@)
            + "\n.gitagent/\n"@),
{
    if contains(existing, ".gitagent") {
        return None;
    }
    let cs = chars_of(existing);
    let trimmed = trim_end_chars(cs.as_slice());
    let t = crate::text::string_of_chars(trimmed.as_slice());
    Some(t.concat("\n.gitagent/\n"))
}

/// The session state written when an agent loads.
pub fn session_state(session_id: &str, started_at: &str) -> (r: DataValue)
    ensures
        r@ == crate::data::Data::Object(
            seq![
                ("session_id"@, crate::data::Data::Str(session_id@)),
                ("started_at"@, crate::data::Data::Str(started_at@)),
            ],
        ),
{
    DataValue::obj2("session_id", DataValue::text(session_id), "started_at", DataValue::text(started_at))
}

/// A timestamp as whole seconds since the epoch, with a suffix.
pub fn seconds_text(secs: u64, suffix: &str) -> (r: String)
    ensures
        r@ == crate::text::decimal(secs as nat) + suffix@,
{
    crate::text::decimal_string(secs).concat(suffix)
}

} // verus!
