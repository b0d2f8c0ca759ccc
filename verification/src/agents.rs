//! Sub-agents: reading their descriptions and listing them in the prompt.
use vstd::prelude::*;

use crate::data::{Data, DataValue};
use crate::frontmatter::spec_parse_frontmatter;
use crate::sorting::Named;
use crate::text::{join, join_seq, trim_end_matches, trim_end_matches_seq, views_of};

verus! {

#[derive(Clone)]
pub struct SubAgentMetadata {
    pub name: String,
    pub description: String,
    pub agent_type: String,
    pub path: String,
}

impl Named for SubAgentMetadata {
    open spec fn name_view(&self) -> Seq<char> {
        self.name@
    }

    fn name_str(&self) -> (r: &str) {
        self.name.as_str()
    }
}

/// Whether a description holds the given texts.
pub open spec fn agent_is(a: SubAgentMetadata, name: Seq<char>, description: Seq<char>, agent_type: Seq<char>, path: Seq<char>) -> bool {
    a.name@ == name && a.description@ == description && a.agent_type@ == agent_type && a.path@ == path
}

/// A sub-agent kept in a directory: its `agent.yaml` must give a name and a
/// description, as strings.
pub fn sub_agent_from_yaml(file_name: &str, data: &DataValue) -> (r: Option<SubAgentMetadata>)
    ensures
        match (data@.get_str("name"@), data@.get_str("description"@)) {
            (Some(n), Some(d)) => r matches Some(a) && agent_is(
                a,
                n,
                d,
                "directory"@,
                "agents/"@ + file_name@,
            ),
            _ => r is None,
        },
{
    let name = match data.get_str("name") {
        Some(n) => n,
        None => return None,
    };
    let description = match data.get_str("description") {
        Some(d) => d,
        None => return None,
    };
    Some(
        SubAgentMetadata {
            name,
            description,
            agent_type: "directory".to_owned(),
            path: "agents/".to_owned().concat(file_name),
        },
    )
}

/// A sub-agent kept in a markdown file: its front matter must give a
/// description; the name is the front matter's, else the file name without
/// its `.md` endings.
pub fn sub_agent_from_markdown(file_name: &str, content: &str) -> (r: Option<SubAgentMetadata>)
    ensures
        ({
            let fm = spec_parse_frontmatter(content@).0;
            match fm.get_str("description"@) {
                Some(d) => r matches Some(a) && agent_is(
                    a,
                    match fm.get_str("name"@) {
                        Some(n) => n,
                        None => trim_end_matches_seq(file_name@, ".md"@),
                    },
                    d,
                    "file"@,
                    "agents/"@ + file_name@,
                ),
                None => r is None,
            }
        }),
{
    let (fm, _body) = crate::frontmatter::parse_frontmatter(content);
    let name = match fm.get_str("name") {
        Some(n) => n,
        None => trim_end_matches(file_name, ".md"),
    };
    let description = match fm.get_str("description") {
        Some(d) => d,
        None => return None,
    };
    Some(
        SubAgentMetadata {
            name,
            description,
            agent_type: "file".to_owned(),
            path: "agents/".to_owned().concat(file_name),
        },
    )
}

/// The prompt entry of one sub-agent.
pub open spec fn agent_entry(a: SubAgentMetadata) -> Seq<char> {
    "<agent>\n<name>"@ + a.name@ + "</name>\n<description>"@ + a.description@ + "</description>\n<type>"@
        + a.agent_type@ + "</type>\n<path>"@ + a.path@ + "</path>\n</agent>"@
}

pub open spec fn agent_entries(s: Seq<SubAgentMetadata>) -> Seq<Seq<char>> {
    s.map_values(|a: SubAgentMetadata| agent_entry(a))
}

/// The prompt section listing sub-agents; empty where there are none.
pub open spec fn spec_sub_agents_prompt(s: Seq<SubAgentMetadata>) -> Seq<char> {
    if s.len() == 0 {
        Seq::empty()
    } else {
        "# Sub-Agents\n\n<available_agents>\n"@ + join_seq(agent_entries(s), "\n"@)
            + "\n</available_agents>\n\nTo delegate to a sub-agent, use the `cli` tool to run: `gitclaw --dir {agent_path} -p \"task description\"`\nFor file-based agents, use the `read` tool to load their instructions."@
    }
}

pub fn format_sub_agents_for_prompt(agents: &[SubAgentMetadata]) -> (r: String)
    ensures
        r@ == spec_sub_agents_prompt(agents@),
{
    if agents.len() == 0 {
        return String::new();
    }
    let mut entries: Vec<String> = Vec::new();
    let mut i: usize = 0;
    while i < agents.len()
        invariant
            i <= agents@.len(),
            views_of(entries@) == agent_entries(agents@.take(i as int)),
        decreases agents@.len() - i,
    {
        let a = &agents[i];
        let e = "<agent>\n<name>".to_owned().concat(a.name.as_str()).concat("</name>\n<description>").concat(
            a.description.as_str(),
        ).concat("</description>\n<type>").concat(a.agent_type.as_str()).concat("</type>\n<path>").concat(
            a.path.as_str(),
        ).concat("</path>\n</agent>");
        let ghost prev = entries@;
        entries.push(e);
        proof {
            assert(agents@.take(i + 1) == agents@.take(i as int).push(agents@[i as int]));
            assert(views_of(entries@) =~= views_of(prev).push(e@));
            assert(agent_entries(agents@.take(i + 1)) =~= agent_entries(agents@.take(i as int)).push(
                agent_entry(agents@[i as int]),
            ));
        }
        i = i + 1;
    }
    assert(agents@.take(agents@.len() as int) == agents@);
    let body = join(&entries, "\n");
    "# Sub-Agents\n\n<available_agents>\n".to_owned().concat(body.as_str()).concat(
        "\n</available_agents>\n\nTo delegate to a sub-agent, use the `cli` tool to run: `gitclaw --dir {agent_path} -p \"task description\"`\nFor file-based agents, use the `read` tool to load their instructions.",
    )
}

} // verus!
