//! Workflows: YAML or markdown definitions listed in the prompt.
use vstd::prelude::*;

use crate::data::DataValue;
use crate::frontmatter::spec_parse_frontmatter;
use crate::sorting::Named;
use crate::text::{join, join_seq, trim_end_matches, trim_end_matches_seq, views_of};

verus! {

#[derive(Clone)]
pub struct WorkflowMetadata {
    pub name: String,
    pub description: String,
    pub file_path: String,
    pub format: String,
}

impl Named for WorkflowMetadata {
    open spec fn name_view(&self) -> Seq<char> {
        self.name@
    }

    fn name_str(&self) -> (r: &str) {
        self.name.as_str()
    }
}

pub open spec fn workflow_is(w: WorkflowMetadata, name: Seq<char>, description: Seq<char>, file_path: Seq<char>, format: Seq<char>) -> bool {
    w.name@ == name && w.description@ == description && w.file_path@ == file_path && w.format@ == format
}

/// A YAML workflow: the document must give a name and a description.
pub fn workflow_from_yaml(file_name: &str, data: &DataValue) -> (r: Option<WorkflowMetadata>)
    ensures
        match (data@.get_str("name"@), data@.get_str("description"@)) {
            (Some(n), Some(d)) => r matches Some(w) && workflow_is(w, n, d, "workflows/"@ + file_name@, "yaml"@),
            _ => r is None,
        },
{
    let name = match data.get_str("name") {
        Some(n) => n,
        None => return None,
    };
    let description = match data.get_str("description") {
        Some(d) => d,
        None => return None,
    };
    Some(
        WorkflowMetadata {
            name,
            description,
            file_path: "workflows/".to_owned().concat(file_name),
            format: "yaml".to_owned(),
        },
    )
}

/// A markdown workflow: the front matter must give a description; the name is
/// the front matter's, else the file name without its `.md` endings.
pub fn workflow_from_markdown(file_name: &str, content: &str) -> (r: Option<WorkflowMetadata>)
    ensures
        ({
            let fm = spec_parse_frontmatter(content@).0;
            match fm.get_str("description"@) {
                Some(d) => r matches Some(w) && workflow_is(
                    w,
                    match fm.get_str("name"@) {
                        Some(n) => n,
                        None => trim_end_matches_seq(file_name@, ".md"@),
                    },
                    d,
                    "workflows/"@ + file_name@,
                    "markdown"@,
                ),
                None => r is None,
            }
        }),
{
    let (fm, _body) = crate::frontmatter::parse_frontmatter(content);
    let name = match fm.get_str("name") {
        Some(n) => n,
        None => trim_end_matches(file_name, ".md"),
    };
    let description = match fm.get_str("description") {
        Some(d) => d,
        None => return None,
    };
    Some(
        WorkflowMetadata {
            name,
            description,
            file_path: "workflows/".to_owned().concat(file_name),
            format: "markdown".to_owned(),
        },
    )
}

pub open spec fn workflow_entry(w: WorkflowMetadata) -> Seq<char> {
    "<workflow>\n<name>"@ + w.name@ + "</name>\n<description>"@ + w.description@ + "</description>\n<path>"@
        + w.file_path@ + "</path>\n</workflow>"@
}

pub open spec fn workflow_entries(s: Seq<WorkflowMetadata>) -> Seq<Seq<char>> {
    s.map_values(|w: WorkflowMetadata| workflow_entry(w))
}

/// The prompt section listing workflows; empty where there are none.
pub open spec fn spec_workflows_prompt(s: Seq<WorkflowMetadata>) -> Seq<char> {
    if s.len() == 0 {
        Seq::empty()
    } else {
        "# Workflows\n\n<available_workflows>\n"@ + join_seq(workflow_entries(s), "\n"@)
            + "\n</available_workflows>\n\nUse the `read` tool to load a workflow's full definition when you need to follow it."@
    }
}

pub fn format_workflows_for_prompt(workflows: &[WorkflowMetadata]) -> (r: String)
    ensures
        r@ == spec_workflows_prompt(workflows@),
{
    if workflows.len() == 0 {
        return String::new();
    }
    let mut entries: Vec<String> = Vec::new();
    let mut i: usize = 0;
    while i < workflows.len()
        invariant
            i <= workflows@.len(),
            views_of(entries@) == workflow_entries(workflows@.take(i as int)),
        decreases workflows@.len() - i,
    {
        let w = &workflows[i];
        let e = "<workflow>\n<name>".to_owned().concat(w.name.as_str()).concat("</name>\n<description>").concat(
            w.description.as_str(),
        ).concat("</description>\n<path>").concat(w.file_path.as_str()).concat("</path>\n</workflow>");
        let ghost prev = entries@;
        entries.push(e);
        proof {
            assert(workflows@.take(i + 1) == workflows@.take(i as int).push(workflows@[i as int]));
            assert(views_of(entries@) =~= views_of(prev).push(e@));
            assert(workflow_entries(workflows@.take(i + 1)) =~= workflow_entries(workflows@.take(i as int)).push(
                workflow_entry(workflows@[i as int]),
            ));
        }
        i = i + 1;
    }
    assert(workflows@.take(workflows@.len() as int) == workflows@);
    let body = join(&entries, "\n");
    "# Workflows\n\n<available_workflows>\n".to_owned().concat(body.as_str()).concat(
        "\n</available_workflows>\n\nUse the `read` tool to load a workflow's full definition when you need to follow it.",
    )
}

} // verus!
