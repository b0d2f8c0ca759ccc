use gitclaw::agents::{format_sub_agents_for_prompt, sub_agent_from_markdown, sub_agent_from_yaml, SubAgentMetadata};
use gitclaw::data::DataValue;
use gitclaw::examples::{example_from_file, format_examples_for_prompt, ExampleEntry};
use gitclaw::frontmatter::{parse_frontmatter, split_frontmatter};
use gitclaw::knowledge::{
    format_knowledge_for_prompt, knowledge_entry_from_data, knowledge_index_from_data, preloaded_doc,
    split_knowledge, KnowledgeEntry, LoadedKnowledge,
};
use gitclaw::skills::{
    expand_skill, find_skill, format_skills_for_prompt, kebab_case, parse_skill, parse_skill_command,
    skill_from_file, SkillMetadata,
};
use gitclaw::sorting::{sort_by_name, str_lt};
use gitclaw::workflows::{format_workflows_for_prompt, workflow_from_markdown, workflow_from_yaml, WorkflowMetadata};

fn skill(name: &str) -> SkillMetadata {
    SkillMetadata {
        name: name.to_string(),
        description: format!("does {name}"),
        directory: format!("/a/skills/{name}"),
        file_path: format!("/a/skills/{name}/SKILL.md"),
    }
}

#[test]
fn front_matter_is_split_at_the_first_fence() {
    let (y, b) = split_frontmatter("---\nname: a\n---\nbody\n---\nmore").unwrap();
    assert_eq!(y, "name: a");
    assert_eq!(b, "body\n---\nmore");
    let (y, b) = split_frontmatter("---\r\nk: v\r\n---\r\nrest").unwrap();
    assert_eq!(y, "k: v");
    assert_eq!(b, "rest");
    assert!(split_frontmatter("no fence").is_none());
    assert!(split_frontmatter("---\nunterminated").is_none());
    assert!(split_frontmatter("---\n---\nx").is_none());
    let (y, b) = split_frontmatter("---\n\n---").unwrap();
    assert_eq!(y, "");
    assert_eq!(b, "");
}

#[test]
fn front_matter_is_read_as_yaml() {
    let (fm, body) = parse_frontmatter("---\nname: demo\ndescription: d\n---\nHello");
    assert_eq!(fm.get_str("name"), Some("demo".to_string()));
    assert_eq!(body, "Hello");
    let (fm, body) = parse_frontmatter("plain text");
    assert!(matches!(fm, DataValue::Null));
    assert_eq!(body, "plain text");
    let (fm, _) = parse_frontmatter("---\n: : [\n---\nx");
    assert!(matches!(fm, DataValue::Null));
}

#[test]
fn kebab_case_names() {
    assert!(kebab_case("deploy-app"));
    assert!(kebab_case("a1"));
    assert!(!kebab_case(""));
    assert!(!kebab_case("Deploy"));
    assert!(!kebab_case("-a"));
    assert!(!kebab_case("a-"));
    assert!(!kebab_case("a--b"));
    assert!(!kebab_case("a_b"));
}

#[test]
fn skills_read_from_their_files() {
    let doc = "---\nname: deploy\ndescription: Ship it\n---\n  Steps here  \n";
    let s = skill_from_file("deploy", "/a/skills/deploy", "/a/skills/deploy/SKILL.md", doc).unwrap();
    assert_eq!(s.name, "deploy");
    assert_eq!(s.description, "Ship it");
    assert_eq!(s.directory, "/a/skills/deploy");
    assert!(skill_from_file("other", "d", "f", doc).is_none());
    assert!(skill_from_file("Deploy", "d", "f", "---\nname: Deploy\ndescription: x\n---\n").is_none());
    assert!(skill_from_file("deploy", "d", "f", "---\nname: deploy\n---\n").is_none());
    let parsed = parse_skill(s, doc, true, false);
    assert_eq!(parsed.instructions, "Steps here");
    assert!(parsed.has_scripts);
    assert!(!parsed.has_references);
}

#[test]
fn skills_prompt_section() {
    assert_eq!(format_skills_for_prompt(&[]), "");
    let p = format_skills_for_prompt(&[skill("a")]);
    assert!(p.starts_with(
        "# Skills\n\n<available_skills>\n<skill>\n<name>a</name>\n<description>does a</description>\n</skill>\n</available_skills>\n\nWhen a task matches a skill"
    ));
    assert!(p.ends_with("Use the `cli` tool to execute them."));
}

#[test]
fn skill_commands() {
    assert_eq!(
        parse_skill_command("/skill:deploy  now please "),
        Some(("deploy".to_string(), "now please".to_string()))
    );
    assert_eq!(parse_skill_command("/skill:deploy"), Some(("deploy".to_string(), String::new())));
    assert_eq!(parse_skill_command("/skill:"), None);
    assert_eq!(parse_skill_command("/skill:Deploy"), None);
    assert_eq!(parse_skill_command("hello"), None);
    assert_eq!(parse_skill_command("/skill:a-b\nline2"), Some(("a-b".to_string(), "line2".to_string())));
    let skills = vec![skill("a"), skill("b"), skill("b")];
    assert_eq!(find_skill(&skills, "b"), Some(1));
    assert_eq!(find_skill(&skills, "c"), None);
    assert_eq!(
        expand_skill("a", "/d", "Do it", "x y"),
        "<skill name=\"a\" baseDir=\"/d\">\nDo it\n</skill>\n\nx y"
    );
    assert_eq!(expand_skill("a", "/d", "Do it", ""), "<skill name=\"a\" baseDir=\"/d\">\nDo it\n</skill>");
}

#[test]
fn sub_agents() {
    let y = DataValue::obj2("name", DataValue::text("helper"), "description", DataValue::text("helps"));
    let a = sub_agent_from_yaml("helper", &y).unwrap();
    assert_eq!(a.agent_type, "directory");
    assert_eq!(a.path, "agents/helper");
    assert!(sub_agent_from_yaml("x", &DataValue::obj1("name", DataValue::text("n"))).is_none());
    let m = sub_agent_from_markdown("writer.md", "---\ndescription: writes\n---\nbody").unwrap();
    assert_eq!(m.name, "writer");
    assert_eq!(m.agent_type, "file");
    assert_eq!(m.path, "agents/writer.md");
    let named = sub_agent_from_markdown("w.md", "---\nname: poet\ndescription: d\n---").unwrap();
    assert_eq!(named.name, "poet");
    assert!(sub_agent_from_markdown("w.md", "no front matter").is_none());
    let p = format_sub_agents_for_prompt(&[a]);
    assert_eq!(
        p,
        "# Sub-Agents\n\n<available_agents>\n<agent>\n<name>helper</name>\n<description>helps</description>\n<type>directory</type>\n<path>agents/helper</path>\n</agent>\n</available_agents>\n\nTo delegate to a sub-agent, use the `cli` tool to run: `gitclaw --dir {agent_path} -p \"task description\"`\nFor file-based agents, use the `read` tool to load their instructions."
    );
    assert_eq!(format_sub_agents_for_prompt(&[]), "");
}

#[test]
fn workflows() {
    let y = DataValue::obj2("name", DataValue::text("release"), "description", DataValue::text("cut a release"));
    let w = workflow_from_yaml("release.yaml", &y).unwrap();
    assert_eq!(w.file_path, "workflows/release.yaml");
    assert_eq!(w.format, "yaml");
    let m = workflow_from_markdown("triage.md", "---\ndescription: sort issues\n---\nsteps").unwrap();
    assert_eq!(m.name, "triage");
    assert_eq!(m.format, "markdown");
    assert!(workflow_from_markdown("t.md", "---\nname: t\n---\n").is_none());
    let p = format_workflows_for_prompt(&[w]);
    assert!(p.starts_with("# Workflows\n\n<available_workflows>\n"));
    assert!(p.ends_with("Use the `read` tool to load a workflow's full definition when you need to follow it."));
    assert_eq!(format_workflows_for_prompt(&[]), "");
}

#[test]
fn examples() {
    let e = example_from_file("greeting.md", "  Hi there \n").unwrap();
    assert_eq!(e.name, "greeting");
    assert_eq!(e.content, "Hi there");
    assert!(example_from_file("notes.txt", "x").is_none());
    let p = format_examples_for_prompt(&[
        e,
        ExampleEntry { name: "b".to_string(), content: "B".to_string() },
    ]);
    assert_eq!(
        p,
        "# Examples\n\n<examples>\n<example name=\"greeting\">\nHi there\n</example>\n\n<example name=\"b\">\nB\n</example>\n</examples>"
    );
    assert_eq!(format_examples_for_prompt(&[]), "");
}

fn entry(path: &str, always: bool, tags: &[&str]) -> KnowledgeEntry {
    KnowledgeEntry {
        path: path.to_string(),
        tags: tags.iter().map(|t| t.to_string()).collect(),
        priority: "high".to_string(),
        always_load: always,
    }
}

#[test]
fn knowledge_index_entries() {
    let e = knowledge_entry_from_data(&DataValue::obj1("path", DataValue::text("a.md"))).unwrap();
    assert_eq!(e.path, "a.md");
    assert!(e.tags.is_empty());
    assert_eq!(e.priority, "medium");
    assert!(!e.always_load);
    assert!(knowledge_entry_from_data(&DataValue::obj1("tags", DataValue::list(vec![]))).is_none());
    assert!(knowledge_entry_from_data(&DataValue::obj2(
        "path",
        DataValue::text("a"),
        "always_load",
        DataValue::text("yes")
    ))
    .is_none());
    let idx = DataValue::obj1(
        "entries",
        DataValue::list(vec![
            DataValue::obj2("path", DataValue::text("a.md"), "always_load", DataValue::Bool(true)),
            DataValue::obj1("path", DataValue::text("b.md")),
        ]),
    );
    let es = knowledge_index_from_data(&idx).unwrap();
    assert_eq!(es.len(), 2);
    assert!(knowledge_index_from_data(&DataValue::obj1("entries", DataValue::text("x"))).is_none());
}

#[test]
fn knowledge_is_split_and_listed() {
    let (pre, avail) = split_knowledge(vec![entry("a.md", true, &[]), entry("b.md", false, &["x", "y"]), entry("c.md", true, &[])]);
    assert_eq!(pre.iter().map(|e| e.path.clone()).collect::<Vec<_>>(), vec!["a.md", "c.md"]);
    assert_eq!(avail.len(), 1);
    let doc = preloaded_doc("a.md".to_string(), "  text \n");
    assert_eq!(doc.content, "text");
    let k = LoadedKnowledge { preloaded: vec![doc], available: avail };
    assert_eq!(
        format_knowledge_for_prompt(&k),
        "# Knowledge\n\n<knowledge path=\"a.md\">\ntext\n</knowledge>\n\n<available_knowledge>\n<doc path=\"knowledge/b.md\" priority=\"high\" tags=\"x,y\" />\n</available_knowledge>\n\nUse the `read` tool to load any available knowledge document when needed."
    );
    assert_eq!(format_knowledge_for_prompt(&LoadedKnowledge { preloaded: vec![], available: vec![] }), "");
}

#[test]
fn sorting_by_name_orders_and_keeps_everything() {
    assert!(str_lt("a", "b"));
    assert!(str_lt("a", "ab"));
    assert!(!str_lt("b", "a"));
    assert!(!str_lt("a", "a"));
    assert!(str_lt("Z", "a"));
    let sorted = sort_by_name(vec![skill("c"), skill("a"), skill("b"), skill("a")]);
    let names: Vec<String> = sorted.iter().map(|s| s.name.clone()).collect();
    assert_eq!(names, vec!["a", "a", "b", "c"]);
    let ws = sort_by_name(vec![
        WorkflowMetadata { name: "z".into(), description: String::new(), file_path: String::new(), format: String::new() },
        WorkflowMetadata { name: "m".into(), description: String::new(), file_path: String::new(), format: String::new() },
    ]);
    assert_eq!(ws[0].name, "m");
    let ags = sort_by_name(vec![
        SubAgentMetadata { name: "b".into(), description: String::new(), agent_type: String::new(), path: String::new() },
        SubAgentMetadata { name: "a".into(), description: String::new(), agent_type: String::new(), path: String::new() },
    ]);
    assert_eq!(ags[0].name, "a");
}
