use gitclaw::config::{deep_merge, env_config_from, merge_env_config, select_env, yaml_or_empty};
use gitclaw::data::DataValue;
use gitclaw::knowledge::LoadedKnowledge;
use gitclaw::loader::{
    build_system_prompt, filter_skills, gitignore_update, model_not_found_message, parse_model_string,
    resolve_model, resolve_model_string, seconds_text, session_state, AgentManifest, IdentityFiles,
    ManifestModel, ManifestRuntime,
};
use gitclaw::skills::SkillMetadata;

fn keys(d: &DataValue) -> Vec<String> {
    match d {
        DataValue::Object(es) => es.iter().map(|(k, _)| k.clone()).collect(),
        _ => vec![],
    }
}

#[test]
fn deep_merge_merges_mappings_key_by_key() {
    let base = DataValue::obj3(
        "a",
        DataValue::from_u64(1),
        "b",
        DataValue::obj2("x", DataValue::from_u64(1), "y", DataValue::from_u64(2)),
        "c",
        DataValue::text("keep"),
    );
    let overlay = DataValue::obj2(
        "b",
        DataValue::obj1("y", DataValue::from_u64(20)),
        "d",
        DataValue::Bool(true),
    );
    let m = deep_merge(&base, &overlay);
    assert_eq!(m.get_u64("a"), Some(1));
    assert_eq!(m.get_str("c"), Some("keep".to_string()));
    assert_eq!(m.get_bool("d"), Some(true));
    let b = m.get("b").unwrap();
    assert_eq!(b.get_u64("x"), Some(1));
    assert_eq!(b.get_u64("y"), Some(20));
    // A key taken out of the mapping is replaced by the last one and put back
    // at the end.
    assert_eq!(keys(&m), vec!["a", "c", "b", "d"]);
}

#[test]
fn deep_merge_replaces_what_is_not_a_mapping() {
    let base = DataValue::obj1("a", DataValue::from_u64(1));
    let m = deep_merge(&base, &DataValue::text("x"));
    assert_eq!(m.as_str(), Some("x"));
    let m = deep_merge(&DataValue::text("x"), &base);
    assert_eq!(m.get_u64("a"), Some(1));
    let m = deep_merge(&base, &DataValue::obj1("a", DataValue::list(vec![])));
    assert!(m.get("a").unwrap().as_list().is_some());
}

#[test]
fn environment_configuration() {
    let base = yaml_or_empty(Some("log_level: info\nmodel_override: openai:gpt-4o-mini\n"));
    let env = yaml_or_empty(Some("log_level: debug\n"));
    let cfg = merge_env_config(base.copy(), Some(env));
    assert_eq!(cfg.log_level, Some("debug".to_string()));
    assert_eq!(cfg.model_override, Some("openai:gpt-4o-mini".to_string()));
    let plain = merge_env_config(base, None);
    assert_eq!(plain.log_level, Some("info".to_string()));
    assert!(keys(&yaml_or_empty(None)).is_empty());
    assert!(matches!(yaml_or_empty(Some("a: [")), DataValue::Object(ref es) if es.is_empty()));
    let c = env_config_from(DataValue::obj1("log_level", DataValue::from_u64(3)));
    assert_eq!(c.log_level, None);
    assert_eq!(select_env(Some("prod"), Some("dev".to_string())), Some("prod".to_string()));
    assert_eq!(select_env(None, Some("dev".to_string())), Some("dev".to_string()));
    assert_eq!(select_env(None, None), None);
}

#[test]
fn model_strings() {
    assert_eq!(
        parse_model_string("openai:gpt-4o:latest"),
        Ok(("openai".to_string(), "gpt-4o:latest".to_string()))
    );
    assert_eq!(parse_model_string(":x"), Ok((String::new(), "x".to_string())));
    assert_eq!(
        parse_model_string("gpt"),
        Err("Invalid model format: \"gpt\". Expected \"provider:model\" (e.g., \"anthropic:sonnet-4-5-20250929\")".to_string())
    );
    let over = Some("a:b".to_string());
    assert_eq!(resolve_model_string(&over, Some("c:d"), "e:f"), Ok(("a".to_string(), "b".to_string())));
    assert_eq!(resolve_model_string(&None, Some("c:d"), "e:f"), Ok(("c".to_string(), "d".to_string())));
    assert_eq!(resolve_model_string(&None, None, "e:f"), Ok(("e".to_string(), "f".to_string())));
    let err = resolve_model_string(&None, None, "").unwrap_err();
    assert!(err.starts_with("No model configured. Either:\n  - Set model.preferred in agent.yaml"));
    assert_eq!(model_not_found_message("p", "m"), "Model not found: p:m");
}

#[test]
fn model_resolution_looks_in_the_registry() {
    let m = resolve_model(&None, None, "openai:gpt-4o-mini").unwrap();
    assert_eq!(m.provider, "openai");
    assert_eq!(resolve_model(&None, None, "openai:nope").err().unwrap(), "Model not found: openai:nope");
    assert!(resolve_model(&None, None, "nope").err().unwrap().starts_with("Invalid model format"));
}

fn manifest() -> AgentManifest {
    AgentManifest {
        spec_version: "0.1.0".to_string(),
        name: "bot".to_string(),
        version: "1.0".to_string(),
        description: "A bot".to_string(),
        author: None,
        license: None,
        tags: None,
        metadata: None,
        model: ManifestModel { preferred: "openai:gpt-4o-mini".to_string(), fallback: vec![], constraints: None },
        tools: vec![],
        skills: None,
        runtime: ManifestRuntime { max_turns: 50, timeout: None },
        extends_from: None,
        dependencies: None,
        agents: None,
        delegation: None,
        compliance: None,
    }
}

#[test]
fn system_prompt_parts() {
    let identity = IdentityFiles {
        soul: "I am kind.".to_string(),
        rules: String::new(),
        duties: "Help.".to_string(),
        agents_md: String::new(),
    };
    let k = LoadedKnowledge { preloaded: vec![], available: vec![] };
    let p = build_system_prompt(&manifest(), &identity, &k, &[], &[], &[], &[], "");
    assert_eq!(
        p,
        "# bot v1.0\nA bot\n\nI am kind.\n\nHelp.\n\n# Memory\n\nYou have a memory file at memory/MEMORY.md. Use the `memory` tool to load and save memories. Each save creates a git commit, so your memory has full history. You can also use the `cli` tool to run git commands for deeper memory inspection (git log, git diff, git show)."
    );
    let p = build_system_prompt(&manifest(), &identity, &k, &[], &[], &[], &[], "# Compliance");
    assert!(p.ends_with("git show).\n\n# Compliance"));
}

fn skill(name: &str) -> SkillMetadata {
    SkillMetadata { name: name.to_string(), description: String::new(), directory: String::new(), file_path: String::new() }
}

#[test]
fn allowed_skills_are_kept_in_order() {
    let all = vec![skill("a"), skill("b"), skill("c")];
    let kept = filter_skills(all, &Some(vec!["c".to_string(), "a".to_string()]));
    assert_eq!(kept.iter().map(|s| s.name.clone()).collect::<Vec<_>>(), vec!["a", "c"]);
    let all = vec![skill("a"), skill("b")];
    assert_eq!(filter_skills(all, &None).len(), 2);
    assert!(filter_skills(vec![skill("a")], &Some(vec![])).is_empty());
}

#[test]
fn gitignore_and_session_state() {
    assert_eq!(gitignore_update("target/\n\n"), Some("target/\n.gitagent/\n".to_string()));
    assert_eq!(gitignore_update("x\n.gitagent/\n"), None);
    assert_eq!(gitignore_update(""), Some("\n.gitagent/\n".to_string()));
    let st = session_state("id-1", "12Z");
    assert_eq!(st.get_str("session_id"), Some("id-1".to_string()));
    assert_eq!(st.get_str("started_at"), Some("12Z".to_string()));
    assert_eq!(seconds_text(1700000000, "Z"), "1700000000Z");
    assert_eq!(seconds_text(0, ""), "0");
}
