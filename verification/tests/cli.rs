use gitclaw::cli::{
    ensure_repo_steps, green, red, repl_command, repo_default_dir, requested_skill, required_key_var,
    summarize_args, yellow, ReplCommand, RepoState, RepoStep,
};
use gitclaw::data::DataValue;

fn step_text(s: &RepoStep) -> String {
    match s {
        RepoStep::Notice(t) => format!("notice {t}"),
        RepoStep::CreateDir(d) => format!("mkdir {d}"),
        RepoStep::Shell(c) => format!("sh {c}"),
        RepoStep::WriteFile { path, .. } => format!("write {path}"),
    }
}

#[test]
fn colours() {
    assert_eq!(red("x"), "\x1b[31mx\x1b[0m");
    assert_eq!(green("x"), "\x1b[32mx\x1b[0m");
    assert_eq!(yellow("x"), "\x1b[33mx\x1b[0m");
}

#[test]
fn argument_summaries() {
    assert_eq!(summarize_args(&None), Some(String::new()));
    let a = vec![
        ("path".to_string(), DataValue::text("a.txt")),
        ("limit".to_string(), DataValue::from_u64(5)),
    ];
    assert_eq!(summarize_args(&Some(a)), Some("path: a.txt, limit: 5".to_string()));
    let long = "z".repeat(70);
    let a = vec![("c".to_string(), DataValue::text(&long))];
    assert_eq!(summarize_args(&Some(a)), Some(format!("c: {}…", "z".repeat(60))));
    let exact = "q".repeat(60);
    let a = vec![("c".to_string(), DataValue::text(&exact))];
    assert_eq!(summarize_args(&Some(a)), Some(format!("c: {exact}")));
    // A cut that would fall inside a character cannot be made.
    let wide = format!("{}é{}", "a".repeat(59), "b".repeat(10));
    let a = vec![("c".to_string(), DataValue::text(&wide))];
    assert_eq!(summarize_args(&Some(a)), None);
    let a = vec![("o".to_string(), DataValue::obj1("k", DataValue::Bool(true)))];
    assert_eq!(summarize_args(&Some(a)), Some("o: {\"k\":true}".to_string()));
}

#[test]
fn provider_key_variables() {
    assert_eq!(required_key_var("anthropic"), Some("ANTHROPIC_API_KEY"));
    assert_eq!(required_key_var("openai"), Some("OPENAI_API_KEY"));
    assert_eq!(required_key_var("google"), Some("GOOGLE_API_KEY"));
    assert_eq!(required_key_var("xai"), Some("XAI_API_KEY"));
    assert_eq!(required_key_var("groq"), Some("GROQ_API_KEY"));
    assert_eq!(required_key_var("mistral"), Some("MISTRAL_API_KEY"));
    assert_eq!(required_key_var("ollama"), None);
    assert_eq!(repo_default_dir("https://github.com/acme/bot.git"), "/tmp/gitclaw/bot");
}

#[test]
fn prompt_loop_commands() {
    assert!(matches!(repl_command("   "), ReplCommand::Empty));
    assert!(matches!(repl_command("/quit"), ReplCommand::Quit));
    assert!(matches!(repl_command(" /exit \n"), ReplCommand::Quit));
    assert!(matches!(repl_command("/memory"), ReplCommand::Memory));
    assert!(matches!(repl_command("/skills"), ReplCommand::Skills));
    match repl_command(" /skill:deploy now ") {
        ReplCommand::Skill(s) => assert_eq!(s, "/skill:deploy now"),
        _ => panic!("expected a skill command"),
    }
    match repl_command(" hello there ") {
        ReplCommand::Prompt(s) => assert_eq!(s, "hello there"),
        _ => panic!("expected a prompt"),
    }
    assert_eq!(requested_skill("/skill:deploy now"), "deploy");
    assert_eq!(requested_skill("/skill:  x"), "x");
    assert_eq!(requested_skill("/skill:"), "?");
}

#[test]
fn preparing_a_fresh_directory() {
    let st = RepoState {
        dir: "/w/bot".to_string(),
        dir_name: Some("bot".to_string()),
        dir_exists: false,
        is_git_repo: false,
        gitignore_exists: false,
        agent_yaml_exists: false,
        memory_exists: false,
        soul_exists: false,
    };
    let steps: Vec<String> = ensure_repo_steps(&st, None).iter().map(step_text).collect();
    assert_eq!(
        steps,
        vec![
            "notice \x1b[2mCreating directory: /w/bot\x1b[0m",
            "mkdir /w/bot",
            "notice \x1b[2mInitializing git repository...\x1b[0m",
            "sh git init",
            "write /w/bot/.gitignore",
            "sh git add -A && git commit -m 'Initial commit' --allow-empty",
            "write /w/bot/agent.yaml",
            "notice \x1b[2mCreated agent.yaml (model: openai:gpt-4o-mini)\x1b[0m",
            "mkdir /w/bot/memory",
            "write /w/bot/memory/MEMORY.md",
            "write /w/bot/SOUL.md",
            "sh git add -A && git diff --cached --quiet || git commit -m 'Scaffold gitclaw agent'",
        ]
    );
    match &ensure_repo_steps(&st, Some("anthropic:x"))[6] {
        RepoStep::WriteFile { content, .. } => assert!(content.contains("preferred: \"anthropic:x\"")),
        _ => panic!("expected agent.yaml"),
    }
}

#[test]
fn preparing_a_ready_directory() {
    let st = RepoState {
        dir: "/w/bot".to_string(),
        dir_name: None,
        dir_exists: true,
        is_git_repo: true,
        gitignore_exists: true,
        agent_yaml_exists: true,
        memory_exists: true,
        soul_exists: true,
    };
    let steps: Vec<String> = ensure_repo_steps(&st, None).iter().map(step_text).collect();
    assert_eq!(steps, vec!["sh git add -A && git diff --cached --quiet || git commit -m 'Scaffold gitclaw agent'"]);
}

#[test]
fn preparation_splits_at_the_directory() {
    let st = RepoState {
        dir: "/w/bot".to_string(),
        dir_name: Some("bot".to_string()),
        dir_exists: false,
        is_git_repo: true,
        gitignore_exists: true,
        agent_yaml_exists: true,
        memory_exists: false,
        soul_exists: true,
    };
    let first: Vec<String> = gitclaw::cli::dir_setup_steps(&st).iter().map(step_text).collect();
    assert_eq!(first, vec!["notice \x1b[2mCreating directory: /w/bot\x1b[0m", "mkdir /w/bot"]);
    let rest: Vec<String> = gitclaw::cli::scaffold_steps(&st, None).iter().map(step_text).collect();
    assert_eq!(
        rest,
        vec![
            "mkdir /w/bot/memory",
            "write /w/bot/memory/MEMORY.md",
            "sh git add -A && git diff --cached --quiet || git commit -m 'Scaffold gitclaw agent'",
        ]
    );
    let all: Vec<String> = ensure_repo_steps(&st, None).iter().map(step_text).collect();
    assert_eq!(all, [first, rest].concat());
}
