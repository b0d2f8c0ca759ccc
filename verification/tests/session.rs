use gitclaw::session::{
    agent_yaml, authed_url, checkout_args, clean_url, clone_command, commit_args, commit_message,
    default_branch, memory_stub, push_args, repo_name, session_agent_yaml, session_names, sync_args,
    LocalSession,
};

#[test]
fn token_goes_into_https_urls() {
    assert_eq!(authed_url("https://github.com/acme/agent.git", "tok"), "https://tok@github.com/acme/agent.git");
    assert_eq!(authed_url("git@github.com:acme/agent.git", "tok"), "git@github.com:acme/agent.git");
}

#[test]
fn credentials_are_cleaned_from_urls() {
    assert_eq!(clean_url("https://tok@github.com/acme/agent.git"), "https://github.com/acme/agent.git");
    assert_eq!(clean_url("https://github.com/acme/agent.git"), "https://github.com/acme/agent.git");
    assert_eq!(clean_url("http://tok@example.com/x"), "http://tok@example.com/x");
    assert_eq!(clean_url("https://@host/x"), "https://@host/x");
}

#[test]
fn cleaning_undoes_the_token() {
    let url = "https://github.com/acme/agent.git";
    assert_eq!(clean_url(&authed_url(url, "secret")), url);
}

#[test]
fn commit_messages_and_arguments() {
    assert_eq!(commit_message(Some("save"), "b"), "save");
    assert_eq!(commit_message(None, "gitclaw/session-1"), "gitclaw: auto-commit (gitclaw/session-1)");
    assert_eq!(commit_args("save"), "commit -m \"save\"");
    assert_eq!(push_args("main"), "push origin main");
    assert_eq!(clone_command("https://t@h/r", "/tmp/r"), "git clone --depth 1 --no-single-branch https://t@h/r /tmp/r");
    assert_eq!(
        checkout_args("dev"),
        ("checkout dev".to_string(), "checkout -b dev origin/dev".to_string())
    );
}

#[test]
fn sync_runs_four_git_steps() {
    let steps = sync_args("https://t@h/r", "main");
    assert_eq!(
        steps,
        vec![
            "remote set-url origin https://t@h/r".to_string(),
            "fetch origin".to_string(),
            "checkout main".to_string(),
            "reset --hard origin/main".to_string(),
        ]
    );
}

#[test]
fn default_branch_choice() {
    assert_eq!(default_branch(Some("refs/remotes/origin/develop"), false), "develop");
    assert_eq!(default_branch(None, true), "main");
    assert_eq!(default_branch(None, false), "master");
}

#[test]
fn session_branch_and_id() {
    assert_eq!(
        session_names(Some("gitclaw/session-abc"), 7),
        ("gitclaw/session-abc".to_string(), "abc".to_string())
    );
    assert_eq!(session_names(Some("feature"), 7), ("feature".to_string(), "feature".to_string()));
    assert_eq!(
        session_names(None, 0xdeadbeef),
        ("gitclaw/session-deadbeef".to_string(), "deadbeef".to_string())
    );
    assert_eq!(session_names(None, 31).1, "0000001f");
}

#[test]
fn repository_names_and_scaffold() {
    assert_eq!(repo_name("https://github.com/acme/my-agent.git"), "my-agent");
    assert_eq!(repo_name("plain"), "plain");
    assert_eq!(
        agent_yaml("bot", "openai:gpt-4o-mini"),
        "spec_version: \"0.1.0\"\nname: bot\nversion: 0.1.0\ndescription: Gitclaw agent for bot\nmodel:\n  preferred: \"openai:gpt-4o-mini\"\n  fallback: []\ntools: [cli, read, write, memory]\nruntime:\n  max_turns: 50\n"
    );
    assert_eq!(session_agent_yaml("https://h/acme/bot.git"), agent_yaml("bot", "openai:gpt-4o-mini"));
    assert_eq!(memory_stub(), "# Memory\n");
}

#[test]
fn session_commit_and_push() {
    let s = LocalSession {
        dir: "/tmp/r".to_string(),
        branch: "gitclaw/session-1".to_string(),
        session_id: "1".to_string(),
    };
    assert_eq!(s.commit_changes(Some("m"), true), Some("commit -m \"m\"".to_string()));
    assert_eq!(s.commit_changes(Some("m"), false), None);
    assert_eq!(s.push(), "push origin gitclaw/session-1");
    let (c, p) = s.finalize(true);
    assert_eq!(c, Some("commit -m \"gitclaw: auto-commit (gitclaw/session-1)\"".to_string()));
    assert_eq!(p, "push origin gitclaw/session-1");
    assert_eq!(s.finalize(false).0, None);
}
