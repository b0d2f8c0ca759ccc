use gitclaw::agent::Agent;
use gitclaw::agent_types::AgentThinkingLevel;
use gitclaw::ai_types::{
    AssistantMessage, AssistantMessageEvent, Message, SimpleStreamOptions, StopReason, StreamOptions, ThinkingBudgets,
    ThinkingLevel, UserContent,
};
use gitclaw::env_keys::{adc_path, env_var, get_env_api_key, join_path_str};
use gitclaw::errors::{AgentError, PiAiError};
use gitclaw::event_stream::finish_event;
use gitclaw::models::get_model;
use gitclaw::options::{clamp_reasoning, default_budget};
use gitclaw::overflow::{is_context_overflow, overflow_decision};

fn env(pairs: &[(&str, &str)]) -> Vec<(String, String)> {
    pairs.iter().map(|(k, v)| (k.to_string(), v.to_string())).collect()
}

#[test]
fn environment_keys() {
    let e = env(&[("OPENAI_API_KEY", "sk-1"), ("ANTHROPIC_API_KEY", "a"), ("ANTHROPIC_OAUTH_TOKEN", "o")]);
    assert_eq!(env_var(&e, "OPENAI_API_KEY"), Some("sk-1".to_string()));
    assert_eq!(env_var(&e, "NOPE"), None);
    assert_eq!(get_env_api_key("openai", &e, false), Some("sk-1".to_string()));
    assert_eq!(get_env_api_key("anthropic", &e, false), Some("o".to_string()));
    assert_eq!(get_env_api_key("anthropic", &env(&[("ANTHROPIC_API_KEY", "a")]), false), Some("a".to_string()));
    assert_eq!(get_env_api_key("google", &e, false), None);
    assert_eq!(get_env_api_key("unknown-provider", &e, true), None);
    assert_eq!(
        get_env_api_key("github-copilot", &env(&[("GITHUB_TOKEN", "g"), ("GH_TOKEN", "h")]), false),
        Some("h".to_string())
    );
    let vertex = env(&[("GCLOUD_PROJECT", "p"), ("GOOGLE_CLOUD_LOCATION", "l")]);
    assert_eq!(get_env_api_key("google-vertex", &vertex, true), Some("<authenticated>".to_string()));
    assert_eq!(get_env_api_key("google-vertex", &vertex, false), None);
    assert_eq!(
        get_env_api_key("amazon-bedrock", &env(&[("AWS_ACCESS_KEY_ID", "k"), ("AWS_SECRET_ACCESS_KEY", "s")]), false),
        Some("<authenticated>".to_string())
    );
    assert_eq!(get_env_api_key("amazon-bedrock", &env(&[("AWS_ACCESS_KEY_ID", "k")]), false), None);
    assert_eq!(adc_path(&env(&[("GOOGLE_APPLICATION_CREDENTIALS", "/c.json")])), Some("/c.json".to_string()));
    assert_eq!(
        adc_path(&env(&[("HOME", "/home/u")])),
        Some("/home/u/.config/gcloud/application_default_credentials.json".to_string())
    );
    assert_eq!(adc_path(&env(&[])), None);
    assert_eq!(join_path_str("/a/", "b"), "/a/b");
    assert_eq!(join_path_str("", "b"), "b");
}

fn failed(text: Option<&str>) -> AssistantMessage {
    let mut m = AssistantMessage::empty();
    m.stop_reason = StopReason::Error;
    m.error_message = text.map(|t| t.to_string());
    m
}

#[test]
fn context_overflow_is_recognised() {
    assert!(is_context_overflow(&failed(Some("prompt is too long: 210000 tokens > 200000 maximum")), None));
    assert!(is_context_overflow(&failed(Some("Your input exceeds the context window of this model")), None));
    assert!(is_context_overflow(&failed(Some("This model's maximum context length is 128000 tokens")), None));
    assert!(is_context_overflow(&failed(Some("400 status code (no body)")), None));
    assert!(is_context_overflow(&failed(Some("PROMPT IS TOO LONG")), None));
    assert!(!is_context_overflow(&failed(Some("rate limited")), None));
    assert!(!is_context_overflow(&failed(None), None));
    let mut ok = AssistantMessage::empty();
    ok.usage.input = 900;
    ok.usage.cache_read = 200;
    assert!(is_context_overflow(&ok, Some(1000)));
    assert!(!is_context_overflow(&ok, Some(1100)));
    assert!(!is_context_overflow(&ok, None));
    assert!(overflow_decision(&failed(Some("x")), None, true));
    assert!(!overflow_decision(&failed(None), None, true));
}

#[test]
fn closing_events() {
    let mut m = AssistantMessage::empty();
    assert!(matches!(finish_event(&m), AssistantMessageEvent::Done { reason: StopReason::Stop, .. }));
    m.stop_reason = StopReason::Aborted;
    assert!(matches!(finish_event(&m), AssistantMessageEvent::Error { reason: StopReason::Aborted, .. }));
    m.stop_reason = StopReason::Length;
    assert!(matches!(finish_event(&m), AssistantMessageEvent::Done { reason: StopReason::Length, .. }));
}

#[test]
fn thinking_budgets() {
    assert_eq!(default_budget(ThinkingLevel::Minimal), 1024);
    assert_eq!(default_budget(ThinkingLevel::Low), 2048);
    assert_eq!(default_budget(ThinkingLevel::Medium), 8192);
    assert_eq!(default_budget(ThinkingLevel::High), 16384);
    assert_eq!(clamp_reasoning(ThinkingLevel::Xhigh), ThinkingLevel::High);
    assert_eq!(clamp_reasoning(ThinkingLevel::Low), ThinkingLevel::Low);
    assert_eq!(AgentThinkingLevel::Off.to_pi_ai(), None);
    assert_eq!(AgentThinkingLevel::High.to_pi_ai(), Some(ThinkingLevel::High));
}

#[test]
fn error_display_texts() {
    assert_eq!(PiAiError::NoProvider("x".into()).to_string(), "No API provider registered for api: x");
    assert_eq!(
        PiAiError::MismatchedApi { actual: "a".into(), expected: "b".into() }.to_string(),
        "Mismatched api: a expected b"
    );
    assert_eq!(PiAiError::Aborted.to_string(), "Aborted");
    assert_eq!(AgentError::AlreadyStreaming.to_string(), "Agent is already streaming");
    assert_eq!(AgentError::ToolExecution("t".into()).to_string(), "Tool execution failed: t");
    assert_eq!(AgentError::AiError(PiAiError::Http("h".into())).to_string(), "AI error: HTTP error: h");
    let converted: AgentError = PiAiError::Json("j".into()).into();
    assert_eq!(converted.to_string(), "AI error: JSON error: j");
}

#[test]
fn agent_runs_one_prompt_at_a_time() {
    let model = get_model("openai", "gpt-4o-mini").unwrap();
    let mut agent = Agent::new(Some("sys".into()), model, None, None, None);
    assert_eq!(agent.thinking_level, AgentThinkingLevel::Off);
    assert!(agent.prompt("hello", 5).is_ok());
    assert!(agent.is_streaming);
    assert_eq!(agent.messages.len(), 1);
    match &agent.messages[0] {
        Message::User(u) => {
            assert!(matches!(&u.content, UserContent::Text(t) if t == "hello"));
            assert_eq!(u.timestamp, 5);
        },
        _ => panic!("expected the prompt"),
    }
    assert!(matches!(agent.prompt("again", 6), Err(AgentError::AlreadyStreaming)));
    assert_eq!(agent.messages.len(), 1);
    agent.finish_run(vec![]);
    assert!(!agent.is_streaming);
    assert!(agent.prompt("again", 6).is_ok());
    agent.set_thinking_level(AgentThinkingLevel::Low);
    assert_eq!(agent.thinking_level, AgentThinkingLevel::Low);
    agent.set_system_prompt(None);
    assert!(agent.system_prompt.is_none());
}

#[test]
fn failed_requests_become_error_messages() {
    let m = gitclaw::event_stream::failed_message("openai-completions", "openai", "gpt", "HTTP request failed: x".to_string(), 9);
    assert_eq!(m.stop_reason, StopReason::Error);
    assert_eq!(m.error_message, Some("HTTP request failed: x".to_string()));
    assert_eq!(m.api, "openai-completions");
    assert_eq!(m.timestamp, 9);
    assert!(m.content.is_empty());
    assert!(matches!(finish_event(&m), AssistantMessageEvent::Error { reason: StopReason::Error, .. }));
}

#[test]
fn thinking_budget_sums() {
    let model = get_model("openai", "gpt-4o-mini").unwrap();
    let base = StreamOptions {
        temperature: None,
        max_tokens: None,
        api_key: None,
        transport: None,
        cache_retention: None,
        session_id: None,
        headers: None,
        max_retry_delay_ms: None,
        metadata: None,
    };
    let opts = SimpleStreamOptions { base: base.clone(), reasoning: Some(ThinkingLevel::Low), thinking_budgets: None };
    assert!(gitclaw::options::thinking_fits(&model, &opts));
    assert_eq!(gitclaw::options::adjust_max_tokens_for_thinking(&model, &opts), (16384 + 2048, 2048));
    let huge = SimpleStreamOptions {
        base: StreamOptions { max_tokens: Some(u32::MAX - 10), ..base.clone() },
        reasoning: Some(ThinkingLevel::Low),
        thinking_budgets: Some(ThinkingBudgets { minimal: None, low: Some(100), medium: None, high: None }),
    };
    assert!(!gitclaw::options::thinking_fits(&model, &huge));
    let small = SimpleStreamOptions {
        base: StreamOptions { max_tokens: Some(10), ..base },
        reasoning: None,
        thinking_budgets: None,
    };
    assert_eq!(gitclaw::options::adjust_max_tokens_for_thinking(&model, &small), (8192 + 1024, 8192));
}
