use gitclaw::audit::{entry_to_log, error_entry, is_audit_enabled, tool_result_entry, tool_use_entry, AuditLogger};
use gitclaw::compliance::{compliance_context, format_compliance_warnings, validate_compliance, ComplianceWarning};
use gitclaw::data::{parse_yaml, DataValue};
use gitclaw::hooks::{
    blocked_message, config_if_any, error_input, hook_exit_error, hook_failed_error, hook_start_error,
    hook_timeout_error, is_decisive, session_start_input, verdict_or_allow, HookDefinition, HookResult,
    HooksFileConfig, HooksMap,
};
use gitclaw::loader::{AgentManifest, ManifestModel, ManifestRuntime};

fn manifest(compliance: Option<DataValue>) -> AgentManifest {
    AgentManifest {
        spec_version: "0.1.0".to_string(),
        name: "bot".to_string(),
        version: "1".to_string(),
        description: String::new(),
        author: None,
        license: None,
        tags: None,
        metadata: None,
        model: ManifestModel { preferred: String::new(), fallback: vec![], constraints: None },
        tools: vec![],
        skills: None,
        runtime: ManifestRuntime { max_turns: 10, timeout: None },
        extends_from: None,
        dependencies: None,
        agents: None,
        delegation: None,
        compliance,
    }
}

fn rules(ws: &[ComplianceWarning]) -> Vec<String> {
    ws.iter().map(|w| w.rule.clone()).collect()
}

#[test]
fn compliance_checks() {
    assert!(validate_compliance(&manifest(None)).is_empty());
    let c = parse_yaml("risk_level: critical\nregulatory_frameworks: [gdpr]\n").unwrap();
    let ws = validate_compliance(&manifest(Some(c)));
    assert_eq!(
        rules(&ws),
        vec!["high_risk_hitl", "critical_audit", "regulatory_recordkeeping", "high_risk_review", "data_classification"]
    );
    assert_eq!(ws[0].message, "Agent with risk_level \"critical\" should have human_in_the_loop enabled");
    assert_eq!(ws[1].severity, "error");
    let c = parse_yaml(
        "risk_level: high\nhuman_in_the_loop: true\nreview: {}\nrecordkeeping:\n  audit_logging: true\n",
    )
    .unwrap();
    let ws = validate_compliance(&manifest(Some(c)));
    assert_eq!(rules(&ws), vec!["audit_retention"]);
    let c = parse_yaml("risk_level: low\nrecordkeeping:\n  audit_logging: true\n  retention_days: 30\n").unwrap();
    assert!(validate_compliance(&manifest(Some(c))).is_empty());
}

#[test]
fn compliance_warning_lines() {
    let ws = vec![
        ComplianceWarning { rule: "a".to_string(), message: "m1".to_string(), severity: "error".to_string() },
        ComplianceWarning { rule: "b".to_string(), message: "m2".to_string(), severity: "warning".to_string() },
    ];
    assert_eq!(format_compliance_warnings(&ws), "  ✗ [a] m1\n  ⚠ [b] m2");
    assert_eq!(format_compliance_warnings(&[]), "");
}

#[test]
fn compliance_section_keeps_the_frameworks_in_file_order() {
    let map = parse_yaml("frameworks:\n  sox: {}\n  gdpr: {}\n  1: {}\n").unwrap();
    let schedule = parse_yaml(
        "checks:\n  - name: audit\n    frequency: monthly\n    description: review logs\n  - name: pen\n    frequency: yearly\n  - frequency: never\n",
    )
    .unwrap();
    assert_eq!(
        compliance_context(&Some(map), &Some(schedule)),
        "# Compliance\n\nRegulatory frameworks: sox, gdpr\n\nValidation schedule:\n- audit (monthly): review logs\n- pen (yearly)"
    );
    assert_eq!(compliance_context(&None, &None), "");
    let empty = parse_yaml("frameworks: {}\n").unwrap();
    assert_eq!(compliance_context(&Some(empty), &None), "");
}

fn defs(n: usize) -> Option<Vec<HookDefinition>> {
    Some((0..n).map(|i| HookDefinition { script: format!("h{i}.sh"), description: None }).collect())
}

#[test]
fn hook_configuration_and_results() {
    let none = HooksFileConfig {
        hooks: HooksMap { on_session_start: None, pre_tool_use: None, post_response: None, on_error: None },
    };
    assert!(config_if_any(none).is_none());
    let some = HooksFileConfig {
        hooks: HooksMap { on_session_start: None, pre_tool_use: defs(1), post_response: None, on_error: None },
    };
    assert!(config_if_any(some).is_some());
    let a = gitclaw::hooks::allow();
    assert_eq!(a.action, "allow");
    assert!(!is_decisive(&a));
    let block = HookResult { action: "block".to_string(), reason: Some("no".to_string()), args: None };
    assert!(is_decisive(&block));
    assert!(is_decisive(&HookResult { action: "modify".to_string(), reason: None, args: Some(vec![]) }));
    assert_eq!(verdict_or_allow(Some(block)).action, "block");
    assert_eq!(verdict_or_allow(None).action, "allow");
    assert_eq!(blocked_message(&Some("nope".to_string())), "Session blocked by hook: nope");
    assert_eq!(blocked_message(&None), "Session blocked by hook: no reason given");
}

#[test]
fn hook_inputs_and_errors() {
    let s = session_start_input("s1", "bot");
    assert_eq!(s.get_str("event"), Some("on_session_start".to_string()));
    assert_eq!(s.get_str("agent"), Some("bot".to_string()));
    let e = error_input("s1", "boom");
    assert_eq!(e.get_str("event"), Some("on_error".to_string()));
    assert_eq!(e.get_str("error"), Some("boom".to_string()));
    assert_eq!(hook_exit_error("h.sh", 2, " bad\n"), "Hook \"h.sh\" exited with code 2: bad");
    assert_eq!(hook_start_error("h.sh", "no sh"), "Hook \"h.sh\" failed to start: no sh");
    assert_eq!(hook_timeout_error("h.sh"), "Hook \"h.sh\" timed out after 10s");
    assert_eq!(hook_failed_error("h.sh", "io"), "Hook \"h.sh\" failed: io");
}

#[test]
fn audit_entries() {
    let log = AuditLogger::new("/a/.gitagent", "s1", true);
    assert_eq!(log.log_path, "/a/.gitagent/audit.jsonl");
    let e = entry_to_log(&log, "session_start", None, "100").unwrap();
    assert_eq!(e.event, "session_start");
    assert_eq!(e.timestamp, "100");
    assert!(e.tool.is_none() && e.args.is_none() && e.result.is_none() && e.error.is_none());
    let off = AuditLogger::new("/a/.gitagent", "s1", false);
    assert!(entry_to_log(&off, "session_start", None, "100").is_none());
    let u = tool_use_entry(&log, "cli", &DataValue::obj1("command", DataValue::text("ls")), "101");
    assert_eq!(u.tool, Some("cli".to_string()));
    assert_eq!(u.args.as_ref().unwrap().get_str("command"), Some("ls".to_string()));
    let kept = entry_to_log(&log, "tool_use", Some(u), "999").unwrap();
    assert_eq!(kept.timestamp, "101");
    let r = tool_result_entry(&log, "cli", &"r".repeat(1500), "102");
    assert_eq!(r.result.unwrap().len(), 1000);
    let r = tool_result_entry(&log, "cli", "short", "102");
    assert_eq!(r.result, Some("short".to_string()));
    let er = error_entry(&log, "bad", "103");
    assert_eq!(er.error, Some("bad".to_string()));
    assert_eq!(er.event, "error");
}

#[test]
fn audit_switch() {
    assert!(!is_audit_enabled(None));
    let on = parse_yaml("recordkeeping:\n  audit_logging: true\n").unwrap();
    assert!(is_audit_enabled(Some(&on)));
    let off = parse_yaml("recordkeeping:\n  audit_logging: \"yes\"\n").unwrap();
    assert!(!is_audit_enabled(Some(&off)));
    let none = parse_yaml("risk_level: high\n").unwrap();
    assert!(!is_audit_enabled(Some(&none)));
}
