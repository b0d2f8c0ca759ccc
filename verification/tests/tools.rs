use gitclaw::agent_types::AgentToolResult;
use gitclaw::ai_types::ToolResultContent;
use gitclaw::data::DataValue;
use gitclaw::tool_loader::{
    build_json_schema, declarative_tool, is_tool_file, tool_exit_error, tool_failed_error, tool_output_text,
    tool_start_error, tool_timeout_error,
};
use gitclaw::tools::{
    arg_bool, arg_str, arg_u64, binary_notice, cli_outcome, cli_timeout_message, is_binary, memory_commit_command,
    memory_load_text, memory_save_message, page_text, paginate_lines, resolve_path, truncate_output, write_message,
    CliTool, CommitOutcome, MemoryAction, MemoryTool, ReadTool, WriteTool,
};

fn args(pairs: Vec<(&str, DataValue)>) -> Vec<(String, DataValue)> {
    pairs.into_iter().map(|(k, v)| (k.to_string(), v)).collect()
}

fn text_of(r: &AgentToolResult) -> String {
    match &r.content[0] {
        ToolResultContent::Text(t) => t.text.clone(),
        _ => panic!("not text"),
    }
}

#[test]
fn arguments_by_name() {
    let a = args(vec![
        ("s", DataValue::text("x")),
        ("n", DataValue::from_u64(5)),
        ("b", DataValue::Bool(false)),
        ("s", DataValue::text("second")),
    ]);
    assert_eq!(arg_str(&a, "s"), Some("x".to_string()));
    assert_eq!(arg_u64(&a, "n"), Some(5));
    assert_eq!(arg_bool(&a, "b"), Some(false));
    assert_eq!(arg_str(&a, "n"), None);
    assert_eq!(arg_u64(&a, "missing"), None);
}

#[test]
fn long_output_keeps_its_tail() {
    let short = "abc";
    assert_eq!(truncate_output(short), "abc");
    let long = "x".repeat(100_005);
    let t = truncate_output(&long);
    assert!(t.starts_with("[output truncated, showing last ~100KB]\n"));
    assert_eq!(t.len(), "[output truncated, showing last ~100KB]\n".len() + 100_000);
    let exact = "y".repeat(100_000);
    assert_eq!(truncate_output(&exact), exact);
    let wide = format!("{}é{}", "a".repeat(5), "b".repeat(99_999));
    let t = truncate_output(&wide);
    assert_eq!(t, format!("[output truncated, showing last ~100KB]\n{}", "b".repeat(99_999)));
}

#[test]
fn pages_of_lines() {
    let text = "a\nb\nc\nd";
    let p = paginate_lines(text, Some(2), Some(2)).unwrap();
    assert_eq!(p.text, "b\nc");
    assert!(p.has_more);
    assert_eq!(p.shown_range, (2, 3));
    assert_eq!(p.total_lines, 4);
    assert_eq!(page_text(&p), "b\nc\n\n[Showing lines 2-3 of 4. Use offset=4 to continue.]");
    let all = paginate_lines(text, None, None).unwrap();
    assert_eq!(all.text, text);
    assert!(!all.has_more);
    assert_eq!(page_text(&all), text);
    let first = paginate_lines(text, Some(0), Some(1)).unwrap();
    assert_eq!(first.text, "a");
    assert_eq!(first.shown_range, (1, 1));
    assert_eq!(paginate_lines(text, Some(9), None).err(), Some("Offset 9 is beyond end of file (4 lines)".to_string()));
    assert_eq!(paginate_lines("", None, None).unwrap().total_lines, 1);
}

#[test]
fn shell_tool() {
    let t = CliTool::new("/w".to_string(), None);
    assert_eq!(t.default_timeout, 120);
    assert_eq!(t.name(), "cli");
    let ok = t.args(&args(vec![("command", DataValue::text("ls"))])).unwrap();
    assert_eq!(ok, ("ls".to_string(), 120));
    let ok = t.args(&args(vec![("command", DataValue::text("ls")), ("timeout", DataValue::from_u64(5))])).unwrap();
    assert_eq!(ok.1, 5);
    assert_eq!(t.args(&args(vec![])).unwrap_err(), "Missing 'command' argument");
    assert_eq!(CliTool::new("/w".to_string(), Some(9)).default_timeout, 9);
    let r = cli_outcome("out\n", "err\n", 0).unwrap();
    assert_eq!(text_of(&r), "out\nerr\n");
    assert_eq!(r.details.unwrap().get_u64("exitCode"), Some(0));
    assert_eq!(text_of(&cli_outcome("", "", 0).unwrap()), "(no output)");
    assert_eq!(cli_outcome("o", "", 2).err().unwrap(), "o\n\nExit code: 2");
    assert_eq!(cli_outcome("", "", -1).err().unwrap(), "(no output)\n\nExit code: -1");
    assert_eq!(cli_timeout_message(120), "Command timed out after 120 seconds");
    assert!(t.parameters().get("properties").unwrap().get("command").is_some());
}

#[test]
fn read_tool() {
    let t = ReadTool::new("/w".to_string());
    assert_eq!(t.name(), "read");
    assert_eq!(resolve_path("/w", "a.txt"), "/w/a.txt");
    assert_eq!(resolve_path("/w", "/etc/x"), "/etc/x");
    let (p, o, l) = t
        .args(&args(vec![("path", DataValue::text("f")), ("offset", DataValue::from_u64(3))]))
        .unwrap();
    assert_eq!((p.as_str(), o, l), ("f", Some(3), None));
    assert_eq!(t.args(&args(vec![])).unwrap_err(), "Missing 'path' argument");
    assert!(is_binary(&[1, 2, 0, 3]));
    assert!(!is_binary(b"plain text"));
    let mut late = vec![b'a'; 9000];
    late[8500] = 0;
    assert!(!is_binary(&late));
    assert_eq!(binary_notice("img.png", 42), "[Binary file: img.png (42 bytes)]");
}

#[test]
fn write_tool() {
    let t = WriteTool::new("/w".to_string());
    assert_eq!(t.name(), "write");
    let (p, c, d) = t.args(&args(vec![("path", DataValue::text("f")), ("content", DataValue::text("hi"))])).unwrap();
    assert_eq!((p.as_str(), c.as_str(), d), ("f", "hi", true));
    let (_, _, d) = t
        .args(&args(vec![
            ("path", DataValue::text("f")),
            ("content", DataValue::text("hi")),
            ("createDirs", DataValue::Bool(false)),
        ]))
        .unwrap();
    assert!(!d);
    assert_eq!(t.args(&args(vec![("content", DataValue::text("x"))])).unwrap_err(), "Missing 'path' argument");
    assert_eq!(t.args(&args(vec![("path", DataValue::text("x"))])).unwrap_err(), "Missing 'content' argument");
    assert_eq!(write_message("f.txt", "héllo"), "Wrote 6 bytes to f.txt");
}

#[test]
fn memory_tool() {
    let t = MemoryTool::new("/w".to_string());
    assert_eq!(t.name(), "memory");
    assert!(matches!(t.args(&args(vec![("action", DataValue::text("load"))])), Ok(MemoryAction::Load)));
    match t.args(&args(vec![("action", DataValue::text("save")), ("content", DataValue::text("c"))])) {
        Ok(MemoryAction::Save { content, message }) => {
            assert_eq!(content, "c");
            assert_eq!(message, "Update memory");
        },
        _ => panic!("expected a save"),
    }
    assert_eq!(
        t.args(&args(vec![("action", DataValue::text("save"))])).err(),
        Some("content is required for save action".to_string())
    );
    assert_eq!(t.args(&args(vec![])).err(), Some("Missing 'action' argument".to_string()));
    assert_eq!(memory_load_text(None), "No memories yet.");
    assert_eq!(memory_load_text(Some("# Memory\n\n")), "No memories yet.");
    assert_eq!(memory_load_text(Some("  \n")), "No memories yet.");
    assert_eq!(memory_load_text(Some("# Memory\n- likes tea\n")), "# Memory\n- likes tea");
    assert_eq!(
        memory_commit_command("say \"hi\""),
        "git add \"memory/MEMORY.md\" && git commit -m \"say \\\"hi\\\"\""
    );
    assert_eq!(memory_save_message("m", &CommitOutcome::Committed), "Memory saved and committed: \"m\"");
    assert_eq!(
        memory_save_message("m", &CommitOutcome::Failed(" nothing to commit \n".to_string())),
        "Memory saved to memory/MEMORY.md but git commit failed: nothing to commit. The file was still written."
    );
    assert_eq!(
        memory_save_message("m", &CommitOutcome::NotRun),
        "Memory saved to memory/MEMORY.md but git commit failed. The file was still written."
    );
}

#[test]
fn declarative_tools() {
    let schema = DataValue::obj1("type", DataValue::text("object"));
    assert_eq!(build_json_schema(&schema).get_str("type"), Some("object".to_string()));
    let t = declarative_tool("greet".to_string(), "Greets".to_string(), &schema, "greet.sh", None, "/a/tools", "/a");
    assert_eq!(t.script_path, "/a/tools/greet.sh");
    assert_eq!(t.runtime, "sh");
    let t = declarative_tool("g".to_string(), "d".to_string(), &schema, "g.py", Some("python3".to_string()), "/a/tools", "/a");
    assert_eq!(t.runtime, "python3");
    assert!(is_tool_file("x.yaml"));
    assert!(is_tool_file("x.yml"));
    assert!(!is_tool_file("x.json"));
}

#[test]
fn declarative_tool_output() {
    assert_eq!(tool_output_text("  hello \n"), "hello");
    assert_eq!(tool_output_text("{\"text\": \"hi\"}"), "hi");
    assert_eq!(tool_output_text("{\"result\": \"done\"}"), "done");
    assert_eq!(tool_output_text("{\"result\": {\"b\": 1, \"a\": [true]}}"), "{\"a\":[true],\"b\":1}");
    assert_eq!(tool_output_text("{\"other\": 1}"), "{\"other\": 1}");
    assert_eq!(tool_output_text("[1, 2]"), "[1, 2]");
    assert_eq!(tool_output_text("   "), "(no output)");
    assert_eq!(tool_output_text("{\"text\": \"\"}"), "(no output)");
    assert_eq!(tool_start_error("t", "nope"), "Tool \"t\" failed to start: nope");
    assert_eq!(tool_timeout_error("t"), "Tool \"t\" timed out after 120s");
    assert_eq!(tool_failed_error("t", "io"), "Tool \"t\" failed: io");
    assert_eq!(tool_exit_error("t", 3, " bad \n"), "Tool \"t\" exited with code 3: bad");
}

#[test]
fn page_cuts_between_characters_only() {
    let wide = format!("{}é{}", "a".repeat(99_999), "b".repeat(10));
    let p = paginate_lines(&wide, None, None).unwrap();
    assert_eq!(p.text, "a".repeat(99_999));
    assert!(p.has_more);
    let narrow = "a".repeat(100_010);
    let p = paginate_lines(&narrow, None, None).unwrap();
    assert_eq!(p.text.len(), 100_000);
    assert!(p.has_more);
}

#[test]
fn a_small_text_reads_back_whole() {
    let text = "first
second

last line é
";
    let p = paginate_lines(text, None, None).unwrap();
    assert_eq!(p.text, text);
    assert!(!p.has_more);
    assert_eq!(p.shown_range, (1, 5));
    assert_eq!(page_text(&p), text);
}

#[test]
fn huge_limit_reads_to_the_end() {
    let p = paginate_lines("a\nb\nc", Some(2), Some(usize::MAX)).unwrap();
    assert_eq!(p.text, "b\nc");
    assert_eq!(p.shown_range, (2, 3));
    assert_eq!(p.total_lines, 3);
    assert!(!p.has_more);
}

#[test]
fn builtin_tools_share_the_directory() {
    let config = gitclaw::tools::BuiltinToolsConfig { dir: "/w".to_string(), timeout: None };
    let (cli, read, write, memory) = gitclaw::tools::builtin_tools(&config);
    assert_eq!(cli.cwd, "/w");
    assert_eq!(cli.default_timeout, 120);
    assert_eq!(read.cwd, "/w");
    assert_eq!(write.cwd, "/w");
    assert_eq!(memory.cwd, "/w");
    let config = gitclaw::tools::BuiltinToolsConfig { dir: "/x".to_string(), timeout: Some(5) };
    assert_eq!(gitclaw::tools::builtin_tools(&config).0.default_timeout, 5);
}
