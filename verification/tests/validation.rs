use gitclaw::ai_types::{Tool, ToolCall};
use gitclaw::data::DataValue;
use gitclaw::errors::PiAiError;
use gitclaw::validation::{check_outcome, validate_tool_arguments, validate_tool_call};

fn name_schema() -> DataValue {
    DataValue::obj3(
        "type",
        DataValue::text("object"),
        "properties",
        DataValue::obj1("name", DataValue::obj1("type", DataValue::text("string"))),
        "required",
        DataValue::list(vec![DataValue::text("name")]),
    )
}

fn test_tool() -> Tool {
    Tool { name: "test".to_string(), description: "test tool".to_string(), parameters: name_schema() }
}

#[test]
fn test_validate_valid_args() {
    let tool = test_tool();
    let tool_call = ToolCall {
        id: "tc1".to_string(),
        name: "test".to_string(),
        arguments: vec![("name".to_string(), DataValue::text("hello"))],
        thought_signature: None,
    };
    let result = validate_tool_arguments(&tool, &tool_call);
    assert!(result.is_ok());
}

#[test]
fn test_validate_missing_required() {
    let tool = test_tool();
    let tool_call = ToolCall {
        id: "tc1".to_string(),
        name: "test".to_string(),
        arguments: vec![],
        thought_signature: None,
    };
    let result = validate_tool_arguments(&tool, &tool_call);
    assert!(result.is_err());
}

#[test]
fn validated_arguments_come_back_as_an_object() {
    let tool_call = ToolCall {
        id: "tc1".to_string(),
        name: "test".to_string(),
        arguments: vec![("name".to_string(), DataValue::text("hello"))],
        thought_signature: None,
    };
    let v = validate_tool_call(&[test_tool()], &tool_call).ok().unwrap();
    assert_eq!(v.get_str("name"), Some("hello".to_string()));
}

#[test]
fn unknown_tool_is_reported_by_name() {
    let tool_call = ToolCall { id: "1".to_string(), name: "nope".to_string(), arguments: vec![], thought_signature: None };
    match validate_tool_call(&[test_tool()], &tool_call) {
        Err(PiAiError::ToolNotFound(n)) => assert_eq!(n, "nope"),
        _ => panic!("expected ToolNotFound"),
    }
}

#[test]
fn wrong_type_fails_validation_with_listing() {
    let tool_call = ToolCall {
        id: "1".to_string(),
        name: "test".to_string(),
        arguments: vec![("name".to_string(), DataValue::from_u64(3))],
        thought_signature: None,
    };
    match validate_tool_arguments(&test_tool(), &tool_call) {
        Err(PiAiError::Validation(t)) => {
            assert!(t.starts_with("Validation failed for tool \"test\":\n  - /name: "));
            assert!(t.contains("\n\nReceived arguments:\n"));
        },
        _ => panic!("expected a validation error"),
    }
}

#[test]
fn check_outcome_lists_violations_with_root_path() {
    let args = DataValue::obj1("a", DataValue::from_u64(1));
    let check = Ok(vec![
        ("".to_string(), "\"name\" is a required property".to_string()),
        ("/a".to_string(), "1 is not of type \"string\"".to_string()),
    ]);
    match check_outcome("t", args, check) {
        Err(PiAiError::Validation(text)) => {
            assert_eq!(
                text,
                "Validation failed for tool \"t\":\n  - root: \"name\" is a required property\n  - /a: 1 is not of type \"string\"\n\nReceived arguments:\n{\n  \"a\": 1\n}"
            );
        },
        _ => panic!("expected a validation error"),
    }
}

#[test]
fn check_outcome_passes_arguments_through() {
    let args = DataValue::obj1("a", DataValue::from_u64(1));
    let r = check_outcome("t", args, Ok(vec![])).ok().unwrap();
    assert_eq!(r.get_u64("a"), Some(1));
}

#[test]
fn check_outcome_reports_invalid_schema() {
    let r = check_outcome("t", DataValue::Null, Err("bad schema".to_string()));
    match r {
        Err(PiAiError::Validation(text)) => assert_eq!(text, "Invalid schema for tool \"t\": bad schema"),
        _ => panic!("expected a validation error"),
    }
}

#[test]
fn invalid_schema_is_reported() {
    let tool = Tool {
        name: "bad".to_string(),
        description: String::new(),
        parameters: DataValue::obj1("type", DataValue::text("no-such-type")),
    };
    let tool_call = ToolCall { id: "1".to_string(), name: "bad".to_string(), arguments: vec![], thought_signature: None };
    match validate_tool_arguments(&tool, &tool_call) {
        Err(PiAiError::Validation(text)) => assert!(text.starts_with("Invalid schema for tool \"bad\": ")),
        _ => panic!("expected an invalid schema"),
    }
}

#[test]
fn error_texts() {
    assert_eq!(PiAiError::NoProvider("x".to_string()).to_string(), "No API provider registered for api: x");
    assert_eq!(
        PiAiError::MismatchedApi { actual: "a".to_string(), expected: "b".to_string() }.to_string(),
        "Mismatched api: a expected b"
    );
    assert_eq!(PiAiError::Aborted.to_string(), "Aborted");
    assert_eq!(PiAiError::Other("plain".to_string()).to_string(), "plain");
    assert_eq!(PiAiError::ApiKeyNotFound("p".to_string()).to_string(), "API key not found for provider: p");
    let e: gitclaw::errors::AgentError = PiAiError::Aborted.into();
    assert_eq!(e.to_string(), "AI error: Aborted");
    assert_eq!(gitclaw::errors::AgentError::AlreadyStreaming.to_string(), "Agent is already streaming");
    assert_eq!(gitclaw::errors::AgentError::ToolExecution("x".to_string()).to_string(), "Tool execution failed: x");
}
