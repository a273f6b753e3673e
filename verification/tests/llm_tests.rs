use cats::llm::assistant::{generate_assistant_content, ToolCallInfo};
use cats::llm::converter::json_to_tool_args;
use cats::llm::executor::{
    format_failure, format_report_entry, join_reports, CallFailure, ExecutionCallback,
    NoOpCallback, ToolCallRequest, ToolExecutionResult,
};
use cats::llm::result_handler::{handle_large_result, ResultHandlerConfig};
use cats::tool_core::ParamValue;

fn object(fields: Vec<(&str, ParamValue)>) -> ParamValue {
    ParamValue::Object {
        fields: fields.into_iter().map(|(k, v)| (k.to_string(), v)).collect(),
        text: String::new(),
    }
}

fn text(s: &str) -> ParamValue {
    ParamValue::Str(s.to_string())
}

#[test]
fn test_handle_large_result_small() {
    let config = ResultHandlerConfig::default();
    let small_result = "This is a small result";
    let processed = handle_large_result("test_tool", small_result, &config);

    assert_eq!(processed, small_result);
}

#[test]
fn test_handle_large_result_large_with_truncation() {
    let config = ResultHandlerConfig {
        max_size_bytes: 1000,
        truncate_enabled: true,
    };

    // Create a result that exceeds the size limit
    let large_result = "x".repeat(1500);
    let processed = handle_large_result("test_tool", &large_result, &config);

    // Should be truncated and contain warning
    assert!(processed.contains("⚠️ WARNING: Tool result was truncated"));
    assert!(processed.len() < large_result.len() + 500); // Accounting for warning message
}

#[test]
fn test_handle_large_result_large_without_truncation() {
    let config = ResultHandlerConfig {
        max_size_bytes: 1000,
        truncate_enabled: false,
    };

    // Create a result that exceeds the size limit
    let large_result = "x".repeat(1500);
    let processed = handle_large_result("test_tool", &large_result, &config);

    // Should not include the actual result, just warning
    assert!(processed.contains("⚠️ RESULT TOO LARGE"));
    assert!(!processed.contains("xxx")); // Original content not included
}

#[test]
fn large_result_is_cut_at_the_limit_with_exact_warning() {
    let config = ResultHandlerConfig { max_size_bytes: 4, truncate_enabled: true };
    assert_eq!(
        handle_large_result("t", "abcdefgh", &config),
        "abcd\n\n⚠️ WARNING: Tool result was truncated due to size limit (8 bytes > 4 bytes). The result may be incomplete. Please refine your query to get more specific information or use more targeted search parameters to reduce result size."
    );
    assert_eq!(handle_large_result("t", "abcd", &config), "abcd");
    let off = ResultHandlerConfig { max_size_bytes: 4, truncate_enabled: false };
    assert_eq!(
        handle_large_result("grep", "abcdefgh", &off),
        "⚠️ RESULT TOO LARGE: Tool 'grep' returned 8 bytes (limit: 4 bytes). The result was not included to prevent API payload errors. Please refine your query to be more specific and reduce the result size. Consider using:\n- More specific search terms\n- Smaller file ranges\n- Targeted grep patterns\n- Pagination or limited result counts"
    );
}

#[test]
fn large_result_is_cut_between_characters() {
    let config = ResultHandlerConfig { max_size_bytes: 4, truncate_enabled: true };
    let processed = handle_large_result("t", "aéééé", &config);
    assert!(processed.starts_with("aé\n\n"));
    assert!(processed.contains("(9 bytes > 4 bytes)"));
    let zero = ResultHandlerConfig { max_size_bytes: 0, truncate_enabled: true };
    assert!(handle_large_result("t", "é", &zero).starts_with("\n\n"));
}

#[test]
fn default_result_limit() {
    let config = ResultHandlerConfig::default();
    assert_eq!(config.max_size_bytes, 256000);
    assert!(config.truncate_enabled);
}

#[test]
fn test_generate_assistant_content_single() {
    let tool_call = ToolCallInfo::new(
        "read_file".to_string(),
        "{\"path\": \"/test/file.txt\"}".to_string(),
    );
    let decoded = Some(object(vec![("path", text("/test/file.txt"))]));
    let content = generate_assistant_content(&[tool_call], &decoded);
    assert!(content.contains("I'll read the file at `/test/file.txt`"));
}

#[test]
fn test_generate_assistant_content_multiple() {
    let tool_calls = vec![
        ToolCallInfo::new("read_file".to_string(), "{}".to_string()),
        ToolCallInfo::new("write_file".to_string(), "{}".to_string()),
    ];
    let content = generate_assistant_content(&tool_calls, &Some(object(vec![])));
    assert!(content.contains("I'll help you with that by using read_file and write_file"));
}

#[test]
fn test_generate_assistant_content_classify() {
    let tool_call = ToolCallInfo::new(
        "classify_task".to_string(),
        "{\"task_type\": \"bug_fix\"}".to_string(),
    );
    let decoded = Some(object(vec![("task_type", text("bug_fix"))]));
    let content = generate_assistant_content(&[tool_call], &decoded);
    assert!(content.contains("analyze and classify"));
}

#[test]
fn test_generate_assistant_content_empty() {
    let content = generate_assistant_content(&[], &None);
    assert_eq!(content, "");
}

#[test]
fn assistant_content_for_each_kind_of_call() {
    let one = |name: &str, decoded: Option<ParamValue>| {
        generate_assistant_content(&[ToolCallInfo::new(name.to_string(), String::new())], &decoded)
    };
    assert_eq!(
        one("classify_task", None),
        format!("{}{}", "I'll analyze and classify this ", "task to determine the best approach.")
    );
    assert_eq!(one("open", None), "I'll read the file for you.");
    assert_eq!(one("open", Some(object(vec![]))), "I'll read the specified file.");
    assert_eq!(one("open", Some(ParamValue::Unsigned(3))), "I'll read the specified file.");
    assert_eq!(
        one("create_file", Some(object(vec![("path", text("a.txt"))]))),
        "I'll write content to `a.txt`."
    );
    assert_eq!(one("overwrite_file", None), "I'll write the file for you.");
    assert_eq!(one("write_file", Some(object(vec![("path", ParamValue::Bool(true))]))),
        "I'll write to the specified file.");
    assert_eq!(one("create_directory", None), "I'll create the directory structure you need.");
    assert_eq!(
        one("run_command", Some(object(vec![("command", text("ls -la"))]))),
        "I'll execute the command: `ls -la`"
    );
    assert_eq!(one("execute_command", Some(object(vec![]))), "I'll execute the specified command.");
    assert_eq!(one("run_command", None), "I'll execute the command for you.");
    assert_eq!(one("submit", None), "Task completed successfully.");
    assert_eq!(one("goto", None), "I'll use the goto tool to help with your request.");
    let three = vec![
        ToolCallInfo::new("a".to_string(), String::new()),
        ToolCallInfo::new("b".to_string(), String::new()),
        ToolCallInfo::new("c".to_string(), String::new()),
    ];
    assert_eq!(
        generate_assistant_content(&three, &None),
        "I'll work on this using multiple tools: a, b, c."
    );
}

#[test]
fn test_json_to_tool_args_simple() {
    let args = object(vec![("path", text("/test/file.txt")), ("line_number", ParamValue::Unsigned(42))]);

    let tool_args = json_to_tool_args("open", &args);
    let positional = &tool_args.args;

    assert_eq!(positional.len(), 2);
    assert_eq!(positional[0], "/test/file.txt");
    assert_eq!(positional[1], "42");
}

#[test]
fn test_json_to_tool_args_edit_tool() {
    let args = object(vec![
        ("path", text("/test/file.txt")),
        ("old_text", text("old content")),
        ("new_text", text("new content")),
        ("mode", text("replace")),
    ]);

    let tool_args = json_to_tool_args("edit", &args);
    let positional = &tool_args.args;

    assert_eq!(positional.len(), 3);
    assert_eq!(positional[0], "/test/file.txt");
    assert_eq!(positional[1], "old content");
    assert_eq!(positional[2], "new content");

    assert!(tool_args.get_named_arg("mode").is_some());
    assert_eq!(tool_args.get_named_arg("mode").unwrap(), "replace");
}

#[test]
fn test_json_to_tool_args_copy_path() {
    let args = object(vec![
        ("source", text("templates/system_classification.md")),
        ("destination", text("templates/system.md")),
        ("recursive", ParamValue::Bool(false)),
    ]);

    let tool_args = json_to_tool_args("copy_path", &args);
    let positional = &tool_args.args;

    // Expect positional args populated in order: source, destination, recursive
    assert!(positional.len() >= 2);
    assert_eq!(positional[0], "templates/system_classification.md");
    assert_eq!(positional[1], "templates/system.md");
    // Recursive may be present as third positional arg
    if positional.len() >= 3 {
        assert_eq!(positional[2], "false");
    }

    // Also expect named args to include the keys that the tool requires
    assert!(tool_args.get_named_arg("source").is_some());
    assert!(tool_args.get_named_arg("destination").is_some());
    assert!(tool_args.get_named_arg("recursive").is_some());
}

#[test]
fn test_json_to_tool_args_classify_task() {
    let args = object(vec![("task_type", text("maintenance"))]);

    let tool_args = json_to_tool_args("classify_task", &args);
    let positional = &tool_args.args;
    let named = &tool_args.named_args;

    // classify_task expects positional arguments, not named
    assert_eq!(positional.len(), 1);
    assert_eq!(positional[0], "maintenance");
    assert!(named.is_empty()); // Should not have any named args for classify_task

    // Test all valid task types
    for task_type in &["bug_fix", "feature", "maintenance", "query"] {
        let args = object(vec![("task_type", text(task_type))]);
        let tool_args = json_to_tool_args("classify_task", &args);
        assert_eq!(tool_args.args.len(), 1);
        assert_eq!(tool_args.args[0], *task_type);
    }
}

#[test]
fn conversion_of_other_tools() {
    let a = json_to_tool_args(
        "delete_text",
        &object(vec![("path", text("f")), ("text", text("x")), ("occurrence", ParamValue::Unsigned(2))]),
    );
    assert_eq!(a.args, vec!["f", "x", "2"]);
    let b = json_to_tool_args(
        "delete_function",
        &object(vec![("path", text("m.rs")), ("function_name", text("go"))]),
    );
    assert_eq!(b.args, vec!["m.rs", "go"]);
    let c = json_to_tool_args("move_path", &object(vec![("src", text("a")), ("dest", text("b"))]));
    assert_eq!(c.args, vec!["a", "b"]);
    assert_eq!(c.get_named_arg("source"), Some(&"a".to_string()));
    assert_eq!(c.get_named_arg("destination"), Some(&"b".to_string()));
    let d = json_to_tool_args(
        "open",
        &object(vec![("path", ParamValue::Unsigned(3)), ("line_number", text("7"))]),
    );
    assert!(d.args.is_empty());
    let e = json_to_tool_args("submit", &object(vec![("x", text("y"))]));
    assert!(e.args.is_empty());
    assert!(e.named_args.is_empty());
    let f = json_to_tool_args("open", &ParamValue::Str("not an object".to_string()));
    assert!(f.args.is_empty());
    assert!(f.named_args.is_empty());
    let g = json_to_tool_args(
        "something_else",
        &object(vec![
            ("s", text("v")),
            ("b", ParamValue::Bool(true)),
            ("n", ParamValue::Unsigned(12)),
            ("f", ParamValue::Fraction { numerator: 1, denominator: 2, text: "0.5".to_string() }),
            ("o", ParamValue::Other { text: "null".to_string() }),
            ("m", ParamValue::Object { fields: vec![], text: "{}".to_string() }),
        ]),
    );
    assert!(g.args.is_empty());
    assert_eq!(g.get_named_arg("s"), Some(&"v".to_string()));
    assert_eq!(g.get_named_arg("b"), Some(&"true".to_string()));
    assert_eq!(g.get_named_arg("n"), Some(&"12".to_string()));
    assert_eq!(g.get_named_arg("f"), Some(&"0.5".to_string()));
    assert_eq!(g.get_named_arg("o"), Some(&"null".to_string()));
    assert_eq!(g.get_named_arg("m"), Some(&"{}".to_string()));
}

#[test]
fn execution_reports() {
    assert_eq!(
        format_failure(CallFailure::Parse, "open", "bad json"),
        "Failed to parse tool arguments for open: bad json"
    );
    assert_eq!(
        format_failure(CallFailure::Convert, "open", "e"),
        "Failed to convert arguments for open: e"
    );
    assert_eq!(
        format_failure(CallFailure::Execution, "open", "e"),
        "Tool execution failed for open: e"
    );
    assert_eq!(format_report_entry("open", "fine", true), "Tool: open\nResult: fine");
    assert_eq!(format_report_entry("open", "bad", false), "Tool: open\nError: bad");
    assert_eq!(join_reports(&vec![]), "");
    assert_eq!(join_reports(&vec!["a".to_string()]), "a");
    assert_eq!(join_reports(&vec!["a".to_string(), "b".to_string(), "c".to_string()]), "a\n\nb\n\nc");
}

#[test]
fn requests_and_results_hold_their_fields() {
    let r = ToolCallRequest::new("call_1".to_string(), "_state".to_string(), "{}".to_string());
    assert_eq!((r.id.as_str(), r.name.as_str(), r.arguments.as_str()), ("call_1", "_state", "{}"));
    let res = ToolExecutionResult {
        tool_call_id: r.id.clone(),
        tool_name: r.name.clone(),
        content: "ok".to_string(),
        success: true,
    };
    assert!(res.success);
    let mut cb = NoOpCallback;
    cb.on_tool_start("a", "{}");
    cb.on_tool_complete("a", "{}", "r", true);
    cb.on_compact_log("{}");
}
