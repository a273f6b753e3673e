use cats::params::{params_from_positional, FieldKind, ParamSource, PositionalField};
use cats::parse::{parse_bool, parse_u64, parse_usize};
use cats::tool_core::{ParamValue, ToolArgs, ToolError, ToolResult};

#[test]
fn test_tool_args_creation() {
    let args = ToolArgs::from_args(&["arg1", "arg2"]);
    assert_eq!(args.len(), 2);
    assert_eq!(args.get_arg(0), Some(&"arg1".to_string()));
    assert_eq!(args.get_arg(1), Some(&"arg2".to_string()));
}

#[test]
fn test_tool_result_creation() {
    let result = ToolResult::success("Test message".to_string());
    assert!(result.success);
    assert_eq!(result.message, "Test message");
    assert!(result.data.is_none());

    let error_result = ToolResult::error("Error message".to_string());
    assert!(!error_result.success);
    assert_eq!(error_result.message, "Error message");
}

#[test]
fn tool_result_with_data_keeps_data() {
    let ok = ToolResult::success_with_data("done".to_string(), ParamValue::Unsigned(7));
    assert!(ok.success);
    assert!(matches!(ok.data, Some(ParamValue::Unsigned(7))));
    let bad = ToolResult::error_with_data("no".to_string(), ParamValue::Bool(false));
    assert!(!bad.success);
    assert!(matches!(bad.data, Some(ParamValue::Bool(false))));
}

#[test]
fn from_args_separates_named_and_positional() {
    let args = ToolArgs::from_args(&["file.txt", "--content=hello world", "--flag", "--k=a=b"]);
    assert_eq!(args.len(), 1);
    assert!(!args.is_empty());
    assert_eq!(args.get_arg(0), Some(&"file.txt".to_string()));
    assert_eq!(args.get_arg(1), None);
    assert_eq!(args.get_named_arg("content"), Some(&"hello world".to_string()));
    assert_eq!(args.get_named_arg("flag"), Some(&"true".to_string()));
    assert_eq!(args.get_named_arg("k"), Some(&"a=b".to_string()));
    assert_eq!(args.get_named_arg("missing"), None);
}

#[test]
fn later_named_argument_wins() {
    let args = ToolArgs::from_args(&["--x=1", "--x=2"]);
    assert!(args.is_empty());
    assert_eq!(args.get_named_arg("x"), Some(&"2".to_string()));
}

#[test]
fn with_named_args_keeps_what_it_is_given() {
    let args = ToolArgs::with_named_args(
        vec!["a".to_string()],
        vec![("k".to_string(), "v".to_string())],
    );
    assert_eq!(args.len(), 1);
    assert_eq!(args.get_named_arg("k"), Some(&"v".to_string()));
}

#[test]
fn parse_numbers_and_booleans() {
    assert_eq!(parse_usize("42"), Some(42));
    assert_eq!(parse_usize("+7"), Some(7));
    assert_eq!(parse_usize("007"), Some(7));
    assert_eq!(parse_usize(""), None);
    assert_eq!(parse_usize("+"), None);
    assert_eq!(parse_usize("-1"), None);
    assert_eq!(parse_usize("12a"), None);
    assert_eq!(parse_usize(" 1"), None);
    assert_eq!(parse_u64("18446744073709551615"), Some(u64::MAX));
    assert_eq!(parse_u64("18446744073709551616"), None);
    assert_eq!(parse_u64("99999999999999999999999"), None);
    assert_eq!(parse_bool("true"), Some(true));
    assert_eq!(parse_bool("false"), Some(false));
    assert_eq!(parse_bool("True"), None);
}

#[test]
fn positional_parameters_follow_their_fields() {
    let fields = vec![
        PositionalField { name: "path", kind: FieldKind::Text },
        PositionalField { name: "line", kind: FieldKind::Number },
        PositionalField { name: "occurrence", kind: FieldKind::OptionalNumber },
        PositionalField { name: "recursive", kind: FieldKind::OptionalFlag },
    ];
    let args = vec!["a.txt".to_string(), "3".to_string(), "x".to_string(), "true".to_string()];
    let params = params_from_positional(&args, &fields).unwrap();
    assert_eq!(params.len(), 3);
    assert_eq!(params[0].0, "path");
    assert!(matches!(&params[0].1, ParamValue::Str(s) if s == "a.txt"));
    assert_eq!(params[1].0, "line");
    assert!(matches!(params[1].1, ParamValue::Unsigned(3)));
    assert_eq!(params[2].0, "recursive");
    assert!(matches!(params[2].1, ParamValue::Bool(true)));

    let bad = vec!["a.txt".to_string(), "three".to_string()];
    match params_from_positional(&bad, &fields) {
        Err(ToolError::InvalidArgs { message }) => {
            assert_eq!(message, "Invalid line - must be a number")
        }
        _ => panic!("an argument that is no number must be refused"),
    }
}

#[test]
fn json_named_argument_is_handed_back_for_decoding() {
    let tool = cats::ReplaceTextTool::new();
    let args = ToolArgs::with_named_args(
        vec![],
        vec![("json".to_string(), "{\"path\": \"a\"}".to_string())],
    );
    match tool.parse_params(&args) {
        Ok(ParamSource::Json(text)) => assert_eq!(text, "{\"path\": \"a\"}"),
        _ => panic!("JSON text must be handed back as it is"),
    }
    assert!(tool.validate_args(&args).is_ok());
}

#[test]
fn errors_have_messages() {
    assert_eq!(
        ToolError::FileNotFound { path: "a.txt".to_string() }.message(),
        "File not found: a.txt"
    );
    assert_eq!(
        ToolError::InvalidArgs { message: "no".to_string() }.message(),
        "Invalid arguments: no"
    );
    assert_eq!(ToolError::ToolNotFound { name: "x".to_string() }.message(), "Tool not found: x");
    assert_eq!(ToolError::Io { message: "disk".to_string() }.message(), "IO error: disk");
    assert_eq!(ToolError::Json { message: "eof".to_string() }.message(), "JSON error: eof");
    assert_eq!(
        ToolError::LintingFailed { errors: vec!["a".to_string(), "b\"c".to_string()] }.message(),
        "Linting failed: [\"a\", \"b\\\"c\"]"
    );
    match cats::search::FindFileTool::glob_to_regex("[z-a]") {
        Err(e) => {
            let text = e.message();
            assert!(text.starts_with("Regex error: "));
            assert!(text.len() > "Regex error: ".len());
        }
        Ok(_) => panic!("an invalid class must be reported"),
    }
}
