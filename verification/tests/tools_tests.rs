use cats::editing::management_tools::{CopyAction, DeleteAction, DeletePathRequest, CopyPathRequest};
use cats::editing::specialized_tools::{
    DeleteFunctionOutcome, DeleteFunctionRequest, DeleteLineRequest, DeleteTextRequest,
    InsertTextOutcome, InsertTextRequest, ReplaceTextRequest,
};
use cats::editing::lines::LineRangeError;
use cats::editing::literal::ReplaceTextOutcome;
use cats::editing::{EditMode, EditRequest, EditTool};
use cats::editing::apply::ReplaceOutcome;
use cats::editing::similarity::Ratio;
use cats::execution::RunCommandTool;
use cats::search::filtering::{ConfigurableFilter, SearchFilteringConfig};
use cats::tool_core::{ParamValue, ToolArgs, ToolError};
use cats::{
    CopyPathTool, CreateDirectoryTool, CreateFileTool, DeleteFunctionTool, DeleteLineTool,
    DeletePathTool, DeleteTextTool, InsertTextTool, MovePathTool, OverwriteFileTool,
    ReplaceTextTool,
};

fn named(pairs: &[(&str, &str)]) -> ToolArgs {
    ToolArgs::with_named_args(
        vec![],
        pairs.iter().map(|(k, v)| (k.to_string(), v.to_string())).collect(),
    )
}

fn text(s: &str) -> ParamValue {
    ParamValue::Str(s.to_string())
}

fn invalid_args(r: Result<(), ToolError>) -> String {
    match r {
        Err(ToolError::InvalidArgs { message }) => message,
        _ => panic!("the arguments should have been refused"),
    }
}

#[test]
fn test_edit_tool_mode_validation() {
    let tool = EditTool::new();

    // Test create mode validation (should require new_text)
    let mut args = vec![
        ("path".to_string(), "/tmp/test.txt".to_string()),
        ("mode".to_string(), "create".to_string()),
    ];
    let tool_args = ToolArgs::with_named_args(vec![], args.clone());

    // This should fail validation because new_text is missing for create mode
    // But that's handled in execute, not validate_args
    assert!(tool.validate_args(&tool_args).is_ok());

    // Test insert mode validation (should require new_text and line_number)
    args.push(("mode".to_string(), "insert".to_string()));
    let tool_args = ToolArgs::with_named_args(vec![], args);
    assert!(tool.validate_args(&tool_args).is_ok());
}

#[test]
fn test_run_command_tool_creation() {
    let tool = RunCommandTool::new();
    assert_eq!(tool.name(), "run_command");
    assert!(!tool.description().is_empty());
    assert!(!tool.signature().is_empty());
}

#[test]
fn test_run_command_validation() {
    let tool = RunCommandTool::new();

    // Test empty arguments
    let empty_args = ToolArgs::from_args(&[]);
    assert!(tool.validate_args(&empty_args).is_err());

    // Test valid arguments
    let valid_args = ToolArgs::from_args(&["echo hello"]);
    assert!(tool.validate_args(&valid_args).is_ok());

    // Test named argument
    let named_args = vec![("command".to_string(), "echo hello".to_string())];
    let named_tool_args = ToolArgs::with_named_args(vec![], named_args);
    assert!(tool.validate_args(&named_tool_args).is_ok());
}

#[test]
fn test_dangerous_command_detection() {
    let tool = RunCommandTool::new();

    assert!(tool.is_dangerous_command("rm -rf /"));
    assert!(tool.is_dangerous_command("sudo rm -f important.txt"));
    assert!(tool.is_dangerous_command("shutdown now"));
    assert!(!tool.is_dangerous_command("echo hello"));
    assert!(!tool.is_dangerous_command("ls -la"));
    assert!(!tool.is_dangerous_command("cargo build"));
}

#[test]
fn dangerous_commands_are_found_in_any_case() {
    let tool = RunCommandTool::new();
    assert!(tool.is_dangerous_command("SHUTDOWN -h"));
    assert!(tool.is_dangerous_command("Sudo RM x"));
    assert!(!tool.is_dangerous_command(""));
}

#[test]
fn run_command_configuration() {
    assert_eq!(RunCommandTool::new().timeout_seconds, 120);
    assert_eq!(RunCommandTool::new_with_timeout(5).timeout_seconds, 5);
    assert_eq!(RunCommandTool::new_with_workdir("/tmp").working_dir, "/tmp");
    let tool = RunCommandTool::new();
    let args = ToolArgs::from_args(&["ls"]);
    assert_eq!(tool.command(&args), Some(&"ls".to_string()));
    assert_eq!(tool.command(&named(&[("command", "pwd")])), Some(&"pwd".to_string()));
    assert_eq!(tool.command(&ToolArgs::from_args(&[])), None);
    assert_eq!(tool.history_record("ls"), "run_command: ls");
}

#[test]
fn command_reports() {
    let tool = RunCommandTool::new();
    assert_eq!(
        tool.format_output("", "", true, Some(0)),
        "Command executed successfully with no output (exit code: 0)"
    );
    assert_eq!(
        tool.format_output("out", "", true, Some(0)),
        "Command executed successfully:\nstdout:\nout"
    );
    assert_eq!(
        tool.format_output("out", "err", true, Some(0)),
        "Command executed successfully:\nstdout:\nout\nstderr:\nerr"
    );
    assert_eq!(
        tool.format_output("", "err", true, Some(0)),
        "Command executed successfully:\nstderr:\nerr"
    );
    assert_eq!(
        tool.format_output("o", "e", false, Some(127)),
        "Command failed with exit code 127:\nstdout: o\nstderr: e"
    );
    assert_eq!(
        tool.format_output("", "", false, None),
        "Command failed with exit code -1:\nstdout: \nstderr: "
    );
}

#[test]
fn default_excludes_common_dirs() {
    let filter = ConfigurableFilter::new(Some(SearchFilteringConfig::default()));
    assert!(!filter.should_include_path("target"));
    assert!(!filter.should_include_path("node_modules"));
    assert!(filter.should_include_path("src"));
    // Component match: containing a protected component should be excluded
    assert!(!filter.should_include_path("some/.git/config"));
}

#[test]
fn disabled_filter_allows_everything() {
    let cfg = SearchFilteringConfig {
        enabled: Some(false),
        exclude_dirs: None,
        exclude_extensions: None,
        exclude_hidden: None,
    };
    let filter = ConfigurableFilter::new(Some(cfg));
    assert!(filter.should_include_path("target"));
    assert!(filter.should_include_path(".git"));
    assert!(filter.should_include_path("binary.exe"));
}

#[test]
fn extension_exclusion_works() {
    let cfg = SearchFilteringConfig {
        enabled: Some(true),
        exclude_dirs: None,
        exclude_extensions: Some(vec!["exe".to_string()]),
        exclude_hidden: Some(true),
    };
    let filter = ConfigurableFilter::new(Some(cfg));
    assert!(!filter.should_include_path("run.exe"));
    assert!(filter.should_include_path("run.rs"));
}

#[test]
fn hidden_files_excluded_when_enabled() {
    let cfg = SearchFilteringConfig {
        enabled: Some(true),
        exclude_dirs: None,
        exclude_extensions: None,
        exclude_hidden: Some(true),
    };
    let filter = ConfigurableFilter::new(Some(cfg));
    assert!(!filter.should_include_path(".hiddenfile"));
    assert!(!filter.should_include_path("dir/.hidden"));
    assert!(filter.should_include_path("visible"));
}

#[test]
fn filter_defaults_and_edge_paths() {
    let filter = ConfigurableFilter::new(None);
    assert!(filter.is_enabled());
    assert!(filter.should_include_path("."));
    assert!(filter.should_include_path("./"));
    assert!(filter.should_include_path("./src/lib.rs"));
    assert!(!filter.should_include_path("a/b/IMAGE.PNG"));
    assert!(!filter.should_include_path("x/build/out.txt"));
    assert!(filter.should_include_path("x/builder/out.txt"));
    assert!(filter.should_include_path("archive.tar.gzz"));
    let no_hidden = ConfigurableFilter::new(Some(SearchFilteringConfig {
        enabled: None,
        exclude_dirs: None,
        exclude_extensions: None,
        exclude_hidden: Some(false),
    }));
    assert!(no_hidden.is_enabled());
    assert!(no_hidden.should_include_path(".hidden"));
}

#[test]
fn test_create_directory_tool() {
    let tool = CreateDirectoryTool::new();
    assert_eq!(tool.name(), "create_directory");
    let args = named(&[("path", "/tmp/new_dir/sub_dir")]);
    assert!(tool.validate_args(&args).is_ok());
    assert_eq!(
        invalid_args(tool.validate_args(&named(&[("other", "x")]))),
        "Missing required parameter: path"
    );
    assert_eq!(
        invalid_args(tool.validate_args(&ToolArgs::from_args(&[]))),
        "Insufficient parameters"
    );
    assert!(tool.validate_args(&ToolArgs::from_args(&["/tmp/x"])).is_ok());
}

#[test]
fn tools_announce_their_names() {
    assert_eq!(DeletePathTool::new().name(), "delete_path");
    assert_eq!(MovePathTool::new().name(), "move_path");
    assert_eq!(CopyPathTool::new().name(), "copy_path");
    assert_eq!(CreateFileTool::new().name(), "create_file");
    assert_eq!(ReplaceTextTool::new().name(), "replace_text");
    assert_eq!(InsertTextTool::new().name(), "insert_text");
    assert_eq!(DeleteLineTool::new().name(), "delete_line");
    assert_eq!(DeleteTextTool::new().name(), "delete_text");
    assert_eq!(DeleteFunctionTool::new().name(), "delete_function");
    assert_eq!(OverwriteFileTool::new().name(), "overwrite_file");
    assert_eq!(EditTool::new().name(), "edit");
    assert_eq!(
        ReplaceTextTool::new().signature(),
        "replace_text(path: str, old_text: str, new_text: str, occurrence?: int)"
    );
    assert_eq!(DeleteLineTool::new().description(), "Delete a range of lines from a file (inclusive)");
}

#[test]
fn validation_names_the_first_missing_parameter() {
    let tool = ReplaceTextTool::new();
    assert_eq!(
        invalid_args(tool.validate_args(&named(&[("path", "a"), ("new_text", "b")]))),
        "Missing required parameter: old_text"
    );
    assert_eq!(
        invalid_args(tool.validate_args(&named(&[("old_text", "a")]))),
        "Missing required parameter: path"
    );
    assert!(tool
        .validate_args(&named(&[("path", "a"), ("old_text", "b"), ("new_text", "c")]))
        .is_ok());
    assert_eq!(
        invalid_args(tool.validate_args(&ToolArgs::from_args(&["a", "b"]))),
        "Insufficient parameters"
    );
    assert!(tool.validate_args(&ToolArgs::from_args(&["a", "b", "c", "2"])).is_ok());
    let del = DeleteFunctionTool::new();
    assert!(del.validate_args(&named(&[("path", "a.rs"), ("function_name", "f")])).is_ok());
    assert_eq!(
        invalid_args(del.validate_args(&named(&[("function_name", "f")]))),
        "Missing required parameter: file_name"
    );
    assert_eq!(
        invalid_args(del.validate_args(&named(&[("file_name", "a.rs")]))),
        "Missing required parameter: function_name"
    );
    let edit = EditTool::new();
    assert_eq!(
        invalid_args(edit.validate_args(&named(&[("path", "a")]))),
        "Missing required parameter: old_text"
    );
    assert_eq!(
        invalid_args(edit.validate_args(&ToolArgs::from_args(&["a"]))),
        "Invalid arguments. Use JSON format or provide path and old_text"
    );
    assert!(edit.validate_args(&named(&[("path", "a"), ("mode", "overwrite")])).is_ok());
}

#[test]
fn delete_line_reads_line_numbers_from_named_arguments() {
    let tool = DeleteLineTool::new();
    let args = named(&[("path", "a"), ("start_line", "2"), ("end_line", "4")]);
    assert!(tool.validate_args(&args).is_ok());
    match tool.parse_params(&args) {
        Ok(cats::params::ParamSource::Ready(p)) => {
            let req = DeleteLineRequest::from_params(&p).unwrap();
            assert_eq!(req.path, "a");
            assert_eq!(req.start_line, 2);
            assert_eq!(req.end_line, 4);
        }
        _ => panic!("named arguments give parameters"),
    }
    assert_eq!(
        invalid_args(tool.validate_args(&named(&[("path", "a"), ("start_line", "x")]))),
        "Invalid start_line - must be a number"
    );
    assert_eq!(
        invalid_args(tool.validate_args(&ToolArgs::from_args(&["a", "1", "z"]))),
        "Invalid end_line - must be a number"
    );
}

#[test]
fn requests_are_read_from_parameters() {
    let p = vec![
        ("path".to_string(), text("f.txt")),
        ("old_text".to_string(), text("a")),
        ("new_text".to_string(), text("b")),
        ("occurrence".to_string(), ParamValue::Unsigned(2)),
    ];
    let r = ReplaceTextRequest::from_params(&p).unwrap();
    assert_eq!((r.path.as_str(), r.old_text.as_str(), r.new_text.as_str()), ("f.txt", "a", "b"));
    assert_eq!(r.occurrence, Some(2));
    let missing = vec![("path".to_string(), text("f.txt"))];
    match ReplaceTextRequest::from_params(&missing) {
        Err(ToolError::InvalidArgs { message }) => assert_eq!(message, "Invalid old_text parameter"),
        _ => panic!("a request without old_text must be refused"),
    }
    let d = DeleteTextRequest::from_params(&vec![
        ("path".to_string(), text("f")),
        ("text_to_delete".to_string(), text("x")),
    ])
    .unwrap();
    assert_eq!(d.occurrence, None);
    let del = DeletePathRequest::from_params(&vec![("path".to_string(), text("f"))]).unwrap();
    assert!(!del.recursive);
    let copy = CopyPathRequest::from_params(&vec![
        ("source".to_string(), text("a")),
        ("destination".to_string(), text("b")),
    ])
    .unwrap();
    assert!(copy.recursive);
    let f = DeleteFunctionRequest::from_params(&vec![
        ("path".to_string(), text("m.rs")),
        ("function_name".to_string(), text("go")),
    ])
    .unwrap();
    assert_eq!(f.file_name, "m.rs");
    let ins = InsertTextRequest::from_params(&vec![
        ("path".to_string(), text("m.rs")),
        ("line_number".to_string(), text("2")),
        ("text".to_string(), text("x")),
    ])
    .unwrap();
    assert_eq!(ins.line_number, 2);
    assert_eq!(ins.position, "after_line");
    match InsertTextRequest::from_params(&vec![
        ("path".to_string(), text("m.rs")),
        ("line_number".to_string(), text("two")),
        ("text".to_string(), text("x")),
    ]) {
        Err(ToolError::InvalidArgs { message }) => {
            assert_eq!(message, "Invalid line_number parameter")
        }
        _ => panic!("a line number that is no number must be refused"),
    }
}

#[test]
fn edit_request_takes_defaults_and_options() {
    let p = vec![("path".to_string(), text("f.txt")), ("old_text".to_string(), text("a"))];
    let r = EditRequest::from_params(&p).unwrap();
    assert_eq!(r.mode, EditMode::Replace);
    assert_eq!(r.new_text, "");
    assert!(!r.preview);
    assert!(r.normalization.normalize_eol);
    assert!(!r.normalization.trim_lines);
    assert!(!r.normalization.normalize_whitespace);
    assert!(!r.normalization.ignore_case);
    assert!(!r.matching.regex);
    assert!(r.matching.fuzzy);
    assert_eq!(r.matching.fuzzy_threshold, Ratio { num: 4, den: 5 });
    assert_eq!(r.matching.context_lines, 3);
    assert_eq!(r.matching.max_matches, 10);

    let q = vec![
        ("path".to_string(), text("f.txt")),
        ("mode".to_string(), text("delete")),
        ("old_text".to_string(), text("a")),
        ("preview".to_string(), ParamValue::Bool(true)),
        (
            "normalization".to_string(),
            ParamValue::Object {
                fields: vec![
                    ("ignore_case".to_string(), ParamValue::Bool(true)),
                    ("normalize_eol".to_string(), ParamValue::Bool(false)),
                ],
                text: String::new(),
            },
        ),
        (
            "matching".to_string(),
            ParamValue::Object {
                fields: vec![
                    ("regex".to_string(), ParamValue::Bool(true)),
                    ("fuzzy".to_string(), ParamValue::Bool(false)),
                    (
                        "fuzzy_threshold".to_string(),
                        ParamValue::Fraction { numerator: 9, denominator: 10, text: "0.9".to_string() },
                    ),
                    ("context_lines".to_string(), ParamValue::Unsigned(1)),
                    ("max_matches".to_string(), ParamValue::Unsigned(2)),
                ],
                text: String::new(),
            },
        ),
    ];
    let r = EditRequest::from_params(&q).unwrap();
    assert_eq!(r.mode, EditMode::Delete);
    assert!(r.preview);
    assert!(r.normalization.ignore_case);
    assert!(!r.normalization.normalize_eol);
    assert!(r.matching.regex);
    assert!(!r.matching.fuzzy);
    assert_eq!(r.matching.fuzzy_threshold, Ratio { num: 9, den: 10 });
    assert_eq!(r.matching.context_lines, 1);
    assert_eq!(r.matching.max_matches, 2);
}

#[test]
fn edit_request_errors() {
    let no_path = vec![("old_text".to_string(), text("a"))];
    match EditRequest::from_params(&no_path) {
        Err(ToolError::InvalidArgs { message }) => assert_eq!(message, "Invalid path"),
        _ => panic!("a request without path must be refused"),
    }
    let bad_mode = vec![("path".to_string(), text("f")), ("mode".to_string(), text("rename"))];
    match EditRequest::from_params(&bad_mode) {
        Err(ToolError::InvalidArgs { message }) => assert_eq!(message, "Unknown mode: rename"),
        _ => panic!("an unknown mode must be refused"),
    }
    let insert = vec![("path".to_string(), text("f")), ("mode".to_string(), text("insert"))];
    match EditRequest::from_params(&insert) {
        Err(ToolError::InvalidArgs { message }) => {
            assert_eq!(message, "line_number required for insert mode")
        }
        _ => panic!("an insertion needs a line number"),
    }
}

#[test]
fn test_replace_text_tool() {
    let tool = ReplaceTextTool::new();
    let request = ReplaceTextRequest {
        path: "test_replace.txt".to_string(),
        old_text: "World".to_string(),
        new_text: "Rust".to_string(),
        occurrence: None,
    };
    match tool.run(&request, "Hello, World!\nThis is a test.") {
        ReplaceTextOutcome::Replaced { content, occurrence, characters_changed, total_matches } => {
            assert_eq!(content, "Hello, Rust!\nThis is a test.");
            assert_eq!(occurrence, 1);
            assert_eq!(characters_changed, -1);
            assert_eq!(total_matches, 1);
        }
        _ => panic!("the text occurs once and must be replaced"),
    }
}

#[test]
fn test_insert_text_tool() {
    let tool = InsertTextTool::new();
    let request = InsertTextRequest {
        path: "test_insert.txt".to_string(),
        line_number: 2,
        text: "Line 2".to_string(),
        position: "before_line".to_string(),
    };
    match tool.run(&request, "Line 1\nLine 3") {
        InsertTextOutcome::Inserted { content, line_number, total_lines } => {
            assert_eq!(content, "Line 1\nLine 2\nLine 3\n");
            assert_eq!(line_number, 2);
            assert_eq!(total_lines, 3);
        }
        _ => panic!("the line must be inserted"),
    }
}

#[test]
fn insert_text_positions_and_errors() {
    let tool = InsertTextTool::new();
    let run = |line: usize, position: &str, content: &str| {
        tool.run(
            &InsertTextRequest {
                path: "f".to_string(),
                line_number: line,
                text: "X".to_string(),
                position: position.to_string(),
            },
            content,
        )
    };
    assert!(matches!(run(1, "after_line", "a\nb"),
        InsertTextOutcome::Inserted { content, line_number: 2, total_lines: 3 } if content == "a\nX\nb\n"));
    assert!(matches!(run(3, "after_line", "a\nb"),
        InsertTextOutcome::Inserted { content, line_number: 3, .. } if content == "a\nb\nX\n"));
    assert!(matches!(run(1, "at_end", "a\nb"),
        InsertTextOutcome::Inserted { content, line_number: 3, .. } if content == "a\nb\nX\n"));
    assert!(matches!(run(1, "after_line", ""),
        InsertTextOutcome::Inserted { content, line_number: 1, total_lines: 1 } if content == "X\n"));
    assert!(matches!(run(0, "after_line", "a"),
        InsertTextOutcome::InvalidLineNumber { line_number: 0, total_lines: 1 }));
    assert!(matches!(run(3, "after_line", "a"),
        InsertTextOutcome::InvalidLineNumber { line_number: 3, total_lines: 1 }));
    assert!(matches!(run(1, "sideways", "a"),
        InsertTextOutcome::InvalidPosition { position } if position == "sideways"));
    assert!(matches!(run(0, "sideways", "a"), InsertTextOutcome::InvalidLineNumber { .. }));
}

#[test]
fn test_delete_text_tool() {
    let tool = DeleteTextTool::new();
    let request = DeleteTextRequest {
        path: "test_delete.txt".to_string(),
        text_to_delete: ", World".to_string(),
        occurrence: None,
    };
    match tool.run(&request, "Hello, World!\nThis is a test.") {
        ReplaceTextOutcome::Replaced { content, characters_changed, .. } => {
            assert_eq!(content, "Hello!\nThis is a test.");
            assert_eq!(characters_changed, -7);
        }
        _ => panic!("the text occurs once and must be deleted"),
    }
}

#[test]
fn test_delete_line_tool_basic_range() {
    let tool = DeleteLineTool::new();
    let request = DeleteLineRequest { path: "f".to_string(), start_line: 2, end_line: 4 };
    let out = tool.run(&request, "a\nb\nc\nd\ne\n").unwrap();
    assert_eq!(out.content, "a\ne\n");
    assert_eq!(out.lines_deleted, 3);
    assert_eq!(out.total_lines, 2);
    assert_eq!((out.start_line, out.end_line), (2, 4));
}

#[test]
fn delete_line_errors_and_clamping() {
    let tool = DeleteLineTool::new();
    let run = |s: usize, e: usize, c: &str| {
        tool.run(&DeleteLineRequest { path: "f".to_string(), start_line: s, end_line: e }, c)
    };
    assert_eq!(run(0, 1, "a\n").unwrap_err(), LineRangeError::StartLineZero);
    assert_eq!(
        run(3, 2, "a\nb\nc\n").unwrap_err(),
        LineRangeError::InvalidRange { start_line: 3, end_line: 2 }
    );
    assert_eq!(
        run(4, 5, "a\nb\nc\n").unwrap_err(),
        LineRangeError::StartBeyondEnd { start_line: 4, total_lines: 3 }
    );
    let out = run(2, 99, "a\nb\nc").unwrap();
    assert_eq!(out.content, "a\n");
    assert_eq!(out.end_line, 3);
    assert_eq!(out.lines_deleted, 2);
    let all = run(1, 3, "a\nb\nc\n").unwrap();
    assert_eq!(all.content, "");
    assert_eq!(all.total_lines, 0);
    let crlf = run(1, 1, "a\r\nb\r\nc").unwrap();
    assert_eq!(crlf.content, "b\nc\n");
}

#[test]
fn test_delete_function_tool_rust() {
    let content = "// Simple Rust module\npub fn keep() {}\n\npub fn target(a: i32) -> i32 {\n    let x = a + 1;\n    x\n}\n\npub fn keep2() {\n    println!(\"ok\");\n}\n";
    let tool = DeleteFunctionTool::new();
    let request = DeleteFunctionRequest {
        file_name: "/tmp/dir/test_mod.rs".to_string(),
        function_name: "target".to_string(),
    };
    match tool.run(&request, content) {
        DeleteFunctionOutcome::Deleted { content: updated, start_line, end_line, lines_deleted } => {
            assert!(!updated.contains("fn target("));
            assert!(updated.contains("fn keep()"));
            assert!(updated.contains("fn keep2()"));
            assert_eq!((start_line, end_line, lines_deleted), (4, 7, 4));
            assert_eq!(
                updated,
                "// Simple Rust module\npub fn keep() {}\n\n\npub fn keep2() {\n    println!(\"ok\");\n}\n"
            );
        }
        _ => panic!("the function must be found and deleted"),
    }
}

#[test]
fn delete_function_in_other_languages_is_not_supported() {
    let tool = DeleteFunctionTool::new();
    assert_eq!(tool.guess_language("a/b/mod.rs"), Some("rust"));
    assert_eq!(tool.guess_language("a/b/mod.py"), None);
    assert_eq!(tool.guess_language("Makefile"), None);
    assert_eq!(tool.guess_language(".rs"), None);
    let run = |file: &str| {
        tool.run(
            &DeleteFunctionRequest { file_name: file.to_string(), function_name: "f".to_string() },
            "fn f() {}\n",
        )
    };
    assert!(matches!(run("script.py"),
        DeleteFunctionOutcome::UnsupportedLanguage { language } if language == "py"));
    assert!(matches!(run("Makefile"),
        DeleteFunctionOutcome::UnsupportedLanguage { language } if language == "unknown"));
    assert!(matches!(run("x.rs"), DeleteFunctionOutcome::Deleted { .. }));
    assert_eq!(DeleteFunctionTool::suggestions(&run("script.py")).len(), 3);
    assert_eq!(DeleteFunctionTool::suggestions(&run("x.rs")).len(), 0);
    assert_eq!(
        DeleteFunctionTool::suggestions(&DeleteFunctionOutcome::NotFound)[0],
        "Check the exact function name (case-sensitive)"
    );
    assert!(matches!(
        tool.run(
            &DeleteFunctionRequest { file_name: "x.rs".to_string(), function_name: "g".to_string() },
            "fn f() {}\n",
        ),
        DeleteFunctionOutcome::NotFound
    ));
}

#[test]
fn delete_and_copy_plans() {
    let tool = DeletePathTool::new();
    let filter = ConfigurableFilter::new(None);
    assert_eq!(tool.plan("/p/src", true, false, true, &filter), DeleteAction::Refuse);
    assert_eq!(tool.plan("/p/target/", true, false, true, &filter), DeleteAction::Refuse);
    assert_eq!(tool.plan("/p/src", false, true, false, &filter), DeleteAction::RemoveFile);
    assert_eq!(tool.plan("/p/docs", true, false, true, &filter), DeleteAction::RemoveTree);
    assert_eq!(tool.plan("/p/docs", true, false, false, &filter), DeleteAction::RemoveEmptyDirectory);
    assert_eq!(tool.plan("/p/x", false, false, false, &filter), DeleteAction::Nothing);
    let copy = CopyPathTool::new();
    assert_eq!(copy.plan(true, false, false), CopyAction::CopyFile);
    assert_eq!(copy.plan(false, true, true), CopyAction::CopyTree);
    assert_eq!(copy.plan(false, true, false), CopyAction::RefuseDirectory);
    assert_eq!(copy.plan(false, false, true), CopyAction::Nothing);
}

#[test]
fn edit_tool_replaces_through_the_matching_pipeline() {
    let tool = EditTool::new();
    let params = vec![
        ("path".to_string(), text("f.txt")),
        ("old_text".to_string(), text("World")),
        ("new_text".to_string(), text("Rust")),
    ];
    let request = EditRequest::from_params(&params).unwrap();
    match tool.handle_replace_mode(&request, "Hello, World!\r\nBye.").unwrap() {
        ReplaceOutcome::Applied { outcome, selected } => {
            assert_eq!(outcome.content, "Hello, Rust!\nBye.");
            assert_eq!(selected.index, 1);
            assert_eq!(outcome.lines_changed, 1);
            assert_eq!(outcome.characters_changed, -1);
            assert_eq!(outcome.location.original_text, "World");
            assert_eq!(outcome.location.new_text, "Rust");
            assert_eq!((outcome.location.char_start, outcome.location.char_end), (7, 12));
        }
        _ => panic!("the only occurrence must be replaced"),
    }
    let out = tool.handle_insert_mode(&request, 1, "a\nb").unwrap();
    assert_eq!(out.content, "a\nRust\nb");
}

#[test]
fn test_create_file_tool() {
    let tool = CreateFileTool::new();
    let args = named(&[("path", "/tmp/test_file.txt"), ("content", "Hello, World!")]);
    assert!(tool.validate_args(&args).is_ok());
    match tool.parse_params(&args) {
        Ok(cats::params::ParamSource::Ready(p)) => {
            let request =
                cats::editing::specialized_tools::CreateFileRequest::from_params(&p).unwrap();
            assert_eq!(request.path, "/tmp/test_file.txt");
            assert_eq!(request.content, "Hello, World!");
        }
        _ => panic!("named arguments give parameters"),
    }
    assert_eq!(
        invalid_args(tool.validate_args(&named(&[("path", "/tmp/x")]))),
        "Missing required parameter: content"
    );
}

#[test]
fn test_overwrite_file_tool() {
    let tool = OverwriteFileTool::new();
    let args = named(&[
        ("path", "/tmp/test_overwrite.txt"),
        ("content", "New content\nWith multiple lines"),
    ]);
    assert!(tool.validate_args(&args).is_ok());
    match tool.parse_params(&args) {
        Ok(cats::params::ParamSource::Ready(p)) => {
            let request =
                cats::editing::specialized_tools::OverwriteFileRequest::from_params(&p).unwrap();
            assert_eq!(request.content, "New content\nWith multiple lines");
            assert_eq!(cats::text::count_lines(&request.content), 2);
        }
        _ => panic!("named arguments give parameters"),
    }
}

#[test]
fn test_edit_tool_create_mode() {
    let tool = EditTool::new();
    let args = named(&[
        ("path", "/tmp/new_test_file.txt"),
        ("mode", "create"),
        ("new_text", "Hello, World!\nThis is a test file."),
    ]);
    assert!(tool.validate_args(&args).is_ok());
    match tool.parse_params(&args) {
        Ok(cats::params::ParamSource::Ready(p)) => {
            let request = EditRequest::from_params(&p).unwrap();
            assert_eq!(request.mode, EditMode::Create);
            assert_eq!(request.path, "/tmp/new_test_file.txt");
            assert_eq!(request.new_text, "Hello, World!\nThis is a test file.");
        }
        _ => panic!("named arguments give parameters"),
    }
}

#[test]
fn test_delete_path_tool_file() {
    let tool = DeletePathTool::new();
    let args = named(&[("path", "/tmp/dir/test_delete.txt")]);
    assert!(tool.validate_args(&args).is_ok());
    let filter = ConfigurableFilter::new(None);
    assert_eq!(
        tool.plan("/tmp/dir/test_delete.txt", false, true, false, &filter),
        DeleteAction::RemoveFile
    );
}

#[test]
fn test_move_path_tool() {
    let tool = MovePathTool::new();
    let args = named(&[("source", "/tmp/a.txt"), ("destination", "/tmp/b.txt")]);
    assert!(tool.validate_args(&args).is_ok());
    match tool.parse_params(&args) {
        Ok(cats::params::ParamSource::Ready(p)) => {
            let request =
                cats::editing::management_tools::MovePathRequest::from_params(&p).unwrap();
            assert_eq!(request.source, "/tmp/a.txt");
            assert_eq!(request.destination, "/tmp/b.txt");
        }
        _ => panic!("named arguments give parameters"),
    }
    assert_eq!(
        invalid_args(tool.validate_args(&named(&[("source", "/tmp/a.txt")]))),
        "Missing required parameter: destination"
    );
}

#[test]
fn test_copy_path_tool() {
    let tool = CopyPathTool::new();
    let args = named(&[("source", "/tmp/a.txt"), ("destination", "/tmp/b.txt")]);
    assert!(tool.validate_args(&args).is_ok());
    assert_eq!(tool.plan(true, false, true), CopyAction::CopyFile);
    assert!(tool.validate_args(&ToolArgs::from_args(&["/tmp/a", "/tmp/b", "false"])).is_ok());
}

#[test]
fn test_find_file_respects_exclude_dirs() {
    let filter = ConfigurableFilter::new(None);
    // The search does not descend into excluded directories.
    assert!(!filter.should_include_path("/tmp/project/node_modules"));
    assert!(filter.should_include_path("/tmp/project/visible.txt"));
    assert!(filter.should_include_path("/tmp/project/docs"));
}

#[test]
fn test_search_dir_skips_excluded_extensions() {
    let filter = ConfigurableFilter::new(None);
    // Files with excluded extensions are not read.
    assert!(!filter.should_include_path("/tmp/project/binary.exe"));
    assert!(filter.should_include_path("/tmp/project/file.txt"));
}
