use cats::tool_core::{ToolArgs, ToolError};
use cats::utils::count_tokens::CountTokensTool;
use cats::utils::{ClassifyTaskTool, FilemapTool, SubmitTool};

fn lines(v: &[&str]) -> Vec<String> {
    v.iter().map(|s| s.to_string()).collect()
}

#[test]
fn test_count_tokens_from_text() {
    let tool = CountTokensTool::new();
    let args = ToolArgs::from_args(&["--content=hello world"]);
    let content = args.get_named_arg("content").unwrap();
    let count = CountTokensTool::count_from_text(content);
    let message = CountTokensTool::report(count);
    assert!(message.contains("Total tokens:"));
    assert_eq!(message, "Total tokens: 2");
    assert_eq!(tool.name(), "count_tokens");
}

#[test]
fn test_count_tokens_file() {
    let count = CountTokensTool::count_from_text("This is a small test file");
    assert!(CountTokensTool::report(count).contains("Total tokens:"));
    assert_eq!(count, 6);
}

#[test]
fn words_are_separated_by_any_white_space() {
    assert_eq!(CountTokensTool::count_from_text(""), 0);
    assert_eq!(CountTokensTool::count_from_text("   \n\t "), 0);
    assert_eq!(CountTokensTool::count_from_text("one"), 1);
    assert_eq!(CountTokensTool::count_from_text("  a\tb\nc  d "), 4);
    assert_eq!(CountTokensTool::count_from_text("a\u{00A0}b\u{3000}c"), 3);
    match CountTokensTool::new().validate_args(&ToolArgs::from_args(&["--content=x"])) {
        Err(ToolError::InvalidArgs { message }) => assert_eq!(
            message,
            "Usage: count_tokens <file_path> or count_tokens --content=<text>"
        ),
        _ => panic!("a positional argument is needed"),
    }
}

#[test]
fn classification_accepts_only_the_four_types() {
    let tool = ClassifyTaskTool::new();
    for t in ["bug_fix", "feature", "maintenance", "query"] {
        assert!(tool.validate_args(&ToolArgs::from_args(&[t])).is_ok());
    }
    match tool.validate_args(&ToolArgs::from_args(&["chore"])) {
        Err(ToolError::InvalidArgs { message }) => assert_eq!(
            message,
            "Invalid task type: chore. Valid types: bug_fix, feature, maintenance, query"
        ),
        _ => panic!("an unknown type must be refused"),
    }
    match tool.validate_args(&ToolArgs::from_args(&[])) {
        Err(ToolError::InvalidArgs { message }) => assert_eq!(
            message,
            "Usage: classify_task <task_type>. Valid types: bug_fix, feature, maintenance, query"
        ),
        _ => panic!("a type must be given"),
    }
    assert_eq!(tool.report("feature"), "Task classified as: feature");
    assert_eq!(tool.history_record("query"), "Classified task as: query");
    assert_eq!(tool.name(), "classify_task");
}

#[test]
fn submit_takes_anything() {
    let tool = SubmitTool::new();
    assert_eq!(tool.name(), "submit");
    assert_eq!(tool.signature(), "submit");
    assert!(tool.validate_args(&ToolArgs::from_args(&[])).is_ok());
    assert!(tool.validate_args(&ToolArgs::from_args(&["x", "--y"])).is_ok());
}

#[test]
fn filemap_leaves_out_hidden_build_and_binary_files() {
    assert!(FilemapTool::should_include_file("src/lib.rs"));
    assert!(FilemapTool::should_include_file("src"));
    assert!(FilemapTool::should_include_file("/"));
    assert!(FilemapTool::should_include_file("a/README"));
    assert!(!FilemapTool::should_include_file("a/.hidden"));
    assert!(!FilemapTool::should_include_file("a/target"));
    assert!(!FilemapTool::should_include_file("node_modules"));
    assert!(!FilemapTool::should_include_file("a/pic.PNG"));
    assert!(!FilemapTool::should_include_file("a/lib.so"));
    assert!(FilemapTool::should_include_file("target/debug/main.rs"));
    assert!(FilemapTool::should_include_file("a/lib.soo"));
    assert_eq!(FilemapTool::new().name(), "filemap");
    match FilemapTool::new().validate_args(&ToolArgs::from_args(&[])) {
        Err(ToolError::InvalidArgs { message }) => assert_eq!(message, "Usage: filemap <file_path>"),
        _ => panic!("a path must be given"),
    }
}

#[test]
fn block_starts() {
    assert!(FilemapTool::is_block_start("def f():"));
    assert!(FilemapTool::is_block_start("    class A:"));
    assert!(FilemapTool::is_block_start("fn main() {"));
    assert!(FilemapTool::is_block_start("function go() {"));
    assert!(FilemapTool::is_block_start("impl A for B {"));
    assert!(FilemapTool::is_block_start("if x:  "));
    assert!(FilemapTool::is_block_start("  for x in y:"));
    assert!(FilemapTool::is_block_start("while True:"));
    assert!(!FilemapTool::is_block_start("if x {"));
    assert!(!FilemapTool::is_block_start("define x"));
    assert!(!FilemapTool::is_block_start("pub fn main() {"));
    assert!(!FilemapTool::is_block_start("x = 1"));
    assert!(!FilemapTool::is_block_start(""));
}

#[test]
fn block_ends_where_indentation_returns() {
    let code = lines(&[
        "def f():",
        "    a = 1",
        "",
        "    # note",
        "    b = 2",
        "def g():",
        "    pass",
    ]);
    assert_eq!(FilemapTool::find_block_end(&code, 0), 4);
    assert_eq!(FilemapTool::find_block_end(&code, 5), 6);
    assert_eq!(FilemapTool::find_block_end(&code, 1), 6);
    assert_eq!(FilemapTool::find_block_end(&code, 6), 6);
    assert_eq!(FilemapTool::find_block_end(&code, 9), 9);
    let rust = lines(&["fn a() {", "    x();", "}", "fn b() {}"]);
    assert_eq!(FilemapTool::find_block_end(&rust, 0), 1);
    let no_body = lines(&["def f():", "def g():"]);
    assert_eq!(FilemapTool::find_block_end(&no_body, 0), 1);
}

#[test]
fn outline_elides_long_blocks() {
    let content = "fn a() {\n    1;\n    2;\n    3;\n    4;\n    5;\n    6;\n    7;\n}\nlet x = 1;\n";
    assert_eq!(
        FilemapTool::show_file_content("src/a.rs", content),
        "📄 src/a.rs (10 lines)\n   1 | fn a() {\n     | ... eliding lines 2-7 ...\n   8 |     7;\n   9 | }\n  10 | let x = 1;\n"
    );
    let short = "fn a() {\n    1;\n}\nx\n";
    assert_eq!(
        FilemapTool::show_file_content("a.rs", short),
        "📄 a.rs (4 lines)\n   1 | fn a() {\n   2 |     1;\n   3 | }\n   4 | x\n"
    );
    assert_eq!(FilemapTool::show_file_content("empty.txt", ""), "📄 empty.txt (0 lines)\n");
}

#[test]
fn outline_of_python_files_follows_definitions() {
    let content = "import os\ndef f():\n    a\n    b\n    c\n    d\n    e\n    // not a comment here\n\nclass K:\n    x = 1\nprint(1)\n";
    assert_eq!(
        FilemapTool::show_file_content("m.py", content),
        "📄 m.py (12 lines)\n   1 | import os\n   2 | def f():\n     | ... eliding lines 3-9 ...\n  10 | class K:\n  11 |     x = 1\n  12 | print(1)\n"
    );
    let lines_of_file = lines(&["def f():", "    pass"]);
    assert_eq!(
        FilemapTool::show_python_file_content("x.py", &lines_of_file),
        "📄 x.py (2 lines)\n   1 | def f():\n   2 |     pass\n"
    );
}

#[test]
fn outline_is_cut_when_it_grows_too_long() {
    let long_line = "y".repeat(30000);
    let content = format!("{}\n{}\nlast\n", long_line, long_line);
    let out = FilemapTool::show_file_content("big.txt", &content);
    assert!(out.ends_with("... (output truncated) ...\n"));
    assert!(!out.contains("last"));
    assert!(out.contains("   2 | yyy"));
}
