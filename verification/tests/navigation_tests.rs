use cats::file_navigation::{
    CreateTool, GotoOutcome, GotoTool, OpenOutcome, OpenTool, ScrollOutcome, ScrollTool,
    WindowedFile, DEFAULT_WINDOW_SIZE, OPEN_TOOL_DEFAULT_WINDOW_SIZE,
};
use cats::state::ToolState;
use cats::text::split_lines;
use cats::tool_core::{ToolArgs, ToolError};

fn numbered(n: usize) -> Vec<String> {
    (1..=n).map(|i| format!("line {}", i)).collect()
}

#[test]
fn test_windowed_file_creation() {
    let test_content = "line1\nline2\nline3\nline4\nline5\n";
    let windowed_file =
        WindowedFile::from_content("test.txt".to_string(), split_lines(test_content), Some(3));
    assert_eq!(windowed_file.content.len(), 5);
    assert_eq!(windowed_file.window_size, 3);
    assert_eq!(windowed_file.window_start, 0);
}

#[test]
fn windowed_file_display() {
    let mut w = WindowedFile::from_content("t.txt".to_string(), numbered(5), Some(2));
    let rule = "-".repeat(80);
    assert_eq!(
        w.get_window_display(),
        format!(
            "File: t.txt (5 lines)\nLines 1-2 of 5:\n{}\n   1 | line 1\n   2 | line 2\n{}\n(Use scroll_down to see more lines)\n",
            rule, rule
        )
    );
    w.window_start = 2;
    assert_eq!(
        w.get_window_display(),
        format!(
            "File: t.txt (5 lines)\nLines 3-4 of 5:\n{}\n   3 | line 3\n   4 | line 4\n{}\n(Use scroll_up to see previous lines)\n(Use scroll_down to see more lines)\n",
            rule, rule
        )
    );
    w.window_start = 4;
    assert_eq!(
        w.get_window_display(),
        format!(
            "File: t.txt (5 lines)\nLines 5-5 of 5:\n{}\n   5 | line 5\n{}\n(Use scroll_up to see previous lines)\n",
            rule, rule
        )
    );
    let empty = WindowedFile::from_content("e".to_string(), vec![], None);
    assert_eq!(empty.window_size, DEFAULT_WINDOW_SIZE);
    assert_eq!(
        empty.get_window_display(),
        format!("File: e (0 lines)\nLines 1-0 of 0:\n{}\n{}\n", rule, rule)
    );
}

#[test]
fn test_open_tool() {
    let tool = OpenTool::new();
    let mut state = ToolState::new();
    let args = ToolArgs::from_args(&["/tmp/test.txt"]);
    assert!(tool.validate_args(&args).is_ok());
    assert!(tool.reopen(&mut state, "/tmp/test.txt", tool.requested_line(&args)).is_none());

    let lines = split_lines("line1\nline2\nline3\n");
    let outcome = tool.open(&mut state, "/tmp/test.txt", lines, tool.requested_line(&args));
    assert!(matches!(outcome, OpenOutcome::Opened { total_lines: 3, .. }));

    // Verify state was updated
    assert!(state.current_file.is_some());
    assert_eq!(state.open_files.len(), 1);
}

#[test]
fn test_open_tool_with_configured_window() {
    let tool = OpenTool::new_with_open_window_size(Some(1000));
    let mut state = ToolState::new();
    let lines = split_lines("line1\nline2\nline3\nline4\n");
    tool.open(&mut state, "test_agent.rs", lines, None);

    let file_state = state.get_current_file_state().expect("file should be open");
    assert_eq!(
        file_state.window_size, 1000,
        "Open tool should set window size to configured value"
    );
}

#[test]
fn open_tool_window_sizes() {
    assert_eq!(OpenTool::new().window_size(), OPEN_TOOL_DEFAULT_WINDOW_SIZE);
    assert_eq!(OpenTool::new_with_default(None).window_size(), 1000);
    assert_eq!(OpenTool::new_with_default(Some(7)).window_size(), 7);
    assert_eq!(OpenTool::new_with_open_window_size(None).window_size(), 1000);
    assert_eq!(OpenTool::new().name(), "open");
    assert_eq!(OpenTool::new().signature(), "open \"<path>\" [<line_number>]");
    match OpenTool::new().validate_args(&ToolArgs::from_args(&[])) {
        Err(ToolError::InvalidArgs { message }) => {
            assert_eq!(message, "Usage: open \"<file>\" [<line_number>]")
        }
        _ => panic!("a file must be named"),
    }
    let tool = OpenTool::new();
    assert_eq!(tool.requested_line(&ToolArgs::from_args(&["f", "12"])), Some(12));
    assert_eq!(tool.requested_line(&ToolArgs::from_args(&["f", "x"])), None);
    assert_eq!(tool.requested_line(&ToolArgs::from_args(&["f"])), None);
}

#[test]
fn opening_moves_to_the_line_and_records_it() {
    let tool = OpenTool::new_with_default(Some(10));
    let mut state = ToolState::new();
    match tool.open(&mut state, "a.txt", numbered(50), Some(30)) {
        OpenOutcome::Opened { total_lines, window } => {
            assert_eq!(total_lines, 50);
            assert_eq!(window.len(), 10);
            assert_eq!(window[0], "  25 | line 25");
        }
        _ => panic!("the file must be opened"),
    }
    assert_eq!(state.history.len(), 1);
    assert_eq!(state.history[0].operation, "Opened file: a.txt");
    match tool.open(&mut state, "b.txt", numbered(5), Some(9)) {
        OpenOutcome::OpenedBeyondEnd { line_number, total_lines, window } => {
            assert_eq!((line_number, total_lines), (9, 5));
            assert_eq!(window.len(), 5);
        }
        _ => panic!("a line beyond the end is reported"),
    }
    assert_eq!(state.history.len(), 1);
    assert_eq!(state.current_file, Some("b.txt".to_string()));
}

#[test]
fn reopening_the_current_file_does_not_read_it_again() {
    let tool = OpenTool::new_with_default(Some(10));
    let mut state = ToolState::new();
    tool.open(&mut state, "a.txt", numbered(50), None);
    assert!(tool.reopen(&mut state, "other.txt", None).is_none());
    match tool.reopen(&mut state, "a.txt", None) {
        Some(OpenOutcome::AlreadyOpen { total_lines, window }) => {
            assert_eq!(total_lines, 50);
            assert_eq!(window[0], "   1 | line 1");
        }
        _ => panic!("the file is open already"),
    }
    assert_eq!(state.history.len(), 1);
    match tool.reopen(&mut state, "a.txt", Some(40)) {
        Some(OpenOutcome::AlreadyOpenMoved { line_number, total_lines, window }) => {
            assert_eq!((line_number, total_lines), (40, 50));
            assert_eq!(window[0], "  35 | line 35");
        }
        _ => panic!("the window must be moved"),
    }
    assert_eq!(state.history.len(), 2);
    assert_eq!(state.history[1].operation, "Moved to line 40 in a.txt");
    match tool.reopen(&mut state, "a.txt", Some(51)) {
        Some(OpenOutcome::AlreadyOpenBeyondEnd { line_number, total_lines, window }) => {
            assert_eq!((line_number, total_lines), (51, 50));
            assert_eq!(window[0], "  35 | line 35");
        }
        _ => panic!("a line beyond the end is reported"),
    }
    assert_eq!(state.history.len(), 2);
}

#[test]
fn test_goto_tool() {
    let tool = GotoTool::new();
    let mut state = ToolState::new();

    // Test with no file open
    let args = ToolArgs::from_args(&["5"]);
    assert!(tool.validate_args(&args).is_ok());
    assert!(matches!(tool.goto(&mut state, 5), GotoOutcome::NoFileOpen));

    // Open a file first
    state.open_file("test.txt".to_string(), numbered(10), DEFAULT_WINDOW_SIZE).unwrap();

    // Now test goto
    match tool.goto(&mut state, 5) {
        GotoOutcome::Moved { file, window } => {
            assert_eq!(file, "test.txt");
            assert_eq!(window.len(), 10);
        }
        _ => panic!("the window must be moved"),
    }
    assert_eq!(state.history[0].operation, "Moved to line 5 in test.txt");
}

#[test]
fn goto_refuses_lines_outside_the_file() {
    let tool = GotoTool::new();
    let mut state = ToolState::new();
    state.open_file("t".to_string(), numbered(10), 4).unwrap();
    assert!(matches!(tool.goto(&mut state, 0), GotoOutcome::LineZero));
    assert!(matches!(
        tool.goto(&mut state, 11),
        GotoOutcome::BeyondEnd { line_number: 11, total_lines: 10 }
    ));
    assert!(state.history.is_empty());
    match tool.goto(&mut state, 8) {
        GotoOutcome::Moved { window, .. } => {
            assert_eq!(window, vec!["   6 | line 6", "   7 | line 7", "   8 | line 8", "   9 | line 9"])
        }
        _ => panic!("the window must be moved"),
    }
    assert_eq!(state.get_current_file_state().unwrap().window_start, 5);
    state.current_file = Some("gone".to_string());
    assert!(matches!(tool.goto(&mut state, 1), GotoOutcome::NoFileState));
    for bad in ["x", "", "-1", "1.5"] {
        match tool.validate_args(&ToolArgs::from_args(&[bad])) {
            Err(ToolError::InvalidArgs { message }) => {
                assert_eq!(message, "Line number must be a positive integer")
            }
            _ => panic!("{:?} is no line number", bad),
        }
    }
    match tool.validate_args(&ToolArgs::from_args(&[])) {
        Err(ToolError::InvalidArgs { message }) => assert_eq!(message, "Usage: goto <line_number>"),
        _ => panic!("a line number must be given"),
    }
}

#[test]
fn test_scroll_tools() {
    let up_tool = ScrollTool::new("scroll_up", true);
    let down_tool = ScrollTool::new("scroll_down", false);
    let mut state = ToolState::new();

    // Open a file with enough content to scroll
    state.open_file("test.txt".to_string(), numbered(200), 50).unwrap();

    let args = ToolArgs::from_args(&[]);
    assert!(down_tool.validate_args(&args).is_ok());

    // Test scroll down
    match down_tool.scroll(&mut state) {
        ScrollOutcome::Scrolled { old_start, new_start, file, window } => {
            assert_eq!((old_start, new_start), (0, 50));
            assert_eq!(file, "test.txt");
            assert_eq!(window[0], "  51 | line 51");
        }
        _ => panic!("the window must move down"),
    }

    // Test scroll up
    match up_tool.scroll(&mut state) {
        ScrollOutcome::Scrolled { old_start, new_start, .. } => {
            assert_eq!((old_start, new_start), (50, 0))
        }
        _ => panic!("the window must move up"),
    }
    assert_eq!(state.history[0].operation, "Scrolled down in test.txt");
    assert_eq!(state.history[1].operation, "Scrolled up in test.txt");
}

#[test]
fn scrolling_stops_at_both_ends() {
    let up = ScrollTool::new("scroll_up", true);
    let down = ScrollTool::new("scroll_down", false);
    assert_eq!(up.name(), "scroll_up");
    assert_eq!(up.signature(), "scroll_up");
    assert_eq!(up.description(), "Moves the window up by the window size");
    assert_eq!(down.description(), "Moves the window down by the window size");
    let mut state = ToolState::new();
    assert!(matches!(up.scroll(&mut state), ScrollOutcome::NoFileOpen));
    state.open_file("t".to_string(), numbered(5), 10).unwrap();
    assert!(matches!(up.scroll(&mut state), ScrollOutcome::AtStart));
    assert!(matches!(down.scroll(&mut state), ScrollOutcome::AtEnd));
    assert!(state.history.is_empty());
}

#[test]
fn test_create_tool() {
    let tool = CreateTool::new();
    let mut state = ToolState::new();
    let args = ToolArgs::from_args(&["new_file.txt"]);
    assert!(tool.validate_args(&args).is_ok());

    let display = tool.create(&mut state, "new_file.txt");
    let rule = "-".repeat(80);
    assert_eq!(
        display,
        format!("File: new_file.txt (0 lines)\nLines 1-0 of 0:\n{}\n{}\n", rule, rule)
    );

    // Verify state was updated
    assert!(state.current_file.is_some());
    assert_eq!(state.current_file, Some("new_file.txt".to_string()));
    assert_eq!(state.get_current_file_state().unwrap().window_size, DEFAULT_WINDOW_SIZE);
    assert_eq!(state.history[0].operation, "Created file: new_file.txt");
    match tool.validate_args(&ToolArgs::from_args(&[])) {
        Err(ToolError::InvalidArgs { message }) => assert_eq!(message, "Usage: create <filename>"),
        _ => panic!("a file must be named"),
    }
}
