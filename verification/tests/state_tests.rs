use cats::state::{FileState, StateTool, ToolState, MAX_HISTORY};
use cats::tool_core::{ToolArgs, ToolError};

#[test]
fn test_file_state_creation() {
    let content = vec![
        "line1".to_string(),
        "line2".to_string(),
        "line3".to_string(),
    ];
    let file_state = FileState::new(content, 2);

    assert_eq!(file_state.window_size, 2);
    assert_eq!(file_state.window_start, 0);
    assert_eq!(file_state.total_lines(), 3);
    assert!(!file_state.modified);
}

#[test]
fn test_file_state_windowing() {
    let content: Vec<String> = (1..=10).map(|i| format!("line {}", i)).collect();
    let mut file_state = FileState::new(content, 3);

    // Test initial window
    let window = file_state.get_window();
    assert_eq!(window.len(), 3);
    assert_eq!(window[0], "line 1");
    assert_eq!(window[2], "line 3");

    // Test scroll down
    file_state.scroll_down();
    let window = file_state.get_window();
    assert_eq!(window[0], "line 4");

    // Test goto line
    file_state.goto_line(8);
    assert!(file_state.window_start >= 5); // Should center around line 8
}

#[test]
fn test_tool_state_file_management() {
    let mut state = ToolState::new();
    let path = "test.txt".to_string();
    let content = vec!["line1".to_string(), "line2".to_string()];

    // Test opening file
    state.open_file(path.clone(), content, 10).unwrap();
    assert_eq!(state.current_file, Some(path.clone()));
    assert!(state.is_open(&path));

    // Test getting current file state
    let file_state = state.get_current_file_state().unwrap();
    assert_eq!(file_state.total_lines(), 2);

    // Test closing file
    state.close_file(&path);
    assert!(!state.is_open(&path));
    assert_eq!(state.current_file, None);
}

#[test]
fn test_state_tool_execution() {
    let tool = StateTool::new();
    let state = ToolState::new();
    let args = ToolArgs::from_args(&[]);

    assert!(tool.validate_args(&args).is_ok());
    assert_eq!(tool.name(), "_state");
    let summary = state.get_summary();
    assert_eq!(summary, "Working Directory: .\nNo file currently open\n");
}

#[test]
fn goto_line_centres_and_clamps() {
    let content: Vec<String> = (1..=10).map(|i| format!("line {}", i)).collect();
    let mut f = FileState::new(content, 4);
    f.goto_line(5);
    assert_eq!(f.window_start, 2);
    f.goto_line(10);
    assert_eq!(f.window_start, 6);
    f.goto_line(1);
    assert_eq!(f.window_start, 0);
    f.goto_line(7);
    assert_eq!(f.window_start, 4);
    f.goto_line(0);
    assert_eq!(f.window_start, 4);
    f.goto_line(11);
    assert_eq!(f.window_start, 4);
}

#[test]
fn scrolling_stays_inside_the_file() {
    let content: Vec<String> = (1..=10).map(|i| format!("line {}", i)).collect();
    let mut f = FileState::new(content, 4);
    assert!(f.is_at_start());
    assert!(!f.is_at_end());
    f.scroll_down();
    assert_eq!(f.window_start, 4);
    f.scroll_down();
    assert_eq!(f.window_start, 6);
    assert!(f.is_at_end());
    f.scroll_down();
    assert_eq!(f.window_start, 6);
    f.scroll_up();
    assert_eq!(f.window_start, 2);
    f.scroll_up();
    assert_eq!(f.window_start, 0);
    assert!(f.is_at_start());
}

#[test]
fn window_with_line_numbers_is_padded() {
    let content: Vec<String> = (1..=12).map(|i| format!("l{}", i)).collect();
    let mut f = FileState::new(content, 3);
    assert_eq!(f.get_window_with_line_numbers(), vec!["   1 | l1", "   2 | l2", "   3 | l3"]);
    f.goto_line(12);
    assert_eq!(f.get_window_with_line_numbers(), vec!["  10 | l10", "  11 | l11", "  12 | l12"]);
}

#[test]
fn window_of_a_short_file_ends_with_the_file() {
    let f = FileState::new(vec!["only".to_string()], 5);
    assert_eq!(f.get_window().len(), 1);
    let empty = FileState::new(vec![], 5);
    assert_eq!(empty.get_window().len(), 0);
    assert!(empty.is_at_end());
}

#[test]
fn switching_and_closing_files() {
    let mut state = ToolState::new();
    state.open_file("a".to_string(), vec!["1".to_string()], 10).unwrap();
    state.open_file("b".to_string(), vec!["2".to_string(), "3".to_string()], 10).unwrap();
    assert_eq!(state.current_file, Some("b".to_string()));
    assert!(state.switch_to_file(&"a".to_string()).is_ok());
    assert_eq!(state.current_file, Some("a".to_string()));
    match state.switch_to_file(&"zzz".to_string()) {
        Err(ToolError::FileNotFound { path }) => assert_eq!(path, "zzz"),
        _ => panic!("a file that is not open cannot become current"),
    }
    assert_eq!(state.current_file, Some("a".to_string()));
    state.close_file(&"a".to_string());
    assert_eq!(state.current_file, Some("b".to_string()));
    assert!(!state.is_open("a"));
    assert!(state.is_open("b"));
}

#[test]
fn reopening_a_file_replaces_its_state() {
    let mut state = ToolState::new();
    state.open_file("a".to_string(), vec!["1".to_string()], 10).unwrap();
    state.open_file("a".to_string(), vec!["1".to_string(), "2".to_string()], 5).unwrap();
    assert_eq!(state.open_files.len(), 1);
    let f = state.get_current_file_state().unwrap();
    assert_eq!(f.total_lines(), 2);
    assert_eq!(f.window_size, 5);
}

#[test]
fn changing_the_current_file_through_its_mutable_state() {
    let mut state = ToolState::new();
    let content: Vec<String> = (1..=50).map(|i| format!("line {}", i)).collect();
    state.open_file("a".to_string(), content, 10).unwrap();
    state.get_current_file_state_mut().unwrap().goto_line(30);
    assert_eq!(state.get_current_file_state().unwrap().window_start, 24);
    let mut none = ToolState::new();
    assert!(none.get_current_file_state_mut().is_none());
}

#[test]
fn history_keeps_the_latest_snapshots() {
    let mut state = ToolState::new();
    for i in 0..(MAX_HISTORY + 5) {
        state.push_history(format!("op {}", i));
    }
    assert_eq!(state.history.len(), MAX_HISTORY);
    assert_eq!(state.history[0].operation, "op 5");
    assert_eq!(state.history[MAX_HISTORY - 1].operation, format!("op {}", MAX_HISTORY + 4));
}

#[test]
fn snapshot_copies_the_open_files() {
    let mut state = ToolState::new();
    state.open_file("a".to_string(), vec!["x".to_string()], 10).unwrap();
    let snap = state.create_snapshot("did it".to_string());
    assert_eq!(snap.operation, "did it");
    assert_eq!(snap.current_file, Some("a".to_string()));
    assert_eq!(snap.file_states.len(), 1);
    assert_eq!(snap.file_states[0].0, "a");
    assert_eq!(snap.file_states[0].1.content, vec!["x".to_string()]);
}

#[test]
fn summary_lists_window_and_open_files() {
    let mut state = ToolState::with_working_directory("/work".to_string());
    let content: Vec<String> = (1..=30).map(|i| format!("line {}", i)).collect();
    state.open_file("a.rs".to_string(), content, 10).unwrap();
    state.open_file("b.rs".to_string(), vec!["x".to_string()], 10).unwrap();
    state.switch_to_file(&"a.rs".to_string()).unwrap();
    state.get_current_file_state_mut().unwrap().goto_line(20);
    assert_eq!(
        state.get_summary(),
        "Working Directory: /work\nCurrent File: a.rs\nLines: 30 | Window: 15-24 (size: 10)\n\nOpen Files:\n  a.rs - 30 lines\n  b.rs - 1 lines\n"
    );
}
