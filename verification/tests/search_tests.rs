use cats::paths::{path_components, path_extension, path_file_name};
use cats::search::{glob_to_pattern, FindFileTool, SearchDirTool, SearchFileTool, MAX_SEARCH_RESULTS};
use cats::tool_core::{ToolArgs, ToolError};

fn text(v: Option<Vec<char>>) -> Option<String> {
    v.map(|c| c.into_iter().collect())
}

#[test]
fn test_glob_to_regex() {
    let regex = FindFileTool::glob_to_regex("*.rs").unwrap();
    assert!(regex.is_match("test.rs"));
    assert!(!regex.is_match("test.txt"));

    let regex = FindFileTool::glob_to_regex("**/*.py").unwrap();
    assert!(regex.is_match("subdir/test.py"));
    assert!(regex.is_match("test.py"));

    let regex = FindFileTool::glob_to_regex("test?.txt").unwrap();
    assert!(regex.is_match("test1.txt"));
    assert!(regex.is_match("testa.txt"));
    assert!(!regex.is_match("test12.txt"));
}

#[test]
fn glob_translation() {
    assert_eq!(glob_to_pattern("*.rs"), "^[^/]*\\.rs$");
    assert_eq!(glob_to_pattern("**/*.py"), "^(?:.*/)?[^/]*\\.py$");
    assert_eq!(glob_to_pattern("a**b"), "^a.*b$");
    assert_eq!(glob_to_pattern("**"), "^.*$");
    assert_eq!(glob_to_pattern("test?.txt"), "^test[^/]\\.txt$");
    assert_eq!(glob_to_pattern("[a-c]x]"), "^[a-c]x]$");
    assert_eq!(glob_to_pattern("[abc"), "^[abc$");
    assert_eq!(glob_to_pattern("a+(b)|{c}^$\\"), "^a\\+\\(b\\)\\|\\{c\\}\\^\\$\\\\$");
    assert_eq!(glob_to_pattern(""), "^$");
}

#[test]
fn glob_that_is_no_regex_is_an_error() {
    match FindFileTool::glob_to_regex("[z-a]") {
        Err(ToolError::Regex(_)) => {}
        _ => panic!("an invalid class must be reported"),
    }
}

#[test]
fn file_matches_by_name_or_relative_path() {
    let re = FindFileTool::glob_to_regex("src/*.rs").unwrap();
    assert!(FindFileTool::is_match(&re, "lib.rs", "src/lib.rs"));
    assert!(!FindFileTool::is_match(&re, "lib.rs", "tests/lib.rs"));
    let by_name = FindFileTool::glob_to_regex("*.txt").unwrap();
    assert!(FindFileTool::is_match(&by_name, "a.txt", "deep/down/a.txt"));
}

#[test]
fn test_find_file_tool() {
    let tool = FindFileTool::new();
    assert_eq!(tool.name(), "find_file");
    assert!(tool.validate_args(&ToolArgs::from_args(&["*.txt", "/tmp"])).is_ok());
    match tool.validate_args(&ToolArgs::from_args(&[])) {
        Err(ToolError::InvalidArgs { message }) => {
            assert_eq!(message, "Usage: find_file <file_name> [<dir>]")
        }
        _ => panic!("a pattern must be given"),
    }
    let re = FindFileTool::glob_to_regex("*.py").unwrap();
    assert!(FindFileTool::is_match(&re, "test.py", "subdir/test.py"));
    assert!(!FindFileTool::is_match(&re, "test.rs", "test.rs"));
}

#[test]
fn test_search_file_tool() {
    let content = "line 1\ntest content here\nline 3 with test\nfinal line";
    let tool = SearchFileTool::new();
    assert!(tool.validate_args(&ToolArgs::from_args(&["test", "search_test.txt"])).is_ok());

    let matches = tool.search_in_content("test", content, "search_test.txt", MAX_SEARCH_RESULTS);
    assert_eq!(matches.len(), 2);
    assert_eq!(matches[0].line_number, 2);
    assert_eq!(matches[1].line_number, 3);
    assert_eq!(matches[0].line_content, "test content here");
    assert_eq!((matches[0].match_start, matches[0].match_end), (0, 4));
    assert_eq!((matches[1].match_start, matches[1].match_end), (12, 16));
    assert_eq!(matches[1].file, "search_test.txt");
}

#[test]
fn search_takes_the_term_literally_and_stops_at_the_limit() {
    let tool = SearchFileTool::new();
    let m = tool.search_in_content("a.c", "abc a.c\na.ca.c", "f", 10);
    assert_eq!(
        m.iter().map(|x| (x.line_number, x.match_start, x.match_end)).collect::<Vec<_>>(),
        vec![(1, 4, 7), (2, 0, 3), (2, 3, 6)]
    );
    let capped = tool.search_in_content("a", "aaa\naaa", "f", 4);
    assert_eq!(
        capped.iter().map(|x| (x.line_number, x.match_start)).collect::<Vec<_>>(),
        vec![(1, 0), (1, 1), (1, 2), (2, 0)]
    );
    assert!(tool.search_in_content("a", "aaa", "f", 0).is_empty());
    assert!(tool.search_in_content("zzz", "aaa", "f", 10).is_empty());
    let empty_term = tool.search_in_content("", "ab\n", "f", 10);
    assert_eq!(
        empty_term.iter().map(|x| (x.line_number, x.match_start, x.match_end)).collect::<Vec<_>>(),
        vec![(1, 0, 0), (1, 1, 1), (1, 2, 2)]
    );
}

#[test]
fn test_search_dir_tool() {
    let tool = SearchDirTool::new();
    assert_eq!(tool.name(), "search_dir");
    assert_eq!(tool.signature(), "search_dir <search_term> [<dir>]");
    assert!(tool.validate_args(&ToolArgs::from_args(&["foo", "/tmp"])).is_ok());
    match tool.validate_args(&ToolArgs::from_args(&[])) {
        Err(ToolError::InvalidArgs { message }) => {
            assert_eq!(message, "Usage: search_dir <search_term> [<dir>]")
        }
        _ => panic!("a search term must be given"),
    }
}

#[test]
fn paths_split_into_components() {
    let comps = |p: &str| -> Vec<String> {
        path_components(p).into_iter().map(|c| c.into_iter().collect()).collect()
    };
    assert_eq!(comps("some/.git/config"), vec!["some", ".git", "config"]);
    assert_eq!(comps("/a//b/./c/"), vec!["a", "b", "c"]);
    assert_eq!(comps("./"), Vec::<String>::new());
    assert_eq!(comps(""), Vec::<String>::new());
    assert_eq!(comps("../x"), vec!["..", "x"]);
    assert_eq!(text(path_file_name("a/b/c.txt")), Some("c.txt".to_string()));
    assert_eq!(text(path_file_name("a/b/")), Some("b".to_string()));
    assert_eq!(text(path_file_name("a/..")), None);
    assert_eq!(text(path_file_name("/")), None);
    assert_eq!(text(path_file_name(".")), None);
    assert_eq!(text(path_extension("a/b/c.tar.gz")), Some("gz".to_string()));
    assert_eq!(text(path_extension("a/b/.bashrc")), None);
    assert_eq!(text(path_extension("a/b/noext")), None);
    assert_eq!(text(path_extension("a.b/noext")), None);
    assert_eq!(text(path_extension("dot.")), Some(String::new()));
    assert_eq!(text(path_extension(".a.b")), Some("b".to_string()));
}

fn found(file: &str, line_number: usize, line: &str, start: usize, end: usize) -> cats::search::SearchMatch {
    cats::search::SearchMatch {
        file: file.to_string(),
        line_number,
        line_content: line.to_string(),
        match_start: start,
        match_end: end,
    }
}

#[test]
fn find_results_are_listed_one_path_per_line() {
    assert_eq!(
        FindFileTool::format_results("*.txt", "/tmp", &vec![]),
        "No matches found for \"*.txt\" in /tmp"
    );
    assert_eq!(
        FindFileTool::format_results(
            "*.txt",
            "/tmp",
            &vec!["/tmp/a.txt".to_string(), "/tmp/b/c.txt".to_string()]
        ),
        "Found 2 matches for \"*.txt\" in /tmp:\n/tmp/a.txt\n/tmp/b/c.txt"
    );
}

#[test]
fn file_results_point_at_the_matches() {
    let tool = SearchFileTool::new();
    let content = "line 1\n  test content here\nline 3 with test\n";
    let matches = tool.search_in_content("test", content, "f.txt", 10);
    assert_eq!(
        SearchFileTool::format_results("test", "f.txt", &matches),
        "Found 2 matches for \"test\" in f.txt:\n\n1. Line 2: test content here\n             ^^^^\n\n2. Line 3: line 3 with test\n                       ^^^^"
    );
    assert_eq!(
        SearchFileTool::format_results("zzz", "f.txt", &vec![]),
        "No matches found for \"zzz\" in f.txt"
    );
}

#[test]
fn directory_results_show_the_files_with_most_matches_first() {
    let groups = vec![
        cats::search::FileMatches {
            file: "a.txt".to_string(),
            matches: vec![found("a.txt", 1, " foo ", 1, 4)],
        },
        cats::search::FileMatches {
            file: "b.txt".to_string(),
            matches: (1..=7).map(|i| found("b.txt", i, "foo", 0, 3)).collect(),
        },
        cats::search::FileMatches {
            file: "c.txt".to_string(),
            matches: vec![found("c.txt", 2, "foo", 0, 3), found("c.txt", 9, "xfoo", 1, 4)],
        },
    ];
    let order = SearchDirTool::order_by_count(&groups);
    assert_eq!(order, vec![1, 2, 0]);
    assert_eq!(
        SearchDirTool::format_results("foo", "/tmp", &groups, &order),
        "Found 10 matches for \"foo\" in /tmp across 3 files:\n\n📁 b.txt (7 matches):\n  1. Line 1: foo\n  2. Line 2: foo\n  3. Line 3: foo\n  4. Line 4: foo\n  5. Line 5: foo\n  ... and 2 more matches\n\n📁 c.txt (2 matches):\n  1. Line 2: foo\n  2. Line 9: xfoo\n\n📁 a.txt (1 matches):\n  1. Line 1: foo"
    );
    assert_eq!(
        SearchDirTool::format_results("foo", "/tmp", &vec![], &vec![]),
        "No matches found for \"foo\" in /tmp"
    );
    assert_eq!(SearchDirTool::order_by_count(&vec![]), Vec::<usize>::new());
}

#[test]
fn directory_results_show_at_most_twenty_files() {
    let groups: Vec<cats::search::FileMatches> = (0..23)
        .map(|i| cats::search::FileMatches {
            file: format!("f{}", i),
            matches: vec![found("f", 1, "x", 0, 1)],
        })
        .collect();
    let order = SearchDirTool::order_by_count(&groups);
    assert_eq!(order.len(), 23);
    let report = SearchDirTool::format_results("x", "d", &groups, &order);
    assert!(report.starts_with("Found 23 matches for \"x\" in d across 23 files:\n\n"));
    assert!(report.ends_with("... and 3 more files with matches"));
    assert_eq!(report.matches("📁").count(), 20);
}
