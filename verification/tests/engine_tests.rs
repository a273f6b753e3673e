use cats::editing::apply::{apply_edit, apply_match, replace_in_content, ReplaceOutcome};
use cats::editing::literal::{delete_text, replace_text, ReplaceTextOutcome};
use cats::editing::matching::{
    find_fuzzy_matches, find_matches, find_occurrences, literal_matches, regex_candidates,
    MatchInfo, MatchingOptions,
};
use cats::editing::normalize::{normalize_eol, normalize_text, NormalizationOptions};
use cats::editing::scanner::{delete_rust_function, find_body_end, find_body_start, find_declaration, SignatureEnd};
use cats::editing::selection::{
    generate_ambiguity_suggestions, generate_no_match_suggestions, select_match, Selection,
    Suggestion,
};
use cats::editing::similarity::{calculate_similarity, Ratio};
use cats::text::{ensure_final_newline, split_lines, to_chars};
use cats::tool_core::ToolError;

fn norm(eol: bool, trim: bool, ws: bool, case: bool) -> NormalizationOptions {
    NormalizationOptions {
        normalize_eol: eol,
        trim_lines: trim,
        normalize_whitespace: ws,
        ignore_case: case,
    }
}

fn raw() -> NormalizationOptions {
    norm(false, false, false, false)
}

fn literal_only() -> MatchingOptions {
    MatchingOptions {
        regex: false,
        fuzzy: false,
        fuzzy_threshold: Ratio { num: 4, den: 5 },
        context_lines: 3,
        max_matches: 10,
    }
}

#[test]
fn normalize_eol_unifies_line_endings() {
    assert_eq!(normalize_eol("a\r\nb\rc\nd"), "a\nb\nc\nd");
    assert_eq!(normalize_eol("\r\r\n\n\r"), "\n\n\n\n");
    assert_eq!(normalize_eol(""), "");
    assert_eq!(normalize_eol("plain"), "plain");
}

#[test]
fn normalize_eol_twice_is_once() {
    for s in ["a\r\nb\rc\nd", "\r\r\n\n\r", "x\r", "\r\nx", "é\r\nü"] {
        let once = normalize_eol(s);
        assert_eq!(normalize_eol(&once), once);
    }
}

#[test]
fn default_normalization_only_unifies_line_endings() {
    let d = NormalizationOptions::default();
    assert!(d.normalize_eol && !d.trim_lines && !d.normalize_whitespace && !d.ignore_case);
    assert_eq!(normalize_text("A  b \r\n", &d), "A  b \n");
    assert_eq!(normalize_text("A  b \r\n", &raw()), "A  b \r\n");
}

#[test]
fn trimming_lines_keeps_every_line_feed() {
    let o = norm(false, true, false, false);
    assert_eq!(normalize_text("a  \nb\t\n\n  c  ", &o), "a\nb\n\n  c");
    assert_eq!(normalize_text("a \r\nb", &o), "a\nb");
    assert_eq!(normalize_text("a\n\n", &o), "a\n\n");
    assert_eq!(normalize_text("   ", &o), "");
    let once = normalize_text("x \n y \n\n", &o);
    assert_eq!(normalize_text(&once, &o), once);
}

#[test]
fn collapsing_whitespace_leaves_single_spaces() {
    let o = norm(false, false, true, false);
    assert_eq!(normalize_text("a  \t b\n\nc", &o), "a b c");
    assert_eq!(normalize_text("  a  ", &o), " a ");
    assert_eq!(normalize_text("a\u{00A0}\u{2003}b", &o), "a b");
    let once = normalize_text(" x \n\t y ", &o);
    assert_eq!(normalize_text(&once, &o), once);
}

#[test]
fn folding_case_uses_unicode_lower_case() {
    let o = norm(false, false, false, true);
    assert_eq!(normalize_text("Hello WORLD", &o), "hello world");
    assert_eq!(normalize_text("ÄÖÜ", &o), "äöü");
}

#[test]
fn transforms_apply_in_their_fixed_order() {
    let all = norm(true, true, true, true);
    assert_eq!(normalize_text("Fn  Main() \r\n{\r}", &all), "fn main() { }");
}

#[test]
fn similarity_is_one_minus_distance_over_longer_length() {
    assert_eq!(calculate_similarity("kitten", "sitting"), Ratio { num: 4, den: 7 });
    assert_eq!(calculate_similarity("", ""), Ratio { num: 1, den: 1 });
    assert_eq!(calculate_similarity("abc", ""), Ratio { num: 0, den: 3 });
    assert_eq!(calculate_similarity("abc", "abc"), Ratio { num: 3, den: 3 });
    assert_eq!(calculate_similarity("héllo", "hello"), Ratio { num: 4, den: 5 });
    assert_eq!(
        calculate_similarity("fn target(a: i64)", "fn target(a: i32)"),
        Ratio { num: 15, den: 17 }
    );
}

#[test]
fn ratios_compare_as_fractions() {
    let four_fifths = Ratio::new(4, 5);
    assert!(Ratio::new(15, 17).at_least(&four_fifths));
    assert!(Ratio::new(8, 10).at_least(&four_fifths));
    assert!(!Ratio::new(79, 100).at_least(&four_fifths));
    assert!(Ratio::one().at_least(&four_fifths));
    assert!(Ratio::one().is_one());
    assert!(Ratio::new(3, 3).is_one());
    assert!(!four_fifths.is_one());
    assert!(Ratio::new(usize::MAX, usize::MAX).at_least(&Ratio::new(usize::MAX - 1, usize::MAX)));
}

#[test]
fn occurrences_do_not_overlap() {
    let hay = to_chars("aaaa");
    let needle = to_chars("aa");
    assert_eq!(find_occurrences(&hay, &needle, 10), vec![0, 2]);
    assert_eq!(find_occurrences(&hay, &needle, 1), vec![0]);
    assert_eq!(find_occurrences(&hay, &needle, 0), Vec::<usize>::new());
    assert_eq!(find_occurrences(&to_chars("abcabc"), &to_chars("bc"), 10), vec![1, 4]);
    assert_eq!(find_occurrences(&to_chars("abc"), &to_chars("abcd"), 10), Vec::<usize>::new());
}

#[test]
fn unique_literal_match_describes_its_place() {
    let content = "line one\nline two\nfind me here\nline four\nline five\n";
    let found = find_matches(content, "find me", &literal_only(), &raw()).unwrap();
    assert_eq!(found.len(), 1);
    let m = &found[0];
    assert_eq!(m.index, 1);
    assert_eq!((m.char_start, m.char_end), (18, 25));
    assert_eq!((m.line_start, m.line_end), (3, 3));
    assert_eq!(m.matched_text, "find me");
    assert_eq!(m.context_before, "line one\nline two");
    assert_eq!(m.context_after, "line four\nline five");
    assert_eq!(m.similarity_score, Ratio { num: 1, den: 1 });
    assert_eq!(m.preview, "find me -> ");
}

#[test]
fn context_is_clipped_to_the_count_and_the_buffer() {
    let content = "1\n2\n3\n4\n5\n6\n7\n8\n9";
    let mut options = literal_only();
    options.context_lines = 2;
    let found = find_matches(content, "5", &options, &raw()).unwrap();
    assert_eq!(found[0].context_before, "3\n4");
    assert_eq!(found[0].context_after, "6\n7");
    let first = find_matches(content, "1", &options, &raw()).unwrap();
    assert_eq!(first[0].context_before, "");
    assert_eq!(first[0].context_after, "2\n3");
    let last = find_matches(content, "9", &options, &raw()).unwrap();
    assert_eq!(last[0].context_before, "7\n8");
    assert_eq!(last[0].context_after, "");
    options.context_lines = 0;
    let none = find_matches(content, "5", &options, &raw()).unwrap();
    assert_eq!(none[0].context_before, "");
    assert_eq!(none[0].context_after, "");
}

#[test]
fn match_across_lines_spans_them() {
    let found = find_matches("ab\ncd\nef", "b\ncd\ne", &literal_only(), &raw()).unwrap();
    assert_eq!((found[0].line_start, found[0].line_end), (1, 3));
    let ends_with_newline = find_matches("ab\ncd", "ab\n", &literal_only(), &raw()).unwrap();
    assert_eq!((ends_with_newline[0].line_start, ends_with_newline[0].line_end), (1, 1));
}

#[test]
fn literal_matches_are_capped() {
    let mut options = literal_only();
    options.max_matches = 2;
    let found = find_matches("x x x x", "x", &options, &raw()).unwrap();
    assert_eq!(found.len(), 2);
    assert_eq!(found[1].char_start, 2);
    assert_eq!(found[1].index, 2);
    options.max_matches = 0;
    assert!(find_matches("x x x x", "x", &options, &raw()).unwrap().is_empty());
    let direct: Vec<MatchInfo> = literal_matches(&to_chars("x x"), &to_chars("x"), 0, 5);
    assert_eq!(direct.len(), 2);
}

#[test]
fn offsets_refer_to_the_normalized_content() {
    let found = find_matches("a\r\nfoo", "foo", &literal_only(), &NormalizationOptions::default()).unwrap();
    assert_eq!((found[0].char_start, found[0].char_end), (2, 5));
    assert_eq!(found[0].line_start, 2);
    let unnormalized = find_matches("a\r\nfoo", "foo", &literal_only(), &raw()).unwrap();
    assert_eq!((unnormalized[0].char_start, unnormalized[0].char_end), (3, 6));
}

#[test]
fn offsets_count_characters() {
    let found = find_matches("héé foo", "foo", &literal_only(), &raw()).unwrap();
    assert_eq!((found[0].char_start, found[0].char_end), (4, 7));
}

#[test]
fn case_is_ignored_when_asked() {
    let o = norm(true, false, false, true);
    let found = find_matches("Hello World", "WORLD", &literal_only(), &o).unwrap();
    assert_eq!(found.len(), 1);
    assert_eq!(found[0].matched_text, "world");
    assert!(find_matches("Hello World", "WORLD", &literal_only(), &raw()).unwrap().is_empty());
}

#[test]
fn regex_is_tried_when_nothing_occurs_literally() {
    let mut options = literal_only();
    options.regex = true;
    let found = find_matches("ab12cd345", "[0-9]+", &options, &raw()).unwrap();
    assert_eq!(found.len(), 2);
    assert_eq!((found[0].char_start, found[0].char_end), (2, 4));
    assert_eq!(found[0].matched_text, "12");
    assert_eq!((found[1].char_start, found[1].char_end), (6, 9));
    assert_eq!(found[1].index, 2);
    assert_eq!(found[1].similarity_score, Ratio { num: 1, den: 1 });
    options.max_matches = 1;
    assert_eq!(find_matches("ab12cd345", "[0-9]+", &options, &raw()).unwrap().len(), 1);
}

#[test]
fn regex_offsets_are_converted_to_characters() {
    let mut options = literal_only();
    options.regex = true;
    let found = find_matches("héé 42 ü", "[0-9]+", &options, &raw()).unwrap();
    assert_eq!((found[0].char_start, found[0].char_end), (4, 6));
    assert_eq!(found[0].matched_text, "42");
    let direct = regex_candidates("héé 42", &vec![(6, 8), (1, 2), (7, 6)], 0, 10);
    assert_eq!(direct.len(), 1);
    assert_eq!((direct[0].char_start, direct[0].char_end), (4, 6));
}

#[test]
fn regex_ignores_case_with_the_case_flag() {
    let mut options = literal_only();
    options.regex = true;
    let o = norm(true, false, false, true);
    let found = find_matches("Foo BAR", "b[a-z]r", &options, &o).unwrap();
    assert_eq!(found.len(), 1);
    assert_eq!(found[0].matched_text, "bar");
}

#[test]
fn invalid_regex_is_an_error() {
    let mut options = literal_only();
    options.regex = true;
    match find_matches("abc", "foo(bar", &options, &raw()) {
        Err(ToolError::Regex(_)) => {}
        _ => panic!("a pattern that does not compile must be reported"),
    }
    let literal_first = find_matches("abc foo(bar", "foo(bar", &options, &raw()).unwrap();
    assert_eq!(literal_first.len(), 1);
}

#[test]
fn fuzzy_fallback_accepts_similar_lines() {
    let content = "fn other() {}\nfn target(a: i64)\nfn last() {}";
    let options = MatchingOptions::default();
    let found = find_matches(content, "fn target(a: i32)", &options, &raw()).unwrap();
    assert_eq!(found.len(), 1);
    let m = &found[0];
    assert_eq!(m.matched_text, "fn target(a: i64)");
    assert_eq!((m.line_start, m.line_end), (2, 2));
    assert_eq!((m.char_start, m.char_end), (14, 31));
    assert_eq!(m.similarity_score, Ratio { num: 15, den: 17 });
    assert!(m.similarity_score.at_least(&Ratio { num: 4, den: 5 }));
    assert_eq!(m.preview, "fn target(a: i64) -> (fuzzy match)");
    assert_eq!(m.context_before, "fn other() {}");
    assert_eq!(m.context_after, "fn last() {}");
}

#[test]
fn fuzzy_fallback_fires_only_without_exact_matches() {
    let content = "fn target(a: i32)\nfn target(a: i64)";
    let found = find_matches(content, "fn target(a: i32)", &MatchingOptions::default(), &raw()).unwrap();
    assert_eq!(found.len(), 1);
    assert_eq!(found[0].line_start, 1);
    assert_eq!(found[0].similarity_score, Ratio { num: 1, den: 1 });
    assert_eq!(found[0].preview, "fn target(a: i32) -> ");
    let off = find_matches("fn target(a: i64)", "fn target(a: i32)", &literal_only(), &raw()).unwrap();
    assert!(off.is_empty());
}

#[test]
fn fuzzy_threshold_and_cap_are_respected() {
    let buf = to_chars("abcd\nabcx\nabxx\nabcd!");
    let pat = to_chars("abcd");
    let strict = find_fuzzy_matches(&buf, &pat, &Ratio { num: 4, den: 5 }, 0, 10);
    assert_eq!(strict.iter().map(|m| m.line_start).collect::<Vec<_>>(), vec![1, 4]);
    let loose = find_fuzzy_matches(&buf, &pat, &Ratio { num: 1, den: 2 }, 0, 10);
    assert_eq!(loose.len(), 4);
    assert_eq!(loose[2].similarity_score, Ratio { num: 2, den: 4 });
    let capped = find_fuzzy_matches(&buf, &pat, &Ratio { num: 1, den: 2 }, 0, 3);
    assert_eq!(capped.len(), 3);
    assert_eq!(capped[2].index, 3);
}

#[test]
fn selection_rules() {
    assert_eq!(select_match(0, None), Selection::NoMatches);
    assert_eq!(select_match(0, Some(1)), Selection::NoMatches);
    assert_eq!(select_match(1, None), Selection::Selected { position: 0 });
    assert_eq!(select_match(3, None), Selection::AmbiguousMatch { count: 3 });
    assert_eq!(select_match(3, Some(1)), Selection::Selected { position: 0 });
    assert_eq!(select_match(3, Some(3)), Selection::Selected { position: 2 });
    assert_eq!(select_match(3, Some(0)), Selection::OccurrenceOutOfRange { occurrence: 0, count: 3 });
    assert_eq!(select_match(3, Some(4)), Selection::OccurrenceOutOfRange { occurrence: 4, count: 3 });
    assert_eq!(select_match(1, Some(2)), Selection::OccurrenceOutOfRange { occurrence: 2, count: 1 });
}

#[test]
fn replacing_a_unique_pattern_changes_only_that_occurrence() {
    let content = "alpha beta gamma";
    match replace_in_content(content, "beta", "BETA!", None, &literal_only(), &raw()).unwrap() {
        ReplaceOutcome::Applied { outcome, selected } => {
            assert_eq!(outcome.content, "alpha BETA! gamma");
            assert_eq!(&outcome.content[..6], &content[..6]);
            assert_eq!(&outcome.content[11..], &content[10..]);
            assert_eq!(selected.matched_text, "beta");
            assert_eq!(outcome.characters_changed, 1);
        }
        _ => panic!("a unique occurrence must be replaced"),
    }
}

#[test]
fn new_text_is_found_where_it_was_written() {
    let content = "one two three";
    match replace_in_content(content, "two", "2", None, &literal_only(), &raw()).unwrap() {
        ReplaceOutcome::Applied { outcome, .. } => {
            let again = find_matches(&outcome.content, "2", &literal_only(), &raw()).unwrap();
            assert_eq!(again.len(), 1);
            assert_eq!(again[0].char_start, outcome.location.char_start);
            assert_eq!(again[0].char_start, 4);
        }
        _ => panic!("a unique occurrence must be replaced"),
    }
}

#[test]
fn several_occurrences_are_ambiguous_until_one_is_chosen() {
    let content = "x=1; x=2; x=3;";
    match replace_in_content(content, "x=", "y=", None, &literal_only(), &raw()).unwrap() {
        ReplaceOutcome::AmbiguousMatch { matches, advice } => {
            assert_eq!(advice.len(), 3);
            assert_eq!(
                advice[0],
                "Use 'occurrence: N' parameter to select specific match (1-3)"
            );
            assert_eq!(matches.len(), 3);
            assert_eq!(matches.iter().map(|m| m.char_start).collect::<Vec<_>>(), vec![0, 5, 10]);
            assert_eq!(matches.iter().map(|m| m.index).collect::<Vec<_>>(), vec![1, 2, 3]);
        }
        _ => panic!("three occurrences without a choice are ambiguous"),
    }
    let expected = ["y=1; x=2; x=3;", "x=1; y=2; x=3;", "x=1; x=2; y=3;"];
    for k in 1..=3 {
        match replace_in_content(content, "x=", "y=", Some(k), &literal_only(), &raw()).unwrap() {
            ReplaceOutcome::Applied { outcome, selected } => {
                assert_eq!(outcome.content, expected[k - 1]);
                assert_eq!(selected.index, k);
            }
            _ => panic!("occurrence {} exists", k),
        }
    }
    for k in [0, 4] {
        match replace_in_content(content, "x=", "y=", Some(k), &literal_only(), &raw()).unwrap() {
            ReplaceOutcome::OccurrenceOutOfRange { occurrence, count } => {
                assert_eq!((occurrence, count), (k, 3))
            }
            _ => panic!("occurrence {} does not exist", k),
        }
    }
}

#[test]
fn no_match_suggests_normalizations() {
    match replace_in_content("Hello  World\r\n", "hello world", "x", None, &literal_only(), &raw()).unwrap() {
        ReplaceOutcome::NoMatches { suggestions } => assert!(suggestions.is_empty()),
        _ => panic!("nothing matches"),
    }
    assert_eq!(
        generate_no_match_suggestions("Hello World", "hello world", &raw()),
        vec![Suggestion::CaseDifference]
    );
    assert_eq!(
        generate_no_match_suggestions("Hello World", "hello world", &norm(false, false, false, true)),
        Vec::<Suggestion>::new()
    );
    assert_eq!(
        generate_no_match_suggestions("a\r\nb", "a\nb", &raw()),
        vec![Suggestion::EolDifference, Suggestion::WhitespaceDifference]
    );
    assert_eq!(
        generate_no_match_suggestions("a   b", "a b", &raw()),
        vec![Suggestion::WhitespaceDifference]
    );
    assert_eq!(Suggestion::CaseDifference.kind(), "case_difference");
    assert_eq!(Suggestion::EolDifference.description(), "Pattern found with different line endings");
    assert_eq!(
        Suggestion::WhitespaceDifference.suggestion(),
        "Whitespace differences detected. Try 'normalize_whitespace: true'"
    );
    assert_eq!(
        generate_ambiguity_suggestions(12)[0],
        "Use 'occurrence: N' parameter to select specific match (1-12)"
    );
    assert_eq!(generate_ambiguity_suggestions(2).len(), 3);
}

#[test]
fn apply_edit_splices_at_the_range() {
    let found = find_matches("abcdef", "cd", &literal_only(), &raw()).unwrap();
    assert_eq!(apply_edit("abcdef", &found[0], "XYZ"), "abXYZef");
    assert_eq!(apply_edit("abcdef", &found[0], ""), "abef");
    let outcome = apply_match("abcdef", &found[0], "");
    assert_eq!(outcome.content, "abef");
    assert_eq!(outcome.characters_changed, -2);
    assert_eq!(outcome.lines_changed, 1);
    let multi = find_matches("a\nb\nc", "a\nb", &literal_only(), &raw()).unwrap();
    assert_eq!(apply_match("a\nb\nc", &multi[0], "z").lines_changed, 2);
}

#[test]
fn literal_replacement_without_normalization() {
    match replace_text("a.b.a.b", "a", "c", None) {
        ReplaceTextOutcome::Ambiguous { count, previews } => {
            assert_eq!(count, 2);
            assert_eq!(previews.len(), 2);
            assert_eq!(previews[0].line_number, 1);
            assert_eq!(previews[0].snippet, "a.b.a.b");
        }
        _ => panic!("two occurrences are ambiguous"),
    }
    assert!(matches!(replace_text("a.b.a.b", "a", "c", Some(2)),
        ReplaceTextOutcome::Replaced { content, occurrence: 2, total_matches: 2, characters_changed: 0 }
            if content == "a.b.c.b"));
    assert!(matches!(replace_text("a.b", "a", "c", Some(3)),
        ReplaceTextOutcome::InvalidOccurrence { occurrence: 3, count: 1 }));
    assert!(matches!(replace_text("a.b", "a", "c", Some(0)),
        ReplaceTextOutcome::InvalidOccurrence { occurrence: 0, count: 1 }));
    assert!(matches!(replace_text("a.b", "z", "c", None), ReplaceTextOutcome::NotFound));
    assert!(matches!(replace_text("a.b", "", "c", None), ReplaceTextOutcome::NotFound));
    assert!(matches!(delete_text("x--y", "--", None),
        ReplaceTextOutcome::Replaced { content, characters_changed: -2, .. } if content == "xy"));
}

#[test]
fn ambiguous_previews_show_trimmed_lines_up_to_five() {
    let content = "  x one\nx\n\tx\nx\nx\nx\nx\n";
    match replace_text(content, "x", "y", None) {
        ReplaceTextOutcome::Ambiguous { count, previews } => {
            assert_eq!(count, 7);
            assert_eq!(previews.len(), 5);
            assert_eq!(previews[0].snippet, "x one");
            assert_eq!(previews[2].line_number, 3);
            assert_eq!(previews[2].snippet, "x");
        }
        _ => panic!("seven occurrences are ambiguous"),
    }
}

#[test]
fn structural_delete_removes_the_whole_function() {
    let input = "pub fn keep(){}\n\npub fn target(a: i32) -> i32 {\n  let x = a + 1;\n  x\n}\n\npub fn keep2(){}\n";
    let res = delete_rust_function(input, "target").unwrap();
    assert_eq!(res.content, "pub fn keep(){}\n\n\npub fn keep2(){}");
    assert_eq!((res.start_line, res.end_line), (3, 6));
    assert!(res.content.contains("pub fn keep(){}"));
    assert!(res.content.contains("pub fn keep2(){}"));
    assert!(!res.content.contains("fn target("));
    assert_eq!(ensure_final_newline(&res.content), "pub fn keep(){}\n\n\npub fn keep2(){}\n");
}

#[test]
fn structural_delete_leaves_bodyless_declarations() {
    assert!(delete_rust_function("fn foo(&self);", "foo").is_none());
    assert!(delete_rust_function("trait T {\n    fn foo(&self);\n}\n", "foo").is_none());
}

#[test]
fn structural_delete_takes_attributes_and_doc_comments() {
    let input = "fn a() {}\n\n/// Doc\n#[inline]\n  //! inner\npub async unsafe fn target<T: Into<u8>>(x: T) -> Vec<u8>\nwhere\n    T: Copy,\n{\n    vec![x.into()]\n}\nfn b() {}\n";
    let res = delete_rust_function(input, "target").unwrap();
    assert_eq!((res.start_line, res.end_line), (3, 11));
    assert_eq!(res.content, "fn a() {}\n\nfn b() {}");
}

#[test]
fn structural_delete_ignores_braces_in_strings_and_comments() {
    let input = "fn target() {\n    let s = \"}\\\"}\";\n    let c = '}';\n    // }\n    /* } */\n    if true { }\n}\nfn after() {}\n";
    let res = delete_rust_function(input, "target").unwrap();
    assert_eq!((res.start_line, res.end_line), (1, 7));
    assert_eq!(res.content, "fn after() {}");
}

#[test]
fn structural_delete_needs_the_exact_name_at_a_line_start() {
    assert!(delete_rust_function("fn target_two() {}\n", "target").is_none());
    assert!(delete_rust_function("fn my_target() {}\n", "target").is_none());
    assert!(delete_rust_function("let f = fn target() {};\n", "target").is_none());
    assert!(delete_rust_function("fn  \t target() {}\n", "target").is_some());
    assert!(delete_rust_function("    pub fn target() {}\n", "target").is_some());
    assert!(delete_rust_function("pub(crate) fn target() {}\n", "target").is_none());
    assert!(delete_rust_function("fn targeté() {}\n", "target").is_none());
    assert!(delete_rust_function("fn Target() {}\n", "target").is_none());
}

#[test]
fn structural_delete_of_malformed_source_is_not_found() {
    assert!(delete_rust_function("fn target() {\n    let x = 1;\n", "target").is_none());
    assert!(delete_rust_function("fn target(", "target").is_none());
    assert!(delete_rust_function("fn target() { \"unterminated }\n", "target").is_none());
    assert!(delete_rust_function("", "target").is_none());
}

#[test]
fn arrow_is_no_closing_angle_bracket() {
    let input = "fn target(f: impl Fn() -> u8) -> Option<u8> {\n    None\n}\n";
    let res = delete_rust_function(input, "target").unwrap();
    assert_eq!((res.start_line, res.end_line), (1, 3));
    assert_eq!(res.content, "");
}

#[test]
fn scanner_steps() {
    let buf = to_chars("x\n  pub fn go(a: (u8, u8)) -> u8 { { } }\nfn go2();");
    let decl = find_declaration(&buf, &to_chars("go")).unwrap();
    assert_eq!(decl, (2, 13));
    assert_eq!(find_body_start(&buf, decl.1), SignatureEnd::Body { at: 33 });
    assert_eq!(find_body_end(&buf, 33), Some(40));
    let decl2 = find_declaration(&buf, &to_chars("go2")).unwrap();
    assert_eq!(find_body_start(&buf, decl2.1), SignatureEnd::Bodyless);
    assert_eq!(find_declaration(&buf, &to_chars("nope")), None);
    let open = to_chars("fn f(");
    assert_eq!(find_body_start(&open, 4), SignatureEnd::Unfinished);
}

#[test]
fn lines_follow_the_usual_rules() {
    assert_eq!(split_lines("a\nb\r\nc"), vec!["a", "b", "c"]);
    assert_eq!(split_lines("a\n\n"), vec!["a", ""]);
    assert_eq!(split_lines(""), Vec::<String>::new());
    assert_eq!(split_lines("\n"), vec![""]);
    assert_eq!(split_lines("a\r"), vec!["a\r"]);
    assert_eq!(split_lines("a\rb\n"), vec!["a\rb"]);
    assert_eq!(ensure_final_newline(""), "");
    assert_eq!(ensure_final_newline("a"), "a\n");
    assert_eq!(ensure_final_newline("a\n"), "a\n");
}

#[test]
fn normalizing_twice_changes_nothing_more() {
    let samples = ["a \r\n b\t\tc\r", "  x\n\n y  \n", "", "\r\n", "a\u{2003}\u{2003}b \n"];
    for eol in [false, true] {
        for trim in [false, true] {
            for ws in [false, true] {
                if trim && ws {
                    continue;
                }
                let o = norm(eol, trim, ws, false);
                for s in samples {
                    let once = normalize_text(s, &o);
                    assert_eq!(normalize_text(&once, &o), once);
                }
            }
        }
    }
}

#[test]
fn trimming_and_collapsing_together_can_take_two_passes() {
    let o = norm(false, true, true, false);
    let once = normalize_text("a \n", &o);
    assert_eq!(once, "a ");
    assert_eq!(normalize_text(&once, &o), "a");
}

#[test]
fn empty_pattern_is_found_at_the_start_as_often_as_the_cap_allows() {
    let mut options = literal_only();
    options.max_matches = 3;
    let found = find_matches("abc", "", &options, &raw()).unwrap();
    assert_eq!(found.len(), 3);
    assert!(found.iter().all(|m| m.char_start == 0 && m.char_end == 0 && m.line_start == 1));
}

#[test]
fn match_at_the_end_of_the_buffer() {
    let found = find_matches("a\nb\n", "b\n", &literal_only(), &raw()).unwrap();
    assert_eq!((found[0].char_start, found[0].char_end), (2, 4));
    assert_eq!((found[0].line_start, found[0].line_end), (2, 2));
    assert_eq!(found[0].context_before, "a");
    assert_eq!(found[0].context_after, "");
}

#[test]
fn only_a_minus_right_before_makes_an_arrow() {
    // `->` inside the angle brackets leaves their depth alone, so the
    // bracket closes at the last `>` and the body is found.
    let generic = "fn target<F: Fn() -> u8>(f: F) {\n}\n";
    assert_eq!(delete_rust_function(generic, "target").unwrap().end_line, 2);
    // A `>` that closes a bracket is no arrow, though a minus stands
    // further before it.
    let buf = to_chars("fn f<const N: i8 = - 1>() { }");
    assert_eq!(find_body_start(&buf, 4), SignatureEnd::Body { at: 26 });
    // Without the closing bracket the brace is not at depth zero.
    let open = to_chars("fn f<T() { }");
    assert_eq!(find_body_start(&open, 4), SignatureEnd::Unfinished);
}
