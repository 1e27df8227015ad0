use geschichte::app::search::{
    compile_search, matches_from_spans, next_match, previous_match, search, SearchError,
};
use geschichte::app::App;
use geschichte::cli::LayoutMode;
use geschichte::diff::parse_diff;

fn history_app() -> App {
    App::new_history("/tmp".to_string(), "test.rs".to_string(), 3, false, false, LayoutMode::Unified)
}

#[test]
fn test_search_functionality() {
    let mut app = history_app();

    app.current_diff = "diff --git a/test.rs b/test.rs\n@@ -1,3 +1,3 @@\n function() {\n-  println!(\"Hello\");\n+  println!(\"Hello World\");\n }".to_string();

    app.start_diff_search();
    assert!(app.diff_search_state.is_some());

    let search_state = app.diff_search_state.as_ref().unwrap();
    assert!(search_state.is_active);
    assert!(search_state.is_input_mode);
    assert_eq!(search_state.query, "");

    if let Some(ref mut search_state) = app.diff_search_state {
        search_state.query = "Hello".to_string();
    }

    app.update_search_results();

    let search_state = app.diff_search_state.as_ref().unwrap();
    assert_eq!(search_state.results.len(), 2);

    app.navigate_to_next_search_result();
    let search_state = app.diff_search_state.as_ref().unwrap();
    assert_eq!(search_state.current_result, Some(0));

    app.navigate_to_next_search_result();
    let search_state = app.diff_search_state.as_ref().unwrap();
    assert_eq!(search_state.current_result, Some(1));

    app.navigate_to_next_search_result();
    let search_state = app.diff_search_state.as_ref().unwrap();
    assert_eq!(search_state.current_result, Some(0));

    app.clear_diff_search();
    assert!(app.diff_search_state.is_none());
}

#[test]
fn search_tests_test_case_insensitive_search() {
    let mut app = history_app();

    app.current_diff = "function test() {\n  HELLO world\n  hello World\n}".to_string();
    app.start_diff_search();

    if let Some(ref mut search_state) = app.diff_search_state {
        search_state.query = "hello".to_string();
    }

    app.update_search_results();

    let search_state = app.diff_search_state.as_ref().unwrap();
    assert_eq!(search_state.results.len(), 2);
}

#[test]
fn test_search_match_positions() {
    let mut app = history_app();

    app.current_diff = "line one with test\nline two with another test".to_string();
    app.start_diff_search();

    if let Some(ref mut search_state) = app.diff_search_state {
        search_state.query = "test".to_string();
    }

    app.update_search_results();

    let search_state = app.diff_search_state.as_ref().unwrap();
    assert_eq!(search_state.results.len(), 2);

    let first_match = &search_state.results[0];
    assert_eq!(first_match.line_index, 0);
    assert_eq!(first_match.char_start, 14);
    assert_eq!(first_match.char_end, 18);
    assert_eq!(first_match.content, "test");

    let second_match = &search_state.results[1];
    assert_eq!(second_match.line_index, 1);
    assert_eq!(second_match.char_start, 22);
    assert_eq!(second_match.char_end, 26);
    assert_eq!(second_match.content, "test");
}

#[test]
fn test_search_excludes_headers() {
    let mut app = history_app();

    app.current_diff = "diff --git a/test.rs b/test.rs\nindex 123..456 100644\n@@ -1,3 +1,3 @@ fn test_function()\n function test() {\n-  let test = 1;\n+  let test = 2;\n }".to_string();
    app.start_diff_search();

    if let Some(ref mut search_state) = app.diff_search_state {
        search_state.query = "test".to_string();
    }

    app.update_search_results();

    let search_state = app.diff_search_state.as_ref().unwrap();

    assert!(
        search_state.results.len() >= 3,
        "Should find at least 3 matches in code content"
    );
    assert_eq!(search_state.results.len(), 3);

    for result in &search_state.results {
        assert!(
            result.char_start > 0,
            "Match at char_start {} suggests it might be in a header line",
            result.char_start
        );
        assert!(result.line_index >= 3);
    }
}

#[test]
fn test_regex_search_patterns() {
    let mut app = history_app();

    app.current_diff =
        "function calculate() {\n  let result = search_function();\n  return result;\n}"
            .to_string();

    app.start_diff_search();
    if let Some(ref mut search_state) = app.diff_search_state {
        search_state.query = "searc.".to_string();
    }

    app.update_search_results();
    let search_state = app.diff_search_state.as_ref().unwrap();
    assert_eq!(search_state.results.len(), 1);
    assert_eq!(search_state.results[0].content, "search");

    app.clear_diff_search();
    app.start_diff_search();
    if let Some(ref mut search_state) = app.diff_search_state {
        search_state.query = r"\bresult\b".to_string();
    }

    app.update_search_results();
    let search_state = app.diff_search_state.as_ref().unwrap();
    assert_eq!(search_state.results.len(), 2);

    app.clear_diff_search();
    app.start_diff_search();
    if let Some(ref mut search_state) = app.diff_search_state {
        search_state.query = "[invalid".to_string();
    }

    app.update_search_results();
    let search_state = app.diff_search_state.as_ref().unwrap();
    assert_eq!(search_state.results.len(), 0);
    assert!(search_state.regex.is_none());
}

#[test]
fn search_finds_line_in_three_content_lines() {
    let lines = parse_diff("@@ -1,2 +1,3 @@\n context\n-old line\n+new line 1\n+new line 2\n");
    let regex = compile_search("LINE").unwrap();
    let found = search(&lines, &regex);
    assert_eq!(found.len(), 3);
    let places: Vec<(usize, usize, usize, &str)> = found
        .iter()
        .map(|m| (m.line_index, m.char_start, m.char_end, m.content.as_str()))
        .collect();
    assert_eq!(places, vec![(2, 5, 9, "line"), (3, 5, 9, "line"), (4, 5, 9, "line")]);
    // The same search again gives the same matches in the same order.
    let again = search(&lines, &regex);
    assert_eq!(found, again);
    // So does a copy of the pattern, and the same text compiled anew.
    assert_eq!(search(&lines, &regex.clone()), found);
    assert_eq!(search(&lines, &compile_search("LINE").unwrap()), found);
}

#[test]
fn a_pattern_is_compiled_from_its_text_alone() {
    let lines = parse_diff("+aA
");
    // Without the prefix of a query the pattern is case-sensitive.
    let plain = geschichte::pattern::Pattern::new("a").unwrap();
    let found = search(&lines, &plain);
    assert_eq!(found.len(), 1);
    assert_eq!((found[0].char_start, found[0].char_end), (1, 2));
    assert_eq!(search(&lines, &compile_search("a").unwrap()).len(), 2);
    assert!(geschichte::pattern::Pattern::new("(").is_err());
}

#[test]
fn no_two_matches_start_at_the_same_place() {
    for (text, query) in [("+ab", "q*"), (" aaa", "a*?"), ("-xyx", "x|"), (" é é", "é*"), ("+", "")] {
        let found = search(&parse_diff(text), &compile_search(query).unwrap());
        for pair in found.windows(2) {
            assert!(
                (pair[0].line_index, pair[0].char_start) < (pair[1].line_index, pair[1].char_start),
                "{:?} {:?}",
                text,
                query
            );
            assert!(pair[0].line_index < pair[1].line_index || pair[0].char_end <= pair[1].char_start);
        }
    }
}

#[test]
fn matches_are_counted_in_characters() {
    let lines = parse_diff("+é fé fé\n ∂x");
    let regex = compile_search("f.").unwrap();
    let found = search(&lines, &regex);
    assert_eq!(found.len(), 2);
    assert_eq!((found[0].char_start, found[0].char_end), (3, 5));
    assert_eq!(found[0].content, "fé");
    assert_eq!((found[1].char_start, found[1].char_end), (6, 8));
    let found = search(&lines, &compile_search("x").unwrap());
    assert_eq!((found[0].line_index, found[0].char_start, found[0].char_end), (1, 2, 3));
}

#[test]
fn several_matches_in_one_line_come_in_order() {
    let lines = parse_diff(" aXbxc\n-x\n");
    let found = search(&lines, &compile_search("x").unwrap());
    let places: Vec<(usize, usize)> = found.iter().map(|m| (m.line_index, m.char_start)).collect();
    assert_eq!(places, vec![(0, 2), (0, 4), (1, 1)]);
    assert_eq!(found[0].content, "X");
    // A pattern that matches the empty string matches at every position.
    let found = search(&parse_diff("+ab"), &compile_search("q*").unwrap());
    let places: Vec<(usize, usize)> = found.iter().map(|m| (m.char_start, m.char_end)).collect();
    assert_eq!(places, vec![(0, 0), (1, 1), (2, 2), (3, 3)]);
}

#[test]
fn spans_become_matches_with_text() {
    let content: Vec<char> = "+añb".chars().collect();
    let found = matches_from_spans(&content, 4, &vec![(1, 4), (4, 5), (9, 3), (100, 200)]);
    assert_eq!(found.len(), 4);
    assert_eq!((found[0].line_index, found[0].char_start, found[0].char_end), (4, 1, 3));
    assert_eq!(found[0].content, "añ");
    assert_eq!((found[1].char_start, found[1].char_end), (3, 4));
    assert_eq!(found[1].content, "b");
    assert_eq!((found[2].char_start, found[2].char_end), (4, 2));
    assert_eq!(found[2].content, "");
    assert_eq!((found[3].char_start, found[3].char_end), (4, 4));
}

#[test]
fn a_bad_pattern_is_an_error_of_the_pattern() {
    assert!(matches!(compile_search("(unclosed"), Err(SearchError::Syntax(_))));
    assert!(matches!(compile_search("[invalid"), Err(SearchError::Syntax(_))));
    assert!(matches!(compile_search(r"\w{1000}{1000}"), Err(SearchError::TooBig(_))));
    assert!(compile_search("").is_ok());
}

#[test]
fn stepping_through_matches_wraps_around() {
    assert_eq!(next_match(0, None), None);
    assert_eq!(next_match(0, Some(4)), Some(4));
    assert_eq!(next_match(3, None), Some(0));
    assert_eq!(next_match(3, Some(0)), Some(1));
    assert_eq!(next_match(3, Some(2)), Some(0));
    assert_eq!(next_match(3, Some(7)), Some(2));
    assert_eq!(next_match(3, Some(usize::MAX)), Some(0));
    assert_eq!(previous_match(0, Some(1)), Some(1));
    assert_eq!(previous_match(3, None), Some(2));
    assert_eq!(previous_match(3, Some(0)), Some(2));
    assert_eq!(previous_match(3, Some(2)), Some(1));
    for count in 1..6usize {
        let mut current = Some(0);
        for _ in 0..count {
            current = next_match(count, current);
        }
        assert_eq!(current, Some(0));
        for start in 0..count {
            assert_eq!(previous_match(count, next_match(count, Some(start))), Some(start));
        }
    }
}

#[test]
fn a_search_result_is_brought_into_view() {
    let mut app = history_app();
    let mut diff = String::new();
    for i in 0..100 {
        diff.push_str(&format!(" line {}\n", i));
    }
    app.show_diff(diff);
    app.start_diff_search();
    app.diff_search_state.as_mut().unwrap().query = "line 9".to_string();
    app.update_search_results();
    assert_eq!(app.diff_search_state.as_ref().unwrap().results.len(), 11);
    // 24 rows: 11 lines of the diff are visible.
    app.navigate_to_next_search_result();
    assert_eq!(app.ui_state.diff_cursor_line, 9);
    assert_eq!(app.ui_state.diff_scroll, 0);
    app.navigate_to_next_search_result();
    assert_eq!(app.ui_state.diff_cursor_line, 90);
    assert_eq!(app.ui_state.diff_scroll, 85);
    app.navigate_to_previous_search_result();
    assert_eq!(app.ui_state.diff_cursor_line, 9);
    assert_eq!(app.ui_state.diff_scroll, 9);
    app.navigate_to_previous_search_result();
    assert_eq!(app.diff_search_state.as_ref().unwrap().current_result, Some(10));
    assert_eq!(app.ui_state.diff_cursor_line, 99);
    app.scroll_to_search_result(50);
    assert_eq!(app.ui_state.diff_cursor_line, 99);
    // An empty query ends with no results.
    app.diff_search_state.as_mut().unwrap().query = String::new();
    app.update_search_results();
    let state = app.diff_search_state.as_ref().unwrap();
    assert!(state.results.is_empty() && state.current_result.is_none() && state.regex.is_none());
}
