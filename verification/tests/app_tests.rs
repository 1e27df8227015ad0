use geschichte::app::{App, DiffRequest, FocusedPanel};
use geschichte::cli::LayoutMode;
use geschichte::commit::Commit;

fn create_test_app() -> App {
    App::new_history(
        "/test/repo".to_string(),
        "test.rs".to_string(),
        3,
        false,
        false,
        LayoutMode::Unified,
    )
}

fn create_auto_app() -> App {
    App::new_history(
        "/tmp/test_repo".to_string(),
        "test.txt".to_string(),
        3,
        false,
        false,
        LayoutMode::Auto,
    )
}

fn create_test_commits() -> Vec<Commit> {
    vec![
        Commit::new_enhanced(
            "abc123".to_string(),
            "abc123d".to_string(),
            "Alice".to_string(),
            "alice@test.com".to_string(),
            "2023-01-15 10:30:00".to_string(),
            "Alice".to_string(),
            "alice@test.com".to_string(),
            "2023-01-15 10:30:00".to_string(),
            "First commit".to_string(),
            "This is the first commit".to_string(),
        ),
        Commit::new_enhanced(
            "def456".to_string(),
            "def456a".to_string(),
            "Bob".to_string(),
            "bob@test.com".to_string(),
            "2023-01-14 09:20:00".to_string(),
            "Bob".to_string(),
            "bob@test.com".to_string(),
            "2023-01-14 09:20:00".to_string(),
            "Second commit".to_string(),
            "This is the second commit".to_string(),
        ),
    ]
}

#[test]
fn test_app_creation() {
    let app = create_test_app();
    assert!(!app.should_quit);
    assert_eq!(app.context_lines, 3);
    assert!(!app.follow_renames);
    assert!(!app.first_parent);
    assert_eq!(app.selected_index, 0);
    assert!(app.commits.is_empty());
    assert!(app.copy_mode.is_none());
    assert!(app.copy_message.is_none());
    assert!(!app.show_commit_info);
}

#[test]
fn test_copy_mode_operations() {
    let mut app = create_test_app();
    app.commits = create_test_commits();

    app.start_copy_mode();
    assert!(app.copy_mode.is_some());
    assert!(app.copy_message.is_some());

    app.cancel_copy_mode();
    assert!(app.copy_mode.is_none());
    assert!(app.copy_message.is_none());
}

#[test]
fn test_message_timer_functionality() {
    let mut app = create_test_app();

    app.start_message_timer(100);
    assert!(app.message_timer.is_some());

    app.check_message_timeout(100);
    assert!(app.message_timer.is_some());
}

#[test]
fn test_commit_info_popup() {
    let mut app = create_test_app();
    app.commits = create_test_commits();

    app.show_commit_info_popup();
    assert!(app.show_commit_info);
    assert!(app.commit_info_popup.is_some());

    app.hide_commit_info_popup();
    assert!(!app.show_commit_info);
    assert!(app.commit_info_popup.is_none());
}

#[test]
fn test_commit_navigation() {
    let mut app = create_test_app();
    app.commits = create_test_commits();

    assert_eq!(app.selected_index, 0);

    let old_index = app.selected_index;
    let _ = app.move_selection_down();
    if app.selected_index == old_index + 1 {
        assert_eq!(app.selected_index, 1);

        let _ = app.move_selection_up();
        assert!(app.selected_index < app.commits.len());
    }

    app.selected_index = 0;
    let _ = app.move_selection_up();
    assert_eq!(app.selected_index, 0);

    app.selected_index = app.commits.len() - 1;
    let _ = app.move_selection_down();
    assert_eq!(app.selected_index, app.commits.len() - 1);
}

#[test]
fn test_diff_range_selection() {
    let mut app = create_test_app();
    app.commits = create_test_commits();

    let request = app.toggle_diff_range_selection();
    assert!(request.is_none());
    assert_eq!(app.diff_range_start, Some(0));

    app.clear_diff_range_selection();
    assert_eq!(app.diff_range_start, None);
    assert_eq!(app.current_diff_range, None);

    app.diff_range_start = Some(1);
    assert!(app.is_commit_marked_for_diff(1));
    assert!(!app.is_commit_marked_for_diff(0));
}

#[test]
fn test_focus_panel_switching() {
    let mut app = create_test_app();

    let focus = app.get_focused_panel();
    assert!(focus.is_some());

    app.switch_focus();
    let new_focus = app.get_focused_panel();
    assert!(new_focus.is_some());
    assert_ne!(focus, new_focus);
}

#[test]
fn test_layout_mode_effectiveness() {
    let mut app = create_test_app();

    app.ui_state.terminal_width = 80;
    app.layout_mode = LayoutMode::Auto;
    assert_eq!(app.effective_layout(), LayoutMode::Unified);

    app.ui_state.terminal_width = 150;
    assert_eq!(app.effective_layout(), LayoutMode::SideBySide);

    app.layout_mode = LayoutMode::Unified;
    assert_eq!(app.effective_layout(), LayoutMode::Unified);
}

#[test]
fn test_resize_handling() {
    let mut app = create_test_app();
    let _old_layout = app.effective_layout();

    app.handle_resize(120, 30);
    assert_eq!(app.ui_state.terminal_width, 120);
    assert_eq!(app.ui_state.terminal_height, 30);

    if app.layout_mode == LayoutMode::Auto {
        let new_layout = app.effective_layout();
        assert!(new_layout == LayoutMode::Unified || new_layout == LayoutMode::SideBySide);
    }
}

#[test]
fn test_quit_functionality() {
    let mut app = create_test_app();
    assert!(!app.should_quit);

    app.quit();
    assert!(app.should_quit);
}

#[test]
fn test_file_path_retrieval() {
    let app = create_test_app();
    let file_path = app.get_file_path();
    assert!(file_path.is_some());
    assert_eq!(file_path.unwrap().as_str(), "test.rs");
}

#[test]
fn test_content_width_calculations() {
    let mut app = create_test_app();
    app.commits = create_test_commits();
    app.current_diff = "line 1\nlong line with many characters\nshort".to_string();

    let max_commit_width = app.calculate_max_commit_line_width();
    assert!(max_commit_width > 0);
    assert_eq!(max_commit_width, "def456 Second commit".len());

    let max_diff_width = app.calculate_max_diff_line_width();
    assert!(max_diff_width > 0);
    assert_eq!(max_diff_width, "long line with many characters".len());

    let diff_line_count = app.get_diff_line_count();
    assert_eq!(diff_line_count, 3);
}

#[test]
fn test_commit_range_selection() {
    let mut app = create_auto_app();

    app.selected_index = 2;
    let request = app.toggle_diff_range_selection();
    assert!(request.is_none());
    assert_eq!(app.diff_range_start, Some(2));
}

#[test]
fn test_navigation_clears_range() {
    let mut app = create_auto_app();
    app.current_diff_range = Some((0, 2));
    app.diff_range_start = None;

    app.current_diff_range = None;
    assert!(app.current_diff_range.is_none());
}

#[test]
fn test_dynamic_scroll_sizing() {
    let mut app = create_auto_app();

    app.handle_resize(80, 50);
    let large_scroll = app.get_page_scroll_size();

    app.handle_resize(80, 20);
    let small_scroll = app.get_page_scroll_size();

    assert!(large_scroll > small_scroll);
    assert!(small_scroll >= 1);
    assert_eq!(large_scroll, 13);
    assert_eq!(small_scroll, 4);
}

#[test]
fn test_range_diff_chronological_order() {
    let mut app = create_auto_app();

    app.diff_range_start = Some(0);
    app.selected_index = 3;

    if let Some(start_idx) = app.diff_range_start {
        let end_idx = app.selected_index;
        app.current_diff_range = Some((
            std::cmp::max(start_idx, end_idx),
            std::cmp::min(start_idx, end_idx),
        ));
        app.diff_range_start = None;
    }

    assert_eq!(app.current_diff_range, Some((3, 0)));
}

#[test]
fn test_scroll_adapts_to_terminal_size() {
    let mut app = create_auto_app();

    app.handle_resize(80, 100);
    let large_scroll = app.get_page_scroll_size();

    app.handle_resize(80, 20);
    let small_scroll = app.get_page_scroll_size();

    assert!(large_scroll > small_scroll);
    assert!(small_scroll >= 1);
}

#[test]
fn resize_pulls_the_scroll_offsets_back() {
    let mut app = create_test_app();
    let text: String = (0..100).map(|i| format!(" line {}\n", i)).collect();
    app.show_diff(text);
    assert_eq!(app.get_diff_line_count(), 100);
    // 24 rows show 11 lines of the diff: the last full screen starts at 89.
    app.ui_state.diff_scroll = 89;
    app.ui_state.diff_cursor_line = 99;
    app.ui_state.diff_horizontal_scroll = 60;
    app.handle_resize(80, 24);
    assert_eq!(app.ui_state.diff_scroll, 89);
    // 50 rows show 27 lines: the last full screen starts at 73.
    app.handle_resize(80, 50);
    assert_eq!(app.ui_state.diff_scroll, 73);
    assert_eq!(app.ui_state.diff_cursor_line, 99);
    assert_eq!(app.ui_state.diff_horizontal_scroll, 60);
    // A smaller terminal allows more, and moves nothing.
    app.handle_resize(40, 24);
    assert_eq!(app.ui_state.diff_scroll, 73);
    assert_eq!(app.ui_state.diff_horizontal_scroll, 30);
    // A terminal that shows the whole diff shows it from the top.
    app.handle_resize(40, 400);
    assert_eq!(app.ui_state.diff_scroll, 0);
    assert_eq!((app.ui_state.terminal_width, app.ui_state.terminal_height), (40, 400));
}

fn four_commits() -> Vec<Commit> {
    let mut commits = Vec::new();
    for name in ["aaaa", "bbbb", "cccc", "dddd"] {
        commits.push(Commit::new(
            format!("{}0000", name),
            name.to_string(),
            "2024-01-01".to_string(),
            "Ann <ann@example.com>".to_string(),
            format!("subject {}", name),
        ));
    }
    commits
}

#[test]
fn range_between_marked_and_selected_commit_is_older_first() {
    let mut app = create_test_app();
    app.commits = four_commits();
    assert_eq!(geschichte::app::range_order(0, 3), (3, 0));
    assert_eq!(geschichte::app::range_order(3, 0), (3, 0));
    assert_eq!(geschichte::app::range_order(2, 2), (2, 2));

    app.selected_index = 0;
    assert!(app.toggle_diff_range_selection().is_none());
    assert_eq!(app.diff_range_start, Some(0));
    app.selected_index = 3;
    let request = app.toggle_diff_range_selection();
    assert_eq!(app.diff_range_start, None);
    match request {
        Some(DiffRequest::Range { older_hash, newer_hash, path, key, older_index, newer_index }) => {
            assert_eq!(older_hash, "dddd0000");
            assert_eq!(newer_hash, "aaaa0000");
            assert_eq!(path, "test.rs");
            assert_eq!(key, "dddd0000..aaaa0000");
            assert_eq!((older_index, newer_index), (3, 0));
            app.range_diff_loaded(key, "@@ -1 +1 @@\n-a\n+b\n".to_string(), older_index, newer_index);
        }
        _ => panic!("a range request was expected"),
    }
    assert_eq!(app.current_diff_range, Some((3, 0)));
    assert_eq!(app.current_diff, "@@ -1 +1 @@\n-a\n+b\n");
    assert_eq!(app.current_changes, vec![1, 2]);
    assert!(app.diff_cache.contains("dddd0000..aaaa0000"));

    // The same range again comes from the cache.
    app.selected_index = 0;
    assert!(app.toggle_diff_range_selection().is_none());
    app.selected_index = 3;
    assert!(app.toggle_diff_range_selection().is_none());
    assert_eq!(app.current_diff_range, Some((3, 0)));
}

#[test]
fn same_commit_twice_drops_the_range() {
    let mut app = create_test_app();
    app.commits = four_commits();
    app.current_diff_range = Some((3, 0));
    app.selected_index = 1;
    assert!(app.toggle_diff_range_selection().is_none());
    assert!(app.toggle_diff_range_selection().is_none());
    assert_eq!(app.diff_range_start, None);
    assert_eq!(app.current_diff_range, None);
}

#[test]
fn selected_commit_is_asked_for_then_served_from_cache() {
    let mut app = create_test_app();
    app.follow_renames = true;
    let request = app.set_history(
        four_commits(),
        geschichte::git::working::WorkingDirectoryStatus::Clean,
        vec![
            ("aaaa0000".to_string(), "old_name.rs".to_string()),
            ("bbbb0000".to_string(), "other.rs".to_string()),
            ("aaaa0000".to_string(), "new_name.rs".to_string()),
        ],
    );
    assert!(!app.loading);
    match request {
        Some(DiffRequest::Commit { hash, path }) => {
            assert_eq!(hash, "aaaa0000");
            assert_eq!(path, "new_name.rs");
            app.diff_loaded(hash, "diff --git a/x b/x\n+one\n".to_string());
        }
        _ => panic!("a commit request was expected"),
    }
    assert_eq!(app.current_diff, "diff --git a/x b/x\n+one\n");
    assert_eq!(app.current_changes, vec![1]);
    assert_eq!(app.path_at_commit("cccc0000", "test.rs"), "test.rs");

    app.ui_state.diff_scroll = 7;
    app.start_diff_search();
    match app.move_selection_down() {
        Some(DiffRequest::Commit { hash, path }) => {
            assert_eq!(hash, "bbbb0000");
            assert_eq!(path, "other.rs");
        }
        _ => panic!("a commit request was expected"),
    }
    assert!(app.diff_search_state.is_none());
    assert_eq!(app.selected_index, 1);
    // Nothing was loaded, so the diff and the view are as before.
    assert_eq!(app.ui_state.diff_scroll, 7);

    assert!(app.move_selection_up().is_none());
    assert_eq!(app.selected_index, 0);
    assert_eq!(app.ui_state.diff_scroll, 0);
    assert_eq!(app.current_diff, "diff --git a/x b/x\n+one\n");
}

#[test]
fn working_directory_entry_is_put_first() {
    let mut app = create_test_app();
    let request = app.set_history(
        four_commits(),
        geschichte::git::working::WorkingDirectoryStatus::ModifiedAndStaged,
        Vec::new(),
    );
    assert_eq!(app.commits.len(), 5);
    assert!(app.commits[0].is_working_directory);
    assert_eq!(app.commits[0].subject, "Modified + Staged");
    assert_eq!(app.commits[1].hash, "aaaa0000");
    match request {
        Some(DiffRequest::WorkingDirectory { key, path }) => {
            assert_eq!(key, "WORKING_DIR");
            assert_eq!(path, "test.rs");
        }
        _ => panic!("a working directory request was expected"),
    }
}

#[test]
fn entering_history_drops_what_belonged_to_the_old_file() {
    let mut app = create_test_app();
    app.commits = four_commits();
    app.diff_loaded("aaaa0000".to_string(), "+x\n".to_string());
    app.start_diff_search();
    app.ui_state.diff_cursor_line = 3;
    app.switch_to_history("other.rs".to_string(), true);
    assert!(app.commits.is_empty());
    assert!(app.rename_map.is_empty());
    assert!(app.current_diff.is_empty());
    assert!(app.current_side_by_side_diff.is_none());
    assert_eq!(app.diff_cache.len(), 0);
    assert!(app.current_changes.is_empty());
    assert!(app.diff_search_state.is_none());
    assert_eq!(app.ui_state.diff_cursor_line, 0);
    assert!(app.came_from_file_picker);
    assert_eq!(app.get_file_path().unwrap().as_str(), "other.rs");
    assert_eq!(app.get_focused_panel(), Some(FocusedPanel::Commits));
    assert_eq!(app.begin_loading(), Some("other.rs".to_string()));
    assert!(app.loading);
}

#[test]
fn side_by_side_layout_follows_the_terminal_width() {
    let mut app = create_auto_app();
    app.show_diff("@@ -1 +1 @@\n-a\n+b\n".to_string());
    assert!(app.current_side_by_side_diff.is_none());
    assert_eq!(app.get_diff_line_count(), 3);
    app.handle_resize(150, 40);
    let layout = app.current_side_by_side_diff.as_ref().unwrap();
    assert_eq!(layout.old_lines.len(), 2);
    assert_eq!(layout.new_lines.len(), 2);
    assert_eq!(app.get_diff_line_count(), 2);
    app.handle_resize(100, 40);
    assert!(app.current_side_by_side_diff.is_none());
}

#[test]
fn change_navigation_stops_at_both_ends() {
    let mut app = create_test_app();
    app.show_diff("@@ -1,3 +1,3 @@\n a\n-b\n+c\n d\n+e\n".to_string());
    assert_eq!(app.current_changes, vec![2, 3, 5]);
    // Without the focus on the diff nothing moves.
    app.navigate_to_next_change();
    assert_eq!(app.ui_state.diff_cursor_line, 0);
    app.switch_focus();
    app.navigate_to_next_change();
    assert_eq!(app.ui_state.diff_cursor_line, 2);
    assert_eq!(app.get_change_status(), Some((1, 3)));
    app.navigate_to_next_change();
    assert_eq!(app.ui_state.diff_cursor_line, 3);
    app.navigate_to_next_change();
    assert_eq!(app.ui_state.diff_cursor_line, 5);
    app.navigate_to_next_change();
    assert_eq!(app.ui_state.diff_cursor_line, 5);
    app.navigate_to_previous_change();
    assert_eq!(app.ui_state.diff_cursor_line, 3);
    app.navigate_to_previous_change();
    app.navigate_to_previous_change();
    assert_eq!(app.ui_state.diff_cursor_line, 2);
    assert_eq!(app.current_change_index, Some(0));
}

#[test]
fn copy_messages_and_timeout() {
    let mut app = create_test_app();
    assert!(app.copy_content(geschichte::app::CopyTarget::FullSha).is_none());
    app.commits = create_test_commits();
    app.start_copy_mode();
    let content = app.copy_content(geschichte::app::CopyTarget::ShortSha).unwrap();
    assert_eq!(content, "abc123d");
    app.copy_succeeded(geschichte::app::CopyTarget::ShortSha, &content, 10);
    assert_eq!(app.copy_message.as_deref(), Some("Copied: abc123d"));
    assert!(app.copy_mode.is_none());
    app.copy_succeeded(geschichte::app::CopyTarget::Message, "whatever", 10);
    assert_eq!(app.copy_message.as_deref(), Some("Copied commit message"));
    assert_eq!(app.copy_content(geschichte::app::CopyTarget::Path).unwrap(), "test.rs");
    app.copy_succeeded(geschichte::app::CopyTarget::Path, "test.rs", 10);
    assert_eq!(app.copy_message.as_deref(), Some("Copied Path: test.rs"));
    app.copy_failed("Clipboard not available".to_string(), 11);
    assert_eq!(app.error_message.as_deref(), Some("Clipboard not available"));
    app.check_message_timeout(13);
    assert!(app.copy_message.is_some());
    app.check_message_timeout(14);
    assert!(app.copy_message.is_none());
    assert!(app.error_message.is_none());
    assert!(app.message_timer.is_none());
}

#[test]
fn commit_metadata_is_added_once() {
    let mut app = create_test_app();
    app.commits = vec![
        Commit::new_working_directory("Modified".to_string()),
        Commit::new(
            "h1".to_string(),
            "h".to_string(),
            "d".to_string(),
            "a".to_string(),
            "Fix bug (#12)".to_string(),
        ),
    ];
    assert!(app.commit_metadata_needed().is_none());
    app.selected_index = 1;
    assert_eq!(app.commit_metadata_needed(), Some(("h1".to_string(), true, true)));
    let stats = geschichte::commit::CommitStats { files_changed: 1, insertions: 2, deletions: 3 };
    app.apply_commit_metadata(1, Some(vec!["branch:main".to_string()]), Some(Some(stats)));
    assert_eq!(app.commits[1].refs, vec!["branch:main".to_string()]);
    assert_eq!(app.commits[1].stats, Some(stats));
    assert_eq!(app.commits[1].pr_info.as_ref().unwrap().number, 12);
    assert_eq!(app.commit_metadata_needed(), Some(("h1".to_string(), false, false)));
    app.apply_commit_metadata(1, Some(vec!["tag:v1".to_string()]), Some(None));
    assert_eq!(app.commits[1].refs, vec!["branch:main".to_string()]);
    assert_eq!(app.commits[1].stats, Some(stats));
    app.apply_commit_metadata(0, Some(vec!["tag:v1".to_string()]), None);
    assert!(app.commits[0].refs.is_empty());
    app.show_commit_info_popup();
    for _ in 0..3 {
        app.scroll_commit_info_down();
    }
    assert_eq!(app.commit_info_popup.as_ref().unwrap().scroll_position, 0);
}

#[test]
fn editor_opens_at_the_line_of_the_new_file() {
    let mut app = create_test_app();
    app.show_diff("@@ -10,2 +20,2 @@\n a\n-b\n+c\n".to_string());
    assert_eq!(app.editor_target(), Some(("test.rs".to_string(), 0)));
    app.ui_state.diff_cursor_line = 3;
    assert_eq!(app.editor_target(), Some(("test.rs".to_string(), 21)));
    app.ui_state.diff_cursor_line = 2;
    assert_eq!(app.editor_target(), Some(("test.rs".to_string(), 0)));
    app.ui_state.diff_cursor_line = 4;
    assert_eq!(app.editor_target(), None);
}

#[test]
fn file_picker_opens_only_from_history() {
    let mut app = create_test_app();
    app.came_from_file_picker = true;
    app.switch_to_file_picker(Vec::new());
    assert!(matches!(
        &app.mode,
        geschichte::app::AppMode::FilePicker {
            context: geschichte::app::FilePickerContext::SwitchFile { previous_file },
            ..
        } if previous_file == "test.rs"
    ));
    assert!(!app.came_from_file_picker);
    assert!(app.get_focused_panel().is_none());
    assert!(app.get_file_path().is_none());
    assert!(app.begin_loading().is_none());
    assert!(app.load_diff_for_selected_commit().is_none());
    assert!(app.toggle_diff_range_selection().is_none());
    assert_eq!(app.diff_range_start, None);
    let picker = App::new_file_picker("/r".to_string(), Vec::new(), 3, true, false, LayoutMode::Auto);
    assert!(matches!(
        &picker.mode,
        geschichte::app::AppMode::FilePicker { context: geschichte::app::FilePickerContext::Initial, .. }
    ));
}

#[test]
fn quit_key_closes_the_commit_window_first() {
    let mut app = create_test_app();
    app.commits = create_test_commits();
    app.show_commit_info_popup();
    app.close_or_quit();
    assert!(!app.show_commit_info && app.commit_info_popup.is_none());
    assert!(!app.should_quit);
    app.close_or_quit();
    assert!(app.should_quit);
}

#[test]
fn escape_leaves_one_thing_at_a_time() {
    let mut app = create_test_app();
    app.commits = create_test_commits();
    app.ui_state.toggle_help();
    app.show_commit_info_popup();
    app.start_diff_search();
    app.start_copy_mode();
    app.diff_range_start = Some(1);
    app.current_diff_range = Some((1, 0));
    assert!(!app.escape());
    assert!(!app.ui_state.show_help && app.show_commit_info);
    assert!(!app.escape());
    assert!(!app.show_commit_info && app.diff_search_state.is_some());
    assert!(!app.escape());
    assert!(app.diff_search_state.is_none() && app.copy_mode.is_some());
    assert!(!app.escape());
    assert!(app.copy_mode.is_none() && app.copy_message.is_none());
    assert_eq!(app.diff_range_start, Some(1));
    assert!(!app.escape());
    assert_eq!((app.diff_range_start, app.current_diff_range), (None, None));
    assert!(app.escape());
    assert!(!app.should_quit);
}

#[test]
fn typing_a_query_searches_at_every_key() {
    let mut app = create_test_app();
    app.show_diff(" one\n+two\n-otto\n".to_string());
    assert!(!app.search_type_char('o'));
    assert!(!app.search_backspace());
    assert!(!app.search_confirm());
    app.start_diff_search();
    assert!(app.search_type_char('o'));
    assert_eq!(app.diff_search_state.as_ref().unwrap().results.len(), 4);
    assert!(app.search_type_char('t'));
    assert_eq!(app.diff_search_state.as_ref().unwrap().query, "ot");
    assert_eq!(app.diff_search_state.as_ref().unwrap().results.len(), 1);
    assert!(app.search_type_char('('));
    assert!(app.diff_search_state.as_ref().unwrap().results.is_empty());
    assert!(app.search_backspace());
    assert!(app.search_backspace());
    assert_eq!(app.diff_search_state.as_ref().unwrap().results.len(), 4);
    assert!(!app.steps_through_results());
    assert!(app.search_confirm());
    assert!(app.steps_through_results());
    let state = app.diff_search_state.as_ref().unwrap();
    assert!(!state.is_input_mode);
    assert_eq!(state.current_result, Some(0));
    assert_eq!(app.ui_state.diff_cursor_line, 0);
    assert!(!app.search_type_char('x'));
    assert!(!app.search_confirm());
    app.start_diff_search();
    assert!(app.search_backspace());
    assert!(app.search_confirm());
    assert!(!app.steps_through_results());
    assert_eq!(app.diff_search_state.as_ref().unwrap().current_result, None);
}

#[test]
fn copy_key_pressed_twice_copies_the_hash() {
    let mut app = create_test_app();
    assert_eq!(app.yank(), None);
    assert!(app.copy_mode.is_some());
    assert_eq!(
        app.copy_message.as_deref(),
        Some("Copy mode: s=SHA, h=short, m=msg, a=author, d=date, u=URL, y=SHA, p=path")
    );
    assert_eq!(app.yank(), Some(geschichte::app::CopyTarget::FullSha));
    assert!(app.copy_mode.is_some());
    app.clear_copy_message();
    assert!(app.copy_message.is_none() && app.message_timer.is_none());
}
