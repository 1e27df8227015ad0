use geschichte::app::events::{Action, Command, KeyCode, KeyEvent, KeyModifiers, KeyOutcome};
use geschichte::app::{App, AppMode, CopyTarget, DiffRequest, FilePickerContext, FocusedPanel};
use geschichte::cli::LayoutMode;
use geschichte::commit::Commit;
use geschichte::git::files::{FileStatus, GitFile};
use geschichte::ui::file_picker::FilePickerState;

fn create_test_app() -> App {
    App::new_history(
        "/tmp/test_repo".to_string(),
        "test.txt".to_string(),
        3,
        false,
        false,
        LayoutMode::Auto,
    )
}

fn file(path: &str, status: FileStatus, size: u64) -> GitFile {
    GitFile {
        path: path.to_string(),
        display_path: path.to_string(),
        status,
        modified: None,
        size: Some(size),
    }
}

fn plain(c: char) -> KeyEvent {
    KeyEvent::new(KeyCode::Char(c), KeyModifiers::NONE)
}

#[test]
fn test_q_key_behavior() {
    let mut app = create_test_app();
    app.diff_range_start = Some(1);

    app.handle_key(KeyEvent::new(KeyCode::Char('q'), KeyModifiers::NONE));
    assert!(app.diff_range_start.is_none());
    assert!(!app.should_quit);

    app.handle_key(KeyEvent::new(KeyCode::Char('q'), KeyModifiers::NONE));
    assert!(app.should_quit);
}

#[test]
fn test_key_handling() {
    let mut app = create_test_app();

    app.handle_key(KeyEvent::new(KeyCode::Char('q'), KeyModifiers::NONE));
    assert!(app.should_quit);
}

#[test]
fn test_file_picker_escape_sequence_filtering() {
    let mut app = create_test_app();

    let files = vec![
        file("test1.rs", FileStatus::Clean, 100),
        file("test2.rs", FileStatus::Modified, 200),
    ];

    let file_picker_state = FilePickerState::new(files);
    app.mode = AppMode::FilePicker { state: file_picker_state, context: FilePickerContext::Initial };

    let problematic_sequence = vec![
        KeyEvent::new(KeyCode::Up, KeyModifiers::NONE),
        KeyEvent::new(KeyCode::Char('['), KeyModifiers::NONE),
        KeyEvent::new(KeyCode::Down, KeyModifiers::NONE),
        KeyEvent::new(KeyCode::Char('\x1b'), KeyModifiers::NONE),
        KeyEvent::new(KeyCode::Up, KeyModifiers::NONE),
        KeyEvent::new(KeyCode::Char('['), KeyModifiers::NONE),
        KeyEvent::new(KeyCode::Down, KeyModifiers::NONE),
        KeyEvent::new(KeyCode::Char('A'), KeyModifiers::NONE),
        KeyEvent::new(KeyCode::Char('\x7f'), KeyModifiers::NONE),
        KeyEvent::new(KeyCode::Char('t'), KeyModifiers::NONE),
    ];

    for key_event in problematic_sequence {
        let action = app.handle_key(key_event);
        assert_eq!(action, Action::Nothing, "Key handling should not fail/crash");
    }

    assert!(!app.should_quit, "App should not quit from key sequence");

    if let AppMode::FilePicker { state, .. } = &app.mode {
        assert_eq!(state.query, "At", "Only valid characters should be in search query");
    } else {
        panic!("App should still be in FilePicker mode");
    }
}

#[test]
fn test_rapid_arrow_key_stress() {
    let mut app = create_test_app();

    let files: Vec<GitFile> = (0..50)
        .map(|i| {
            file(
                &format!("test{}.rs", i),
                if i % 3 == 0 { FileStatus::Modified } else { FileStatus::Clean },
                100 + i * 10,
            )
        })
        .collect();

    let file_picker_state = FilePickerState::new(files);
    app.mode = AppMode::FilePicker { state: file_picker_state, context: FilePickerContext::Initial };

    if let AppMode::FilePicker { .. } = &app.mode {
    } else {
        panic!("Should be in FilePicker mode");
    };

    let rapid_keys = vec![
        KeyCode::Down,
        KeyCode::Down,
        KeyCode::Up,
        KeyCode::Down,
        KeyCode::Up,
        KeyCode::Up,
        KeyCode::Down,
        KeyCode::Down,
        KeyCode::Up,
        KeyCode::Down,
        KeyCode::Up,
        KeyCode::Up,
    ];

    for _ in 0..100 {
        for &key in &rapid_keys {
            let action = app.handle_key(KeyEvent::new(key, KeyModifiers::NONE));
            assert_eq!(action, Action::Nothing, "Rapid arrow key handling should not fail");
            assert!(!app.should_quit, "App should not quit during navigation");
        }
    }

    assert!(!app.should_quit, "App should not quit from rapid navigation");

    if let AppMode::FilePicker { state, .. } = &app.mode {
        assert!(state.query.is_empty(), "Search query should remain empty during navigation");
        assert!(state.selected < 50, "Selection should be within file bounds");
        assert!(state.selected <= 49, "Selection should be valid index");
        assert_eq!(state.selected, 0);
    } else {
        panic!("App should still be in FilePicker mode");
    }
}

#[test]
fn test_mixed_rapid_input_with_corruption() {
    let mut app = create_test_app();

    let files = vec![
        file("alpha.rs", FileStatus::Clean, 100),
        file("beta.rs", FileStatus::Modified, 200),
    ];

    let file_picker_state = FilePickerState::new(files);
    app.mode = AppMode::FilePicker { state: file_picker_state, context: FilePickerContext::Initial };

    for i in 0..500 {
        let key_event = match i % 8 {
            0 | 4 => KeyEvent::new(KeyCode::Up, KeyModifiers::NONE),
            1 | 5 => KeyEvent::new(KeyCode::Down, KeyModifiers::NONE),
            2 => KeyEvent::new(KeyCode::Char('['), KeyModifiers::NONE),
            3 => KeyEvent::new(KeyCode::Char('\x1b'), KeyModifiers::NONE),
            6 => KeyEvent::new(KeyCode::Char('a'), KeyModifiers::NONE),
            7 => KeyEvent::new(KeyCode::Char('\x7f'), KeyModifiers::NONE),
            _ => unreachable!(),
        };

        let action = app.handle_key(key_event);
        assert_eq!(action, Action::Nothing, "Mixed input handling should not fail at iteration {}", i);
    }

    assert!(!app.should_quit, "App should survive mixed rapid input");

    if let AppMode::FilePicker { state, .. } = &app.mode {
        let expected_a_count = 500 / 8;
        let expected_query = "a".repeat(expected_a_count);
        assert_eq!(state.query, expected_query, "Should only contain valid search characters");
        assert!(state.selected < 2, "Selection should be within bounds");
    } else {
        panic!("App should still be in FilePicker mode");
    }
}

#[test]
fn test_file_picker_return_functionality() {
    let files = vec![
        file("src/main.rs", FileStatus::Modified, 1024),
        file("README.md", FileStatus::Staged, 512),
    ];

    let file_picker_state = FilePickerState::new(files.clone());
    let mut app = App {
        repo_root: ".".to_string(),
        should_quit: false,
        context_lines: 3,
        follow_renames: true,
        first_parent: false,
        mode: AppMode::FilePicker { state: file_picker_state, context: FilePickerContext::Initial },
        commits: Vec::new(),
        selected_index: 0,
        rename_map: Vec::new(),
        current_diff: String::new(),
        current_side_by_side_diff: None,
        diff_cache: geschichte::cache::DiffCache::new(10),
        ui_state: geschichte::ui::state::UIState::new(),
        layout_mode: LayoutMode::Unified,
        loading: false,
        error_message: None,
        diff_range_start: None,
        current_diff_range: None,
        copy_mode: None,
        copy_message: None,
        show_commit_info: false,
        commit_info_popup: None,
        current_changes: Vec::new(),
        current_change_index: None,
        message_timer: None,
        diff_search_state: None,
        came_from_file_picker: false,
        redraw_tui: false,
    };

    assert!(!app.came_from_file_picker);

    // Selecting a file enters its history; loading it is left to the host.
    let action = app.handle_key(KeyEvent::new(KeyCode::Enter, KeyModifiers::NONE));
    assert_eq!(action, Action::LoadHistory);
    assert!(matches!(app.mode, AppMode::History { .. }));
    assert!(app.came_from_file_picker);
    assert_eq!(app.get_file_path().unwrap().as_str(), "src/main.rs");

    // The quit key leads back to the file picker; listing the files is
    // left to the host.
    let action = app.handle_key(KeyEvent::new(KeyCode::Char('q'), KeyModifiers::NONE));
    assert_eq!(action, Action::OpenFilePicker);
    assert!(!app.should_quit);
    app.switch_to_file_picker(files);

    assert!(matches!(app.mode, AppMode::FilePicker { .. }));
    assert!(!app.came_from_file_picker);
}

fn history_with_commits() -> App {
    let mut app = create_test_app();
    for name in ["aaaa", "bbbb", "cccc"] {
        app.commits.push(Commit::new(
            format!("{}0000", name),
            name.to_string(),
            "2024-01-01".to_string(),
            "Ann <ann@example.com>".to_string(),
            format!("subject {}", name),
        ));
    }
    app
}

#[test]
fn keys_mean_what_the_state_makes_of_them() {
    let mut app = history_with_commits();
    assert_eq!(app.command_for(plain('k')), Some(Command::SelectionUp));
    assert_eq!(app.command_for(KeyEvent::new(KeyCode::Down, KeyModifiers::NONE)), Some(Command::SelectionDown));
    assert_eq!(app.command_for(KeyEvent::new(KeyCode::Down, KeyModifiers::SHIFT)), None);
    assert_eq!(app.command_for(KeyEvent::new(KeyCode::Tab, KeyModifiers::NONE)), Some(Command::SwitchFocus));
    assert_eq!(app.command_for(plain('n')), Some(Command::NextChange));
    assert_eq!(app.command_for(KeyEvent::new(KeyCode::Char('N'), KeyModifiers::SHIFT)), Some(Command::PreviousChange));
    assert_eq!(app.command_for(KeyEvent::new(KeyCode::PageUp, KeyModifiers::ALT)), Some(Command::PageUp));
    assert_eq!(app.command_for(KeyEvent::new(KeyCode::Char('d'), KeyModifiers::CONTROL)), Some(Command::PageDown));
    assert_eq!(app.command_for(KeyEvent::new(KeyCode::Char('b'), KeyModifiers::CONTROL)), Some(Command::PageUp));
    assert_eq!(app.command_for(plain('a')), Some(Command::ScrollLeft));
    assert_eq!(app.command_for(plain('s')), Some(Command::ScrollRight));
    assert_eq!(app.command_for(plain('y')), Some(Command::Yank));
    assert_eq!(app.command_for(KeyEvent::new(KeyCode::Char('Y'), KeyModifiers::SHIFT)), Some(Command::Copy(CopyTarget::ShortSha)));
    assert_eq!(app.command_for(plain('c')), Some(Command::StartCopy));
    assert_eq!(app.command_for(plain('m')), None);
    assert_eq!(app.command_for(plain('q')), Some(Command::CloseOrQuit));
    assert_eq!(app.command_for(KeyEvent::new(KeyCode::Esc, KeyModifiers::OTHER)), Some(Command::Escape));
    assert_eq!(app.command_for(plain('h')), Some(Command::ShrinkSplit));
    assert_eq!(app.command_for(plain('l')), Some(Command::GrowSplit));
    assert_eq!(app.command_for(plain('f')), Some(Command::OpenFilePicker));
    assert_eq!(app.command_for(plain('/')), None);
    assert_eq!(app.command_for(plain('d')), Some(Command::ToggleRange));
    assert_eq!(app.command_for(plain('?')), Some(Command::ToggleHelp));
    assert_eq!(app.command_for(plain('i')), Some(Command::ShowInfo));
    assert_eq!(app.command_for(KeyEvent::new(KeyCode::Enter, KeyModifiers::NONE)), Some(Command::ShowInfo));
    assert_eq!(app.command_for(KeyEvent::new(KeyCode::F(1), KeyModifiers::NONE)), None);

    // While a copy command waits, letters name its target.
    app.start_copy_mode();
    assert_eq!(app.command_for(plain('a')), Some(Command::Copy(CopyTarget::Author)));
    assert_eq!(app.command_for(plain('s')), Some(Command::Copy(CopyTarget::FullSha)));
    assert_eq!(app.command_for(plain('h')), Some(Command::Copy(CopyTarget::ShortSha)));
    assert_eq!(app.command_for(plain('m')), Some(Command::Copy(CopyTarget::Message)));
    assert_eq!(app.command_for(plain('d')), Some(Command::Copy(CopyTarget::Date)));
    assert_eq!(app.command_for(plain('u')), Some(Command::Copy(CopyTarget::GitHubUrl)));
    assert_eq!(app.command_for(plain('p')), Some(Command::Copy(CopyTarget::Path)));
    assert_eq!(app.command_for(plain('n')), None);
    assert_eq!(app.command_for(plain('l')), Some(Command::GrowSplit));
    app.cancel_copy_mode();

    // With the focus on the diff, the same keys move the cursor.
    app.switch_focus();
    assert_eq!(app.command_for(plain('j')), Some(Command::CursorDown));
    assert_eq!(app.command_for(plain('k')), Some(Command::CursorUp));
    assert_eq!(app.command_for(plain('/')), Some(Command::StartSearch));
    assert_eq!(app.command_for(plain('y')), None);
    assert_eq!(app.command_for(plain('i')), Some(Command::Nothing));
    app.start_copy_mode();
    assert_eq!(app.command_for(plain('a')), None);
    app.cancel_copy_mode();

    // The commit window takes the arrows and copying.
    app.show_commit_info_popup();
    assert_eq!(app.command_for(plain('j')), Some(Command::InfoDown));
    assert_eq!(app.command_for(plain('k')), Some(Command::InfoUp));
    assert_eq!(app.command_for(plain('c')), Some(Command::Copy(CopyTarget::FullSha)));
    assert_eq!(app.command_for(plain('/')), None);
    app.hide_commit_info_popup();

    // A query that is typed takes characters before anything else.
    app.start_diff_search();
    assert_eq!(app.command_for(plain('q')), Some(Command::SearchType('q')));
    assert_eq!(app.command_for(KeyEvent::new(KeyCode::Backspace, KeyModifiers::NONE)), Some(Command::SearchBackspace));
    assert_eq!(app.command_for(KeyEvent::new(KeyCode::Enter, KeyModifiers::NONE)), Some(Command::SearchConfirm));
    assert_eq!(app.command_for(KeyEvent::new(KeyCode::Esc, KeyModifiers::NONE)), Some(Command::SearchCancel));
    assert_eq!(app.command_for(KeyEvent::new(KeyCode::Char('N'), KeyModifiers::SHIFT)), Some(Command::PreviousChange));
    assert_eq!(app.command_for(KeyEvent::new(KeyCode::Tab, KeyModifiers::NONE)), Some(Command::SwitchFocus));
}

#[test]
fn keys_drive_a_search() {
    let mut app = history_with_commits();
    app.show_diff(" one\n+two\n-otto\n".to_string());
    app.handle_key(KeyEvent::new(KeyCode::Tab, KeyModifiers::NONE));
    assert_eq!(app.get_focused_panel(), Some(FocusedPanel::Diff));
    for key in [plain('/'), plain('t'), plain('x'), KeyEvent::new(KeyCode::Backspace, KeyModifiers::NONE)] {
        assert_eq!(app.handle_key(key), Action::Nothing);
    }
    assert_eq!(app.diff_search_state.as_ref().unwrap().query, "t");
    assert_eq!(app.diff_search_state.as_ref().unwrap().results.len(), 3);
    app.handle_key(KeyEvent::new(KeyCode::Enter, KeyModifiers::NONE));
    assert_eq!(app.ui_state.diff_cursor_line, 1);
    app.handle_key(plain('n'));
    assert_eq!(app.diff_search_state.as_ref().unwrap().current_result, Some(1));
    assert_eq!(app.ui_state.diff_cursor_line, 2);
    app.handle_key(KeyEvent::new(KeyCode::Char('N'), KeyModifiers::SHIFT));
    app.handle_key(KeyEvent::new(KeyCode::Char('N'), KeyModifiers::SHIFT));
    assert_eq!(app.diff_search_state.as_ref().unwrap().current_result, Some(2));
    app.handle_key(KeyEvent::new(KeyCode::Esc, KeyModifiers::NONE));
    assert!(app.diff_search_state.is_none());
    // Without a search the same keys step through the changes.
    app.ui_state.diff_cursor_line = 0;
    app.handle_key(plain('n'));
    assert_eq!(app.ui_state.diff_cursor_line, 1);
    app.handle_key(plain('n'));
    assert_eq!(app.ui_state.diff_cursor_line, 2);
}

#[test]
fn keys_ask_for_what_the_library_cannot_do() {
    let mut app = history_with_commits();
    match app.handle_key(plain('j')) {
        Action::Load(DiffRequest::Commit { hash, path }) => {
            assert_eq!((hash.as_str(), path.as_str()), ("bbbb0000", "test.txt"));
            app.diff_loaded(hash, "+a\n".to_string());
        }
        other => panic!("unexpected action {:?}", other),
    }
    assert_eq!(app.selected_index, 1);
    assert_eq!(app.handle_key(plain('d')), Action::Nothing);
    assert_eq!(app.diff_range_start, Some(1));
    app.handle_key(plain('k'));
    assert!(matches!(app.handle_key(plain('d')), Action::Load(DiffRequest::Range { older_index: 1, newer_index: 0, .. })));
    assert_eq!(app.handle_key(plain('i')), Action::ShowCommitInfo);
    assert!(!app.show_commit_info);
    assert_eq!(app.handle_key(plain('f')), Action::OpenFilePicker);
    assert_eq!(app.handle_key(plain('y')), Action::Nothing);
    assert_eq!(app.handle_key(plain('y')), Action::Copy(CopyTarget::FullSha));
    assert_eq!(app.handle_key(plain('u')), Action::Copy(CopyTarget::GitHubUrl));
    assert_eq!(app.handle_key(KeyEvent::new(KeyCode::Esc, KeyModifiers::NONE)), Action::Nothing);
    assert!(app.copy_mode.is_none());
    assert_eq!(app.handle_key(KeyEvent::new(KeyCode::Esc, KeyModifiers::NONE)), Action::ResetToFilePicker);
    assert_eq!(app.handle_key(plain('?')), Action::Nothing);
    assert!(app.ui_state.show_help);
    assert_eq!(app.handle_key(plain('l')), Action::Nothing);
    assert_eq!(app.ui_state.split_percent, 45);
    assert_eq!(app.handle_key(plain('h')), Action::Nothing);
    assert_eq!(app.ui_state.split_percent, 40);
    assert_eq!(app.handle_key(KeyEvent::new(KeyCode::F(5), KeyModifiers::NONE)), Action::Nothing);
}

#[test]
fn each_group_of_keys_takes_only_its_own() {
    let mut app = history_with_commits();
    let tab = KeyEvent::new(KeyCode::Tab, KeyModifiers::NONE);
    assert_eq!(app.handle_scrolling_keys(tab), KeyOutcome { handled: false, action: Action::Nothing });
    assert_eq!(app.handle_ui_keys(tab), KeyOutcome { handled: false, action: Action::Nothing });
    assert_eq!(app.handle_copy_keys(tab), KeyOutcome { handled: false, action: Action::Nothing });
    assert_eq!(app.handle_change_navigation_keys(tab), KeyOutcome { handled: false, action: Action::Nothing });
    assert_eq!(app.handle_search_input_keys(tab), KeyOutcome { handled: false, action: Action::Nothing });
    assert_eq!(app.get_focused_panel(), Some(FocusedPanel::Commits));
    assert_eq!(app.handle_navigation_keys(tab), KeyOutcome { handled: true, action: Action::Nothing });
    assert_eq!(app.get_focused_panel(), Some(FocusedPanel::Diff));
    app.show_diff(" a\n b\n c\n".to_string());
    assert!(app.handle_navigation_keys(plain('j')).handled);
    assert_eq!(app.ui_state.diff_cursor_line, 1);
    assert!(app.handle_scrolling_keys(plain('s')).handled);
    assert_eq!(app.ui_state.diff_horizontal_scroll, 0);
    assert!(app.handle_scrolling_keys(KeyEvent::new(KeyCode::PageDown, KeyModifiers::NONE)).handled);
    assert!(app.handle_ui_keys(plain('/')).handled);
    assert!(app.handle_search_input_keys(plain('b')).handled);
    assert_eq!(app.diff_search_state.as_ref().unwrap().results.len(), 1);
    assert!(!app.handle_change_navigation_keys(plain('x')).handled);
}
