use geschichte::app::changes::{first_not_below, next_change, previous_change};
use geschichte::cli::{Args, LayoutMode};
use geschichte::commit::Commit;
use geschichte::diff::highlight::{Color, Style};
use geschichte::git::files::{FileStatus, GitFile};
use geschichte::ui::common::commits::CommitsPanelLayout;
use geschichte::ui::common::utils::{
    create_border_style, create_commits_title, create_diff_title, create_side_by_side_title,
};
use geschichte::ui::file_picker::{create_highlighted_text, rank_matches, Candidate, FilePickerState};
use geschichte::ui::state::{percent_of, UIState};

fn sample_git_files() -> Vec<GitFile> {
    vec![
        GitFile {
            path: "src/main.rs".to_string(),
            display_path: "src/main.rs".to_string(),
            status: FileStatus::Clean,
            modified: None,
            size: Some(1024),
        },
        GitFile {
            path: "src/app.rs".to_string(),
            display_path: "src/app.rs".to_string(),
            status: FileStatus::Modified,
            modified: None,
            size: Some(2048),
        },
        GitFile {
            path: "tests/test.rs".to_string(),
            display_path: "tests/test.rs".to_string(),
            status: FileStatus::Clean,
            modified: None,
            size: Some(512),
        },
    ]
}

#[test]
fn test_fuzzy_filtering() {
    let mut picker = FilePickerState::new(sample_git_files());
    picker.append_char('m');
    picker.append_char('a');
    picker.append_char('i');

    assert!(!picker.filtered_files.is_empty());
    let has_main = picker
        .filtered_files
        .iter()
        .any(|(idx, _)| picker.files[*idx].path.contains("main.rs"));
    assert!(has_main);
}

#[test]
fn test_multi_word_fuzzy_search() {
    let mut picker = FilePickerState::new(sample_git_files());
    picker.append_char('m');
    picker.append_char('a');
    picker.append_char('i');
    picker.append_char(' ');
    picker.append_char('r');
    picker.append_char('s');
    assert_eq!(picker.query, "mai rs");
}

#[test]
fn test_file_navigation() {
    let mut picker = FilePickerState::new(sample_git_files());

    assert_eq!(picker.selected, 0);
    picker.move_down();
    assert_eq!(picker.selected, 1);
    picker.move_up();
    assert_eq!(picker.selected, 0);
}

#[test]
fn test_query_clear() {
    let mut picker = FilePickerState::new(sample_git_files());
    picker.append_char('t');
    picker.append_char('e');
    picker.append_char('s');
    picker.append_char('t');

    picker.clear_query();
    assert!(picker.query.is_empty());
    assert_eq!(picker.selected, 0);
}

#[test]
fn test_empty_query_shows_all_files() {
    let files = sample_git_files();
    let file_count = files.len();
    let picker = FilePickerState::new(files);

    assert_eq!(picker.filtered_files.len(), file_count);
}

#[test]
fn file_picker_tests_test_case_insensitive_search() {
    let mut picker = FilePickerState::new(sample_git_files());
    picker.append_char('m');
    picker.append_char('a');
    picker.append_char('i');

    assert!(!picker.filtered_files.is_empty());
}

#[test]
fn picker_lists_matching_files_with_their_matched_positions() {
    let mut picker = FilePickerState::new(sample_git_files());
    assert_eq!(picker.filtered_files, vec![(0, vec![]), (1, vec![]), (2, vec![])]);
    picker.update_query("main".to_string());
    assert_eq!(picker.filtered_files, vec![(0, vec![4, 5, 6, 7])]);
    assert_eq!(picker.get_selected_file().unwrap().display_path, "src/main.rs");
    picker.update_query("zzz".to_string());
    assert!(picker.filtered_files.is_empty());
    assert!(picker.get_selected_file().is_none());
    picker.move_down();
    assert_eq!(picker.selected, 0);
    picker.delete_char();
    picker.delete_char();
    picker.delete_char();
    picker.delete_char();
    assert_eq!(picker.query, "");
    assert_eq!(picker.filtered_files.len(), 3);
    picker.move_down();
    picker.move_down();
    picker.move_down();
    assert_eq!(picker.selected, 2);
    assert_eq!(picker.get_selected_file().unwrap().display_path, "tests/test.rs");
    picker.append_char('r');
    assert_eq!(picker.selected, 0);
    assert_eq!(picker.filtered_files.len(), 3);
    let copy = picker.clone();
    assert_eq!(copy.query, "r");
    assert_eq!(copy.filtered_files, picker.filtered_files);
}

#[test]
fn candidates_are_ranked_by_score_and_keep_their_order() {
    let candidate = |score, file_index| Candidate { score, file_index, indices: vec![file_index] };
    let listing = rank_matches(vec![
        candidate(5, 0),
        candidate(9, 1),
        candidate(5, 2),
        candidate(-3, 3),
        candidate(9, 4),
        candidate(7, 5),
    ]);
    let order: Vec<usize> = listing.iter().map(|(index, _)| *index).collect();
    assert_eq!(order, vec![1, 4, 5, 0, 2, 3]);
    assert_eq!(listing[2].1, vec![5]);
    assert!(rank_matches(Vec::new()).is_empty());
}

#[test]
fn matched_characters_of_a_path_are_set_apart() {
    let plain = Style { fg: Some(Color::White), bg: None, bold: false, italic: false, underlined: false };
    let matched = Style { fg: Some(Color::Yellow), bg: None, bold: true, italic: false, underlined: false };
    let spans = create_highlighted_text("src/main.rs", &vec![4, 5, 9]);
    let parts: Vec<(&str, Style)> = spans.iter().map(|s| (s.content.as_str(), s.style)).collect();
    assert_eq!(
        parts,
        vec![("src/", plain), ("m", matched), ("a", matched), ("in.", plain), ("r", matched), ("s", plain)]
    );
    let spans = create_highlighted_text("añb", &vec![]);
    assert_eq!(spans.len(), 1);
    assert_eq!((spans[0].content.as_str(), spans[0].style), ("añb", plain));
    let spans = create_highlighted_text("añb", &vec![1, 7, 0]);
    let parts: Vec<&str> = spans.iter().map(|s| s.content.as_str()).collect();
    assert_eq!(parts, vec!["a", "ñ", "a", "ñb"]);
    let spans = create_highlighted_text("", &vec![0]);
    assert_eq!(spans.len(), 1);
    assert_eq!(spans[0].content, "");
}

#[test]
fn scrolling_down_stops_when_the_last_line_is_shown() {
    let mut ui = UIState::new();
    ui.handle_resize(80, 38);
    assert_eq!(ui.get_visible_lines(&LayoutMode::Unified), 20);
    for _ in 0..85 {
        ui.scroll_diff_down(100);
    }
    assert_eq!(ui.diff_scroll, 80);
    for _ in 0..3 {
        ui.scroll_diff_up();
    }
    assert_eq!(ui.diff_scroll, 77);
    for _ in 0..100 {
        ui.scroll_diff_up();
    }
    assert_eq!(ui.diff_scroll, 0);
    ui.scroll_diff_down(20);
    assert_eq!(ui.diff_scroll, 0);
    ui.scroll_diff_down(0);
    assert_eq!(ui.diff_scroll, 0);
}

#[test]
fn page_keys_move_by_half_the_diff_area() {
    let mut ui = UIState::default();
    assert_eq!(ui.get_page_scroll_size(), 5);
    assert_eq!(ui.get_visible_lines(&LayoutMode::Unified), 11);
    assert_eq!(ui.get_visible_lines(&LayoutMode::Auto), 11);
    assert_eq!(ui.get_visible_lines(&LayoutMode::SideBySide), 14);
    ui.scroll_diff_page_down(100);
    assert_eq!(ui.diff_scroll, 5);
    for _ in 0..30 {
        ui.scroll_diff_page_down(100);
    }
    assert_eq!(ui.diff_scroll, 89);
    ui.scroll_diff_page_up();
    assert_eq!(ui.diff_scroll, 84);
    ui.diff_scroll = 3;
    ui.scroll_diff_page_up();
    assert_eq!(ui.diff_scroll, 0);
    ui.diff_scroll = 500;
    ui.scroll_diff_page_down(100);
    assert_eq!(ui.diff_scroll, 89);
    ui.diff_scroll = usize::MAX;
    ui.scroll_diff_page_down(usize::MAX);
    assert_eq!(ui.diff_scroll, usize::MAX - 11);
    ui.handle_resize(80, 2);
    assert_eq!(ui.get_page_scroll_size(), 0);
    assert_eq!(ui.get_visible_lines(&LayoutMode::Unified), 0);
    ui.handle_resize(80, 0);
    assert_eq!(ui.get_visible_lines(&LayoutMode::SideBySide), 0);
    ui.handle_resize(80, u16::MAX);
    assert_eq!(ui.get_visible_lines(&LayoutMode::SideBySide), 45871);
    assert_eq!(ui.get_page_scroll_size(), 19658);
}

#[test]
fn split_stays_between_twenty_and_seventy_percent() {
    let mut ui = UIState::new();
    assert_eq!(ui.split_percent, 40);
    for expected in [45, 50, 55, 60, 65, 70, 70, 70] {
        ui.increase_split_ratio();
        assert_eq!(ui.split_percent, expected);
    }
    assert_eq!(ui.get_visible_lines(&LayoutMode::Unified), 4);
    for expected in [65, 60, 55, 50, 45, 40, 35, 30, 25, 20, 20] {
        ui.decrease_split_ratio();
        assert_eq!(ui.split_percent, expected);
    }
    assert_eq!(ui.get_visible_lines(&LayoutMode::Unified), 16);
    ui.split_percent = 200;
    assert_eq!(ui.effective_split(), 70);
    ui.decrease_split_ratio();
    assert_eq!(ui.split_percent, 65);
    ui.split_percent = 3;
    assert_eq!(ui.get_page_scroll_size(), 7);
    ui.increase_split_ratio();
    assert_eq!(ui.split_percent, 25);
    assert_eq!(percent_of(47, 60), 28);
    assert_eq!(percent_of(u16::MAX, 100), 65535);
    assert_eq!(percent_of(9, 0), 0);
}

#[test]
fn horizontal_scrolling_goes_in_steps_of_four() {
    let mut ui = UIState::new();
    ui.scroll_diff_right(10);
    assert_eq!(ui.diff_horizontal_scroll, 4);
    ui.scroll_diff_right(10);
    assert_eq!(ui.diff_horizontal_scroll, 8);
    ui.scroll_diff_right(12);
    assert_eq!(ui.diff_horizontal_scroll, 8);
    ui.scroll_diff_right(13);
    assert_eq!(ui.diff_horizontal_scroll, 12);
    ui.scroll_diff_right(0);
    ui.scroll_diff_right(4);
    assert_eq!(ui.diff_horizontal_scroll, 12);
    assert_eq!(ui.commit_horizontal_scroll, 0);
    ui.scroll_commit_right(5);
    assert_eq!(ui.commit_horizontal_scroll, 4);
    ui.scroll_commit_left();
    ui.scroll_commit_left();
    assert_eq!(ui.commit_horizontal_scroll, 0);
    ui.scroll_diff_left();
    assert_eq!(ui.diff_horizontal_scroll, 8);
    ui.diff_horizontal_scroll = 2;
    ui.scroll_diff_left();
    assert_eq!(ui.diff_horizontal_scroll, 0);
    ui.diff_horizontal_scroll = usize::MAX - 2;
    ui.scroll_diff_right(usize::MAX);
    assert_eq!(ui.diff_horizontal_scroll, usize::MAX - 2);
    ui.diff_horizontal_scroll = 300;
    ui.commit_horizontal_scroll = 80;
    ui.handle_resize(80, 24);
    assert_eq!(ui.diff_horizontal_scroll, 70);
    assert_eq!(ui.commit_horizontal_scroll, 80);
    ui.handle_resize(5, 24);
    assert_eq!(ui.diff_horizontal_scroll, 0);
    assert_eq!(ui.commit_horizontal_scroll, 0);
}

#[test]
fn the_view_follows_the_cursor() {
    let mut ui = UIState::new();
    let layout = LayoutMode::Unified;
    for _ in 0..11 {
        ui.move_cursor_down(50, &layout);
    }
    assert_eq!((ui.diff_cursor_line, ui.diff_scroll), (11, 1));
    for _ in 0..100 {
        ui.move_cursor_down(50, &layout);
    }
    assert_eq!((ui.diff_cursor_line, ui.diff_scroll), (49, 39));
    ui.move_cursor_up(&layout);
    assert_eq!((ui.diff_cursor_line, ui.diff_scroll), (48, 39));
    for _ in 0..20 {
        ui.move_cursor_up(&layout);
    }
    assert_eq!((ui.diff_cursor_line, ui.diff_scroll), (28, 28));
    ui.move_cursor_down(0, &layout);
    assert_eq!(ui.diff_cursor_line, 28);
    ui.diff_cursor_line = 0;
    ui.move_cursor_up(&layout);
    assert_eq!((ui.diff_cursor_line, ui.diff_scroll), (0, 28));
    ui.ensure_cursor_visible(&layout);
    assert_eq!(ui.diff_scroll, 0);
    ui.ensure_diff_line_visible(10, &layout);
    assert_eq!((ui.diff_cursor_line, ui.diff_scroll), (10, 0));
    ui.ensure_diff_line_visible(11, &layout);
    assert_eq!((ui.diff_cursor_line, ui.diff_scroll), (11, 6));
    ui.ensure_diff_line_visible(2, &layout);
    assert_eq!((ui.diff_cursor_line, ui.diff_scroll), (2, 2));
    ui.ensure_diff_line_visible(usize::MAX, &layout);
    assert_eq!((ui.diff_cursor_line, ui.diff_scroll), (usize::MAX, usize::MAX - 5));
    ui.handle_resize(80, 1);
    ui.diff_cursor_line = 7;
    ui.ensure_cursor_visible(&layout);
    assert_eq!(ui.diff_scroll, 7);
    ui.toggle_help();
    assert!(ui.show_help);
    ui.reset_diff_scroll();
    assert_eq!((ui.diff_cursor_line, ui.diff_scroll, ui.diff_horizontal_scroll), (0, 0, 0));
    assert!(ui.show_help);
}

#[test]
fn next_and_previous_change_are_found_by_halving() {
    let changes = vec![2, 3, 5, 8, 13];
    assert_eq!(next_change(&changes, 0), Some(0));
    assert_eq!(next_change(&changes, 2), Some(1));
    assert_eq!(next_change(&changes, 4), Some(2));
    assert_eq!(next_change(&changes, 12), Some(4));
    assert_eq!(next_change(&changes, 13), None);
    assert_eq!(next_change(&changes, usize::MAX), None);
    assert_eq!(previous_change(&changes, 0), None);
    assert_eq!(previous_change(&changes, 2), None);
    assert_eq!(previous_change(&changes, 3), Some(0));
    assert_eq!(previous_change(&changes, 4), Some(1));
    assert_eq!(previous_change(&changes, 13), Some(3));
    assert_eq!(previous_change(&changes, 99), Some(4));
    assert_eq!(next_change(&Vec::new(), 1), None);
    assert_eq!(previous_change(&Vec::new(), 1), None);
    assert_eq!(first_not_below(&changes, 6), 3);
    for k in 0..changes.len() - 1 {
        assert_eq!(next_change(&changes, changes[k]), Some(k + 1));
        assert_eq!(previous_change(&changes, changes[k + 1]), Some(k));
    }
}

#[test]
fn halving_gives_one_answer_in_any_list() {
    // Equal entries: halving ends at the first of them.
    let doubled = vec![5, 5];
    assert_eq!(first_not_below(&doubled, 5), 0);
    assert_eq!(next_change(&doubled, 5), Some(1));
    assert_eq!(previous_change(&doubled, 5), None);
    // Entries out of order: halving looks at the middle entry only.
    let mixed = vec![9, 1, 7];
    assert_eq!(first_not_below(&mixed, 5), 2);
    assert_eq!(next_change(&mixed, 5), Some(2));
    assert_eq!(previous_change(&mixed, 5), Some(1));
    assert_eq!(next_change(&mixed, 7), None);
    assert_eq!(previous_change(&mixed, 0), None);
}

#[test]
fn scroll_is_pulled_back_to_the_last_full_screen() {
    let mut ui = UIState::new();
    // 24 rows: 11 lines of a unified diff fit, 14 of a side-by-side one.
    ui.diff_scroll = 95;
    ui.clamp_diff_scroll(100, &LayoutMode::Unified);
    assert_eq!(ui.diff_scroll, 89);
    ui.clamp_diff_scroll(100, &LayoutMode::SideBySide);
    assert_eq!(ui.diff_scroll, 86);
    ui.clamp_diff_scroll(200, &LayoutMode::Unified);
    assert_eq!(ui.diff_scroll, 86);
    ui.clamp_diff_scroll(5, &LayoutMode::Unified);
    assert_eq!(ui.diff_scroll, 0);
    ui.diff_scroll = usize::MAX;
    ui.clamp_diff_scroll(0, &LayoutMode::Auto);
    assert_eq!(ui.diff_scroll, 0);
}

fn args() -> Args {
    Args {
        file_path: None,
        repo_path: None,
        context_lines: 3,
        full_file: false,
        first_parent: false,
        no_follow: false,
        debug: false,
        side_by_side: false,
        layout: LayoutMode::Unified,
    }
}

#[test]
fn options_are_checked_and_resolved() {
    let mut options = args();
    assert_eq!(options.validate(), Ok(()));
    assert_eq!(options.effective_context_lines(), 3);
    assert_eq!(options.effective_layout(), LayoutMode::Unified);
    options.context_lines = 100;
    assert!(options.validate().is_ok());
    options.context_lines = 101;
    assert_eq!(options.validate(), Err("Context lines must be between 0 and 100".to_string()));
    options.full_file = true;
    assert!(options.validate().is_ok());
    assert_eq!(options.effective_context_lines(), 9999);
    options.layout = LayoutMode::Auto;
    assert_eq!(options.effective_layout(), LayoutMode::Auto);
    options.side_by_side = true;
    assert_eq!(options.effective_layout(), LayoutMode::SideBySide);
}

fn commits() -> Vec<Commit> {
    ["aaa", "bbb", "ccc"]
        .iter()
        .map(|h| {
            Commit::new(
                format!("{}000", h),
                h.to_string(),
                "d".to_string(),
                "a".to_string(),
                "s".to_string(),
            )
        })
        .collect()
}

#[test]
fn titles_name_what_is_shown() {
    assert_eq!(create_commits_title(12, false, 0), " Commits (12) ");
    assert_eq!(create_commits_title(0, false, 4), " Commits (0) ←→");
    assert_eq!(create_commits_title(12, true, 0), " Commits (Loading...) ");
    assert_eq!(create_commits_title(12, true, 1), " Commits (Loading...) ←→");
    let list = commits();
    assert_eq!(create_diff_title(&[], 0, None, None, 0), " Diff ");
    assert_eq!(create_diff_title(&[], 0, Some((0, 1)), Some(1), 8), " Diff ←→");
    assert_eq!(create_diff_title(&list, 3, None, None, 0), " Diff ");
    assert_eq!(create_diff_title(&list, 1, None, None, 0), " Diff (bbb) ");
    assert_eq!(create_diff_title(&list, 1, None, Some(0), 0), " Diff (bbb) [Selecting...] ");
    assert_eq!(create_diff_title(&list, 1, None, Some(0), 4), " Diff (bbb) [Selecting...] ←→");
    assert_eq!(create_diff_title(&list, 1, Some((2, 0)), Some(0), 0), " Diff (ccc..aaa) ");
    assert_eq!(create_diff_title(&list, 1, Some((2, 0)), None, 4), " Diff (ccc..aaa) ←→");
    assert_eq!(create_diff_title(&list, 1, Some((3, 0)), Some(1), 0), " Diff (bbb) ");
    assert_eq!(create_side_by_side_title(&[], 0, None, true), " Old File ");
    assert_eq!(create_side_by_side_title(&[], 5, Some((1, 0)), false), " New File ");
    assert_eq!(create_side_by_side_title(&list, 1, None, true), " Old (bbb) ");
    assert_eq!(create_side_by_side_title(&list, 1, None, false), " New (bbb) ");
    assert_eq!(create_side_by_side_title(&list, 1, Some((2, 0)), true), " Old (ccc) ");
    assert_eq!(create_side_by_side_title(&list, 1, Some((2, 0)), false), " New (aaa) ");
    assert_eq!(create_side_by_side_title(&list, 9, Some((2, 3)), true), " Old File ");
    assert_eq!(create_side_by_side_title(&list, 9, Some((2, 3)), false), " New File ");
    assert_eq!(create_border_style(true), Style { fg: Some(Color::Cyan), bg: None, bold: false, italic: false, underlined: false });
    assert_eq!(create_border_style(false), Style { fg: Some(Color::Gray), bg: None, bold: false, italic: false, underlined: false });
    assert_ne!(CommitsPanelLayout::Vertical, CommitsPanelLayout::Horizontal);
}
