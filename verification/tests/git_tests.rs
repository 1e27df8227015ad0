use geschichte::error::GeschichteError;
use geschichte::git::diff::missing_file_diff;
use geschichte::git::files::{format_file_size, format_modified_time, FileAge, FileStatus};
use geschichte::git::parser::parse_log_line;
use geschichte::git::working::{
    is_missing_path_error, working_directory_diff_text, WorkingDirectoryStatus,
};

#[test]
fn test_format_file_size() {
    assert_eq!(format_file_size(Some(512)), "512B");
    assert_eq!(format_file_size(Some(1536)), "1.5K");
    assert_eq!(format_file_size(Some(1048576)), "1.0M");
    assert_eq!(format_file_size(None), "-");
}

#[test]
fn test_file_status_symbol() {
    assert_eq!(FileStatus::Clean.symbol(), " ");
    assert_eq!(FileStatus::Modified.symbol(), "M");
    assert_eq!(FileStatus::Staged.symbol(), "A");
    assert_eq!(FileStatus::Untracked.symbol(), "?");
    assert_eq!(FileStatus::Mixed.symbol(), "±");
}

#[test]
fn file_sizes_round_to_the_nearest_tenth() {
    for size in [0u64, 1, 1023, 1024, 1075, 1076, 1280, 1792, 10189, 1048575, 1073741823, 1073741824, 5368709120] {
        let expected = if size < 1024 {
            format!("{}B", size)
        } else if size < 1024 * 1024 {
            format!("{:.1}K", size as f64 / 1024.0)
        } else if size < 1024 * 1024 * 1024 {
            format!("{:.1}M", size as f64 / (1024.0 * 1024.0))
        } else {
            format!("{:.1}G", size as f64 / (1024.0 * 1024.0 * 1024.0))
        };
        assert_eq!(format_file_size(Some(size)), expected, "size {}", size);
    }
    assert_eq!(format_file_size(Some(1280)), "1.2K");
    assert_eq!(format_file_size(Some(1792)), "1.8K");
    assert_eq!(format_file_size(Some(1048575)), "1024.0K");
    assert_eq!(format_file_size(Some(u64::MAX)), "17179869184.0G");
}

#[test]
fn ages_are_shown_in_the_largest_unit_that_fits() {
    assert_eq!(format_modified_time(FileAge::Never), "-");
    assert_eq!(format_modified_time(FileAge::Unknown), "unknown");
    assert_eq!(format_modified_time(FileAge::Seconds(0)), "0s ago");
    assert_eq!(format_modified_time(FileAge::Seconds(59)), "59s ago");
    assert_eq!(format_modified_time(FileAge::Seconds(60)), "1m ago");
    assert_eq!(format_modified_time(FileAge::Seconds(3599)), "59m ago");
    assert_eq!(format_modified_time(FileAge::Seconds(3600)), "1h ago");
    assert_eq!(format_modified_time(FileAge::Seconds(86399)), "23h ago");
    assert_eq!(format_modified_time(FileAge::Seconds(86400)), "1d ago");
    assert_eq!(format_modified_time(FileAge::Seconds(604799)), "6d ago");
    assert_eq!(format_modified_time(FileAge::Seconds(604800)), "1w ago");
    assert_eq!(format_modified_time(FileAge::Seconds(2591999)), "4w ago");
    assert_eq!(format_modified_time(FileAge::Seconds(2592000)), "1mo ago");
    assert_eq!(format_modified_time(FileAge::Seconds(u64::MAX)), "7116799411153mo ago");
}

#[test]
fn status_letters_give_the_status() {
    assert_eq!(FileStatus::from_codes(' ', 'M'), FileStatus::Modified);
    assert_eq!(FileStatus::from_codes('M', ' '), FileStatus::Staged);
    assert_eq!(FileStatus::from_codes('A', ' '), FileStatus::Staged);
    assert_eq!(FileStatus::from_codes('D', ' '), FileStatus::Staged);
    assert_eq!(FileStatus::from_codes('R', ' '), FileStatus::Staged);
    assert_eq!(FileStatus::from_codes('C', ' '), FileStatus::Staged);
    assert_eq!(FileStatus::from_codes('M', 'M'), FileStatus::Mixed);
    assert_eq!(FileStatus::from_codes('A', 'M'), FileStatus::Mixed);
    assert_eq!(FileStatus::from_codes('?', '?'), FileStatus::Untracked);
    assert_eq!(FileStatus::from_codes('D', 'M'), FileStatus::Modified);
    assert_eq!(FileStatus::from_codes(' ', ' '), FileStatus::Modified);
    assert_eq!(FileStatus::from_codes('?', 'M'), FileStatus::Modified);
    assert_eq!(FileStatus::Mixed.style_color(), geschichte::diff::highlight::Color::Magenta);
    assert_eq!(FileStatus::Clean.style_color(), geschichte::diff::highlight::Color::Gray);
}

#[test]
fn log_line_needs_exactly_five_fields() {
    let ok = parse_log_line("full\0short\0date\0Ann <a@b>\0subject, with: stuff").unwrap();
    assert_eq!(ok.0, "full");
    assert_eq!(ok.1, "short");
    assert_eq!(ok.2, "date");
    assert_eq!(ok.3, "Ann <a@b>");
    assert_eq!(ok.4, "subject, with: stuff");
    let empty_fields = parse_log_line("\0\0\0\0").unwrap();
    assert_eq!(empty_fields.4, "");
    match parse_log_line("a\0b\0c\0d") {
        Err(GeschichteError::ParseError { reason }) => assert_eq!(reason, "Expected 5 fields, got 4"),
        _ => panic!("a parse error was expected"),
    }
    match parse_log_line("") {
        Err(e) => assert_eq!(e.message(), "Failed to parse git output: Expected 5 fields, got 1"),
        Ok(_) => panic!("a parse error was expected"),
    }
    match parse_log_line("0\x001\x002\x003\x004\x005\x006\x007\x008\x009\x0010\x0011") {
        Err(GeschichteError::ParseError { reason }) => assert_eq!(reason, "Expected 5 fields, got 12"),
        _ => panic!("a parse error was expected"),
    }
}

#[test]
fn every_error_has_its_message() {
    let text = |e: GeschichteError| e.message();
    assert_eq!(text(GeschichteError::NotGitRepository { path: "/x".to_string() }), "Not a git repository: /x");
    assert_eq!(text(GeschichteError::FileNotFound { path: "a.rs".to_string() }), "File not found in repository: a.rs");
    assert_eq!(
        text(GeschichteError::GitCommandFailed { command: "git log".to_string(), output: "boom".to_string() }),
        "Git command failed: git log\nboom"
    );
    assert_eq!(text(GeschichteError::ParseError { reason: "r".to_string() }), "Failed to parse git output: r");
    assert_eq!(text(GeschichteError::IoError("e".to_string())), "IO error: e");
    assert_eq!(text(GeschichteError::TerminalError("e".to_string())), "Terminal error: e");
    assert_eq!(text(GeschichteError::UIError("e".to_string())), "UI rendering error: e");
    assert_eq!(text(GeschichteError::StateError("e".to_string())), "State management error: e");
    assert_eq!(text(GeschichteError::ConfigError("e".to_string())), "Configuration error: e");
    assert_eq!(text(GeschichteError::CacheError("e".to_string())), "Cache error: e");
    assert_eq!(text(GeschichteError::AnyhowError("e".to_string())), "Anyhow error: e");
}

#[test]
fn working_directory_status_and_messages() {
    assert_eq!(WorkingDirectoryStatus::from_changes(true, true), WorkingDirectoryStatus::ModifiedAndStaged);
    assert_eq!(WorkingDirectoryStatus::from_changes(true, false), WorkingDirectoryStatus::Staged);
    assert_eq!(WorkingDirectoryStatus::from_changes(false, true), WorkingDirectoryStatus::Modified);
    assert_eq!(WorkingDirectoryStatus::from_changes(false, false), WorkingDirectoryStatus::Clean);
    assert_eq!(WorkingDirectoryStatus::Clean.label(), None);
    assert_eq!(WorkingDirectoryStatus::Modified.label(), Some("Modified".to_string()));
    assert_eq!(WorkingDirectoryStatus::Staged.label(), Some("Staged".to_string()));
    assert_eq!(WorkingDirectoryStatus::ModifiedAndStaged.label(), Some("Modified + Staged".to_string()));
    assert!(is_missing_path_error("fatal: path 'x' does not exist in 'HEAD'"));
    assert!(is_missing_path_error("error: pathspec 'x' did not match"));
    assert!(!is_missing_path_error("fatal: not a git repository"));
    assert!(!is_missing_path_error(""));
    assert_eq!(
        working_directory_diff_text(" \n\t ".to_string()),
        "Working directory is clean - no changes detected"
    );
    assert_eq!(working_directory_diff_text(String::new()), "Working directory is clean - no changes detected");
    assert_eq!(working_directory_diff_text(" +a\n".to_string()), " +a\n");
    assert_eq!(missing_file_diff(), "File not present in this commit\n");
}
