use geschichte::commit::{Commit, CommitStats, PRStatus};
use geschichte::git::history::{
    build_pr_url, detect_pr_info, extract_pr_number, extract_pr_title, parse_stat_line,
};

fn commit_with_subject(subject: &str) -> Commit {
    Commit::new_enhanced(
        "abc123".to_string(),
        "abc123".to_string(),
        "Author".to_string(),
        "author@test.com".to_string(),
        "2023-01-01".to_string(),
        "Author".to_string(),
        "author@test.com".to_string(),
        "2023-01-01".to_string(),
        subject.to_string(),
        "".to_string(),
    )
}

#[test]
fn test_pr_detection_from_subject() {
    let commit = commit_with_subject("Fix authentication bug (#42)");

    let pr_info = detect_pr_info(&commit);
    assert!(pr_info.is_some());

    let pr = pr_info.unwrap();
    assert_eq!(pr.number, 42);
    assert_eq!(pr.title, "Fix authentication bug (#42)");
    assert!(matches!(pr.status, PRStatus::Unknown));
}

#[test]
fn test_pr_detection_merge_commit() {
    let commit = commit_with_subject("Merge pull request #123 from feature/auth");

    let pr_info = detect_pr_info(&commit);
    assert!(pr_info.is_some());

    let pr = pr_info.unwrap();
    assert_eq!(pr.number, 123);
    assert!(matches!(pr.status, PRStatus::Merged));
    assert!(pr.title.contains("Merge pull request"));
}

#[test]
fn test_pr_detection_no_match() {
    let commit = commit_with_subject("Regular commit message");

    let pr_info = detect_pr_info(&commit);
    assert!(pr_info.is_none());
}

#[test]
fn test_pr_number_extraction() {
    let test_cases = vec![
        ("Fix bug (#123)", Some(123)),
        ("Update docs #456", Some(456)),
        ("Feature PR-789", None),
        ("No PR number here", None),
        ("Multiple #123 numbers #456", Some(123)),
        ("At end #999", Some(999)),
    ];

    for (message, expected) in test_cases {
        let commit = Commit::new_enhanced(
            "hash".to_string(),
            "hash".to_string(),
            "Author".to_string(),
            "author@test.com".to_string(),
            "2023-01-01".to_string(),
            "Author".to_string(),
            "author@test.com".to_string(),
            "2023-01-01".to_string(),
            message.to_string(),
            "".to_string(),
        );

        let pr_info = detect_pr_info(&commit);
        match expected {
            Some(num) => {
                assert!(pr_info.is_some(), "Should detect PR in: {}", message);
                assert_eq!(pr_info.unwrap().number, num);
            }
            None => {
                assert!(pr_info.is_none(), "Should not detect PR in: {}", message);
            }
        }
    }
}

#[test]
fn test_commit_creation_backwards_compatibility() {
    let commit = Commit::new(
        "abc123".to_string(),
        "abc123".to_string(),
        "2023-01-01 10:00:00".to_string(),
        "John Doe <john@example.com>".to_string(),
        "Test commit".to_string(),
    );

    assert_eq!(commit.hash, "abc123");
    assert_eq!(commit.short_hash, "abc123");
    assert_eq!(commit.author_name, "John Doe");
    assert_eq!(commit.author_email, "john@example.com");
    assert_eq!(commit.subject, "Test commit");
    assert_eq!(commit.date, "2023-01-01 10:00:00");
    assert!(commit.body.is_empty());
    assert!(!commit.is_working_directory);
}

#[test]
fn test_enhanced_commit_creation() {
    let commit = Commit::new_enhanced(
        "def456".to_string(),
        "def456".to_string(),
        "Jane Smith".to_string(),
        "jane@example.com".to_string(),
        "2023-01-15 14:30:00".to_string(),
        "Jane Smith".to_string(),
        "jane@example.com".to_string(),
        "2023-01-15 14:30:00".to_string(),
        "Enhanced commit".to_string(),
        "This is the body\nof the commit".to_string(),
    );

    assert_eq!(commit.hash, "def456");
    assert_eq!(commit.author_name, "Jane Smith");
    assert_eq!(commit.author_email, "jane@example.com");
    assert_eq!(commit.committer_name, "Jane Smith");
    assert_eq!(commit.committer_email, "jane@example.com");
    assert_eq!(commit.author_date, "2023-01-15 14:30:00");
    assert_eq!(commit.committer_date, "2023-01-15 14:30:00");
    assert_eq!(commit.subject, "Enhanced commit");
    assert_eq!(commit.body, "This is the body\nof the commit");
    assert!(!commit.is_working_directory);
}

#[test]
fn test_commit_author_formatting() {
    let commit_with_email = Commit::new_enhanced(
        "hash".to_string(),
        "hash".to_string(),
        "John Doe".to_string(),
        "john@example.com".to_string(),
        "2023-01-01".to_string(),
        "John Doe".to_string(),
        "john@example.com".to_string(),
        "2023-01-01".to_string(),
        "Test".to_string(),
        "".to_string(),
    );

    assert_eq!(commit_with_email.author(), "John Doe <john@example.com>");

    let commit_no_email = Commit::new_enhanced(
        "hash".to_string(),
        "hash".to_string(),
        "John Doe".to_string(),
        "".to_string(),
        "2023-01-01".to_string(),
        "John Doe".to_string(),
        "".to_string(),
        "2023-01-01".to_string(),
        "Test".to_string(),
        "".to_string(),
    );

    assert_eq!(commit_no_email.author(), "John Doe");
}

#[test]
fn pull_request_number_is_what_follows_the_first_hash_sign() {
    assert_eq!(extract_pr_number("#1"), Some(1));
    assert_eq!(extract_pr_number("#"), None);
    assert_eq!(extract_pr_number("# 12"), None);
    assert_eq!(extract_pr_number("#+12"), None);
    assert_eq!(extract_pr_number("a#007b"), Some(7));
    assert_eq!(extract_pr_number("#4294967295"), Some(4294967295));
    assert_eq!(extract_pr_number("#4294967296"), None);
    assert_eq!(extract_pr_number("#x #5"), None);
    assert_eq!(extract_pr_number("é#٣"), None);
    assert_eq!(extract_pr_number(""), None);
}

#[test]
fn pull_request_title_of_a_merge_is_its_branch() {
    assert_eq!(extract_pr_title("Merge pull request #5 from  me/topic \nmore"), "me/topic");
    assert_eq!(extract_pr_title("Merge pull request #5 from a from b"), "a from b");
    assert_eq!(extract_pr_title("Merge pull request #5"), "Merge pull request #5");
    assert_eq!(extract_pr_title("x from y"), "x from y");
    assert_eq!(extract_pr_title("Merge pull request #5 from "), "");
}

#[test]
fn pull_request_address_and_status() {
    assert_eq!(build_pr_url(0), "https://github.com/repo/pull/0");
    assert_eq!(build_pr_url(1205), "https://github.com/repo/pull/1205");
    let merged = detect_pr_info(&commit_with_subject("Merge pull request #9 from a/b")).unwrap();
    assert_eq!(merged.title, "Merge pull request #9 from a/b");
    assert_eq!(merged.url, "https://github.com/repo/pull/9");
    assert_eq!(merged.status, PRStatus::Merged);
    assert!(detect_pr_info(&commit_with_subject("Merge pull request #x")).is_none());
}

#[test]
fn statistics_are_read_from_the_summary_line() {
    assert_eq!(
        parse_stat_line(" 3 files changed, 45 insertions(+), 12 deletions(-)"),
        Some(CommitStats { files_changed: 3, insertions: 45, deletions: 12 })
    );
    assert_eq!(
        parse_stat_line(" 1 file changed, 2 deletions(-)"),
        Some(CommitStats { files_changed: 1, insertions: 0, deletions: 2 })
    );
    assert_eq!(
        parse_stat_line(""),
        Some(CommitStats { files_changed: 0, insertions: 0, deletions: 0 })
    );
    assert_eq!(
        parse_stat_line("x files, +7 insertion, 99999999999 deletion, 4 file"),
        Some(CommitStats { files_changed: 4, insertions: 7, deletions: 0 })
    );
    assert_eq!(
        parse_stat_line("2 insertion file"),
        Some(CommitStats { files_changed: 2, insertions: 0, deletions: 0 })
    );
}
