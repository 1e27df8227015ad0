use geschichte::commit::{Commit, PRStatus, PullRequestInfo};
use geschichte::copy::{commit_copy_text, CopyFormat};

fn create_test_commit() -> Commit {
    Commit::new_enhanced(
        "abc123def456".to_string(),
        "abc123d".to_string(),
        "John Doe".to_string(),
        "john@example.com".to_string(),
        "2023-01-15 10:30:00".to_string(),
        "John Doe".to_string(),
        "john@example.com".to_string(),
        "2023-01-15 10:30:00".to_string(),
        "Add new feature".to_string(),
        "This is the commit body\nwith multiple lines".to_string(),
    )
}

#[test]
fn test_copy_full_sha() {
    let commit = create_test_commit();
    assert_eq!(commit_copy_text(&commit, CopyFormat::FullSha), "abc123def456");
}

#[test]
fn test_copy_short_sha() {
    let commit = create_test_commit();
    assert_eq!(commit_copy_text(&commit, CopyFormat::ShortSha), "abc123d");
}

#[test]
fn test_copy_message_with_body() {
    let commit = create_test_commit();
    assert_eq!(
        commit_copy_text(&commit, CopyFormat::Message),
        "Add new feature\n\nThis is the commit body\nwith multiple lines"
    );
}

#[test]
fn test_copy_message_without_body() {
    let mut commit = create_test_commit();
    commit.body = String::new();
    assert_eq!(commit_copy_text(&commit, CopyFormat::Message), "Add new feature");
}

#[test]
fn test_copy_author() {
    let commit = create_test_commit();
    assert_eq!(commit_copy_text(&commit, CopyFormat::Author), "John Doe <john@example.com>");
}

#[test]
fn test_copy_date() {
    let commit = create_test_commit();
    assert_eq!(commit_copy_text(&commit, CopyFormat::Date), "2023-01-15 10:30:00");
}

#[test]
fn test_copy_github_url_default() {
    let commit = create_test_commit();
    assert_eq!(
        commit_copy_text(&commit, CopyFormat::GitHubUrl),
        "https://github.com/repo/commit/abc123def456"
    );
}

#[test]
fn test_commit_author_format() {
    let commit = create_test_commit();
    assert_eq!(commit.author(), "John Doe <john@example.com>");
}

#[test]
fn test_commit_author_format_no_email() {
    let mut commit = create_test_commit();
    commit.author_email = String::new();
    assert_eq!(commit.author(), "John Doe");
}

#[test]
fn test_working_directory_commit() {
    let wd_commit = Commit::new_working_directory("Modified".to_string());
    assert!(wd_commit.is_working_directory);
    assert_eq!(wd_commit.hash, "WORKING_DIR");
    assert_eq!(wd_commit.short_hash, "WD");
    assert_eq!(wd_commit.subject, "Modified");
}

#[test]
fn copied_address_is_that_of_the_pull_request_if_known() {
    let mut commit = create_test_commit();
    commit.pr_info = Some(PullRequestInfo {
        number: 7,
        title: "t".to_string(),
        url: "https://example.com/pull/7".to_string(),
        status: PRStatus::Open,
    });
    assert_eq!(commit_copy_text(&commit, CopyFormat::GitHubUrl), "https://example.com/pull/7");
    assert_eq!(commit_copy_text(&commit, CopyFormat::Subject), "Add new feature");
}

#[test]
fn copy_formats_have_names() {
    assert_eq!(CopyFormat::FullSha.label(), "Full SHA");
    assert_eq!(CopyFormat::ShortSha.label(), "Short SHA");
    assert_eq!(CopyFormat::Subject.label(), "Subject");
    assert_eq!(CopyFormat::Message.label(), "Message");
    assert_eq!(CopyFormat::Author.label(), "Author");
    assert_eq!(CopyFormat::Date.label(), "Date");
    assert_eq!(CopyFormat::GitHubUrl.label(), "GitHub URL");
}
