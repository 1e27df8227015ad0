//! What is copied of a commit.

use crate::commit::{author_text, Commit};
use crate::text::concat2;
use vstd::prelude::*;

verus! {

/// Where a copy command stands.
#[derive(Debug, Clone, Copy, PartialEq, Eq, Structural)]
pub enum CopyMode {
    /// The copy key was pressed; the key that says what to copy is awaited.
    WaitingForTarget,
}

/// What of a commit is copied.
#[derive(Debug, Clone, Copy, PartialEq, Eq, Structural)]
pub enum CopyFormat {
    FullSha,
    ShortSha,
    Subject,
    Message,
    Author,
    Date,
    GitHubUrl,
}

impl CopyFormat {
    /// The name of the format.
    pub open spec fn label_text(self) -> Seq<char> {
        match self {
            CopyFormat::FullSha => "Full SHA"@,
            CopyFormat::ShortSha => "Short SHA"@,
            CopyFormat::Subject => "Subject"@,
            CopyFormat::Message => "Message"@,
            CopyFormat::Author => "Author"@,
            CopyFormat::Date => "Date"@,
            CopyFormat::GitHubUrl => "GitHub URL"@,
        }
    }

    /// The name of the format.
    pub fn label(&self) -> (r: String)
        ensures
            r@ == self.label_text(),
    {
        match self {
            CopyFormat::FullSha => "Full SHA".to_owned(),
            CopyFormat::ShortSha => "Short SHA".to_owned(),
            CopyFormat::Subject => "Subject".to_owned(),
            CopyFormat::Message => "Message".to_owned(),
            CopyFormat::Author => "Author".to_owned(),
            CopyFormat::Date => "Date".to_owned(),
            CopyFormat::GitHubUrl => "GitHub URL".to_owned(),
        }
    }
}

/// The text that is copied of a commit in a format. The message is the
/// subject, and after an empty line the body if there is one. The address
/// is that of the pull request if one is known, else that of the commit.
pub open spec fn copy_text(commit: &Commit, format: CopyFormat) -> Seq<char> {
    match format {
        CopyFormat::FullSha => commit.hash@,
        CopyFormat::ShortSha => commit.short_hash@,
        CopyFormat::Subject => commit.subject@,
        CopyFormat::Message => if commit.body@.len() == 0 {
            commit.subject@
        } else {
            commit.subject@ + "\n\n"@ + commit.body@
        },
        CopyFormat::Author => author_text(commit.author_name@, commit.author_email@),
        CopyFormat::Date => commit.author_date@,
        CopyFormat::GitHubUrl => match commit.pr_info {
            Some(info) => info.url@,
            None => "https://github.com/repo/commit/"@ + commit.hash@,
        },
    }
}

/// The text that is copied of a commit in a format.
pub fn commit_copy_text(commit: &Commit, format: CopyFormat) -> (r: String)
    ensures
        r@ == copy_text(commit, format),
{
    match format {
        CopyFormat::FullSha => commit.hash.clone(),
        CopyFormat::ShortSha => commit.short_hash.clone(),
        CopyFormat::Subject => commit.subject.clone(),
        CopyFormat::Message => {
            if commit.body.as_str().unicode_len() == 0 {
                commit.subject.clone()
            } else {
                let mut r = commit.subject.clone();
                r.append("\n\n");
                r.append(commit.body.as_str());
                r
            }
        },
        CopyFormat::Author => commit.author(),
        CopyFormat::Date => commit.author_date.clone(),
        CopyFormat::GitHubUrl => match &commit.pr_info {
            Some(info) => info.url.clone(),
            None => concat2("https://github.com/repo/commit/", commit.hash.as_str()),
        },
    }
}

} // verus!
