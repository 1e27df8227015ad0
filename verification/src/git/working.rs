//! The state of the working directory, and what is shown for it.

use crate::text::{chars_of, contains_at, contains_text, trim_bounds, trimmed};
use vstd::prelude::*;

verus! {

/// Whether the file has uncommitted changes, and of what kind.
#[derive(Debug, Clone, Copy, PartialEq, Eq, Structural)]
pub enum WorkingDirectoryStatus {
    Clean,
    Modified,
    Staged,
    ModifiedAndStaged,
}

/// What is shown in place of an empty diff of the working directory.
pub open spec fn clean_message() -> Seq<char> {
    "Working directory is clean - no changes detected"@
}

impl WorkingDirectoryStatus {
    /// The status of a file, given whether it has staged changes and
    /// whether it has changes that are not staged.
    pub fn from_changes(has_staged: bool, has_unstaged: bool) -> (r: Self)
        ensures
            r == (if has_staged && has_unstaged {
                WorkingDirectoryStatus::ModifiedAndStaged
            } else if has_staged {
                WorkingDirectoryStatus::Staged
            } else if has_unstaged {
                WorkingDirectoryStatus::Modified
            } else {
                WorkingDirectoryStatus::Clean
            }),
    {
        match (has_staged, has_unstaged) {
            (true, true) => WorkingDirectoryStatus::ModifiedAndStaged,
            (true, false) => WorkingDirectoryStatus::Staged,
            (false, true) => WorkingDirectoryStatus::Modified,
            (false, false) => WorkingDirectoryStatus::Clean,
        }
    }

    /// The subject of the entry that stands for the working directory;
    /// nothing if the working directory is clean.
    pub open spec fn label_text(self) -> Option<Seq<char>> {
        match self {
            WorkingDirectoryStatus::Clean => None,
            WorkingDirectoryStatus::Modified => Some("Modified"@),
            WorkingDirectoryStatus::Staged => Some("Staged"@),
            WorkingDirectoryStatus::ModifiedAndStaged => Some("Modified + Staged"@),
        }
    }

    /// The subject of the entry that stands for the working directory;
    /// nothing if the working directory is clean.
    pub fn label(&self) -> (r: Option<String>)
        ensures
            match r {
                Some(text) => self.label_text() == Some(text@),
                None => self.label_text() is None,
            },
    {
        match self {
            WorkingDirectoryStatus::Clean => None,
            WorkingDirectoryStatus::Modified => Some("Modified".to_owned()),
            WorkingDirectoryStatus::Staged => Some("Staged".to_owned()),
            WorkingDirectoryStatus::ModifiedAndStaged => Some("Modified + Staged".to_owned()),
        }
    }
}

/// Whether what git wrote to its error output says that the path is not in
/// the commit: it mentions `does not exist` or `pathspec`.
pub fn is_missing_path_error(stderr: &str) -> (r: bool)
    ensures
        r == (contains_text(stderr@, "does not exist"@) || contains_text(stderr@, "pathspec"@)),
{
    let text = chars_of(stderr);
    assert(text@.subrange(0, text@.len() as int) =~= stderr@);
    contains_at(&text, 0, text.len(), "does not exist") || contains_at(
        &text,
        0,
        text.len(),
        "pathspec",
    )
}

/// The diff to show for the working directory: what git wrote, or a
/// message in its place if that is nothing but white space.
pub fn working_directory_diff_text(diff_output: String) -> (r: String)
    ensures
        r@ == (if trimmed(diff_output@).len() == 0 {
            clean_message()
        } else {
            diff_output@
        }),
{
    let text = chars_of(diff_output.as_str());
    assert(text@.subrange(0, text@.len() as int) =~= diff_output@);
    let (a, b) = trim_bounds(&text, 0, text.len());
    if a == b {
        assert(text@.subrange(a as int, b as int).len() == 0);
        "Working directory is clean - no changes detected".to_owned()
    } else {
        assert(text@.subrange(a as int, b as int).len() > 0);
        diff_output
    }
}

} // verus!
