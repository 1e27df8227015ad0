//! The options of a run and what they amount to.

use vstd::prelude::*;

verus! {

/// How the panels are laid out.
#[derive(Clone, Copy, Debug, PartialEq, Eq, Structural)]
pub enum LayoutMode {
    /// Commits beside one unified diff.
    Unified,
    /// Old and new file beside each other, commits below.
    SideBySide,
    /// Side by side on a wide terminal, unified on a narrow one.
    Auto,
}

/// The options of a run, as given on the command line.
#[derive(Debug)]
pub struct Args {
    /// The file whose history is shown; a file picker opens if there is none.
    pub file_path: Option<String>,
    /// The repository root; searched for from the working directory if absent.
    pub repo_path: Option<String>,
    /// Number of context lines in diffs.
    pub context_lines: u32,
    /// Show whole files in diffs, not only the context of changes.
    pub full_file: bool,
    /// Follow only the first parent of merge commits.
    pub first_parent: bool,
    /// Do not track renames.
    pub no_follow: bool,
    /// Log debug messages.
    pub debug: bool,
    /// Ask for the side-by-side layout.
    pub side_by_side: bool,
    /// The layout asked for.
    pub layout: LayoutMode,
}

/// The number of context lines that stands for "the whole file".
pub const FULL_FILE_CONTEXT_LINES: u32 = 9999;

/// The largest number of context lines that may be asked for.
pub const MAX_CONTEXT_LINES: u32 = 100;

impl Args {
    /// The options are refused when more than 100 context lines are asked
    /// for and the whole file is not.
    pub open spec fn is_valid(&self) -> bool {
        self.full_file || self.context_lines <= MAX_CONTEXT_LINES
    }

    /// Checks the options. The only error is too many context lines.
    pub fn validate(&self) -> (r: Result<(), String>)
        ensures
            r is Ok <==> self.is_valid(),
            r is Err ==> r->Err_0@ == "Context lines must be between 0 and 100"@,
    {
        if !self.full_file && self.context_lines > MAX_CONTEXT_LINES {
            return Err("Context lines must be between 0 and 100".to_owned());
        }
        Ok(())
    }

    /// The number of context lines to ask git for: 9999 for the whole file,
    /// else the number given.
    pub fn effective_context_lines(&self) -> (n: u32)
        ensures
            n == (if self.full_file {
                FULL_FILE_CONTEXT_LINES
            } else {
                self.context_lines
            }),
    {
        if self.full_file {
            FULL_FILE_CONTEXT_LINES
        } else {
            self.context_lines
        }
    }

    /// The layout to start with: side by side if that was asked for by its
    /// own flag, else the layout given.
    pub fn effective_layout(&self) -> (mode: LayoutMode)
        ensures
            mode == (if self.side_by_side {
                LayoutMode::SideBySide
            } else {
                self.layout
            }),
    {
        if self.side_by_side {
            LayoutMode::SideBySide
        } else {
            self.layout
        }
    }
}

} // verus!
