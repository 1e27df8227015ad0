//! What can go wrong around the library, and how it is reported.

use crate::text::concat2;
use vstd::prelude::*;

verus! {

/// An error of a session. Each variant carries the text that its message is
/// made from.
#[derive(Debug)]
pub enum GeschichteError {
    /// `path` is not inside a git repository.
    NotGitRepository { path: String },
    /// `path` is not a file of the repository.
    FileNotFound { path: String },
    /// A git command failed; `output` is what it wrote.
    GitCommandFailed { command: String, output: String },
    /// Output of git was not of the expected form.
    ParseError { reason: String },
    /// Reading or writing failed.
    IoError(String),
    TerminalError(String),
    UIError(String),
    StateError(String),
    ConfigError(String),
    CacheError(String),
    /// Any other error, with its message.
    AnyhowError(String),
}

impl GeschichteError {
    /// The message of the error.
    pub open spec fn message_text(&self) -> Seq<char> {
        match self {
            GeschichteError::NotGitRepository { path } => "Not a git repository: "@ + path@,
            GeschichteError::FileNotFound { path } => "File not found in repository: "@ + path@,
            GeschichteError::GitCommandFailed { command, output } => "Git command failed: "@
                + command@ + "\n"@ + output@,
            GeschichteError::ParseError { reason } => "Failed to parse git output: "@ + reason@,
            GeschichteError::IoError(text) => "IO error: "@ + text@,
            GeschichteError::TerminalError(text) => "Terminal error: "@ + text@,
            GeschichteError::UIError(text) => "UI rendering error: "@ + text@,
            GeschichteError::StateError(text) => "State management error: "@ + text@,
            GeschichteError::ConfigError(text) => "Configuration error: "@ + text@,
            GeschichteError::CacheError(text) => "Cache error: "@ + text@,
            GeschichteError::AnyhowError(text) => "Anyhow error: "@ + text@,
        }
    }

    /// The message of the error.
    pub fn message(&self) -> (r: String)
        ensures
            r@ == self.message_text(),
    {
        match self {
            GeschichteError::NotGitRepository { path } => concat2(
                "Not a git repository: ",
                path.as_str(),
            ),
            GeschichteError::FileNotFound { path } => concat2(
                "File not found in repository: ",
                path.as_str(),
            ),
            GeschichteError::GitCommandFailed { command, output } => {
                let mut r = concat2("Git command failed: ", command.as_str());
                r.append("\n");
                r.append(output.as_str());
                r
            },
            GeschichteError::ParseError { reason } => concat2(
                "Failed to parse git output: ",
                reason.as_str(),
            ),
            GeschichteError::IoError(text) => concat2("IO error: ", text.as_str()),
            GeschichteError::TerminalError(text) => concat2("Terminal error: ", text.as_str()),
            GeschichteError::UIError(text) => concat2("UI rendering error: ", text.as_str()),
            GeschichteError::StateError(text) => concat2(
                "State management error: ",
                text.as_str(),
            ),
            GeschichteError::ConfigError(text) => concat2("Configuration error: ", text.as_str()),
            GeschichteError::CacheError(text) => concat2("Cache error: ", text.as_str()),
            GeschichteError::AnyhowError(text) => concat2("Anyhow error: ", text.as_str()),
        }
    }
}

} // verus!
