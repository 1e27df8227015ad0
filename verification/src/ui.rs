//! State and text of the user interface that does not depend on a terminal.

pub mod commit_info;
pub mod common;
pub mod file_picker;
pub mod state;
