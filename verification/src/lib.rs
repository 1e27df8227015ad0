//! Browsing the git history of one file: diff parsing, side-by-side
//! projection, change and search navigation, viewport state and a bounded
//! diff cache.

pub mod app;
pub mod cache;
pub mod cli;
pub mod commit;
pub mod copy;
pub mod diff;
pub mod error;
pub mod git;
pub mod pattern;
pub mod text;
pub mod ui;
