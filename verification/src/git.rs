//! What the library makes of the output of git. The library never runs git
//! itself: it is handed what git wrote.

pub mod diff;
pub mod files;
pub mod history;
pub mod parser;
pub mod working;
