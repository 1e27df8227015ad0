//! What the layouts share.

pub mod commits;
pub mod status;
pub mod utils;
