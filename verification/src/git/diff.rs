//! What is shown when a commit has no diff of the file.

use vstd::prelude::*;

verus! {

/// What is shown as the diff of a commit in which the file does not exist.
pub fn missing_file_diff() -> (r: String)
    ensures
        r@ == "File not present in this commit\n"@,
{
    "File not present in this commit\n".to_owned()
}

} // verus!
