//! One line of `git log` output with five fields.

use crate::error::GeschichteError;
use crate::text::{chars_of, concat2, decimal, decimal_text, split_bounds, split_on, substring};
use vstd::prelude::*;

verus! {

/// The fields of a log line: the text between the NUL characters.
pub open spec fn log_fields(line: Seq<char>) -> Seq<Seq<char>> {
    split_on(line, '\0')
}

/// Takes a log line apart into full hash, short hash, date, author and
/// subject. The line must have exactly five fields, separated by NUL
/// characters; the error says how many there were.
pub fn parse_log_line(line: &str) -> (r: Result<(String, String, String, String, String), GeschichteError>)
    ensures
        r is Ok <==> log_fields(line@).len() == 5,
        match r {
            Ok(fields) => {
                &&& fields.0@ == log_fields(line@)[0]
                &&& fields.1@ == log_fields(line@)[1]
                &&& fields.2@ == log_fields(line@)[2]
                &&& fields.3@ == log_fields(line@)[3]
                &&& fields.4@ == log_fields(line@)[4]
            },
            Err(e) => e matches GeschichteError::ParseError { reason } && reason@
                == "Expected 5 fields, got "@ + decimal_text(log_fields(line@).len()),
        },
{
    let text = chars_of(line);
    assert(text@.subrange(0, text@.len() as int) =~= line@);
    let parts = split_bounds(&text, 0, text.len(), '\0');
    if parts.len() != 5 {
        let count = decimal(parts.len() as u64);
        return Err(
            GeschichteError::ParseError {
                reason: concat2("Expected 5 fields, got ", count.as_str()),
            },
        );
    }
    Ok(
        (
            substring(&text, parts[0].0, parts[0].1),
            substring(&text, parts[1].0, parts[1].1),
            substring(&text, parts[2].0, parts[2].1),
            substring(&text, parts[3].0, parts[3].1),
            substring(&text, parts[4].0, parts[4].1),
        ),
    )
}

} // verus!
