//! Unified diff text as a sequence of classified, numbered lines.

pub mod highlight;
pub mod render;
pub mod side_by_side;

use crate::pattern::{capture_groups, capture_spans, groups_view, pattern_is_valid, Pattern};
use crate::text::{
    char_index_at, char_index_of_byte, chars_of, clamped_subrange, has_prefix, line_bounds,
    parse_decimal, parse_unsigned, split_lines, starts_with, string_of,
};
use vstd::prelude::*;

verus! {

/// What a line of a unified diff is.
#[derive(Debug, Clone, Copy, PartialEq, Eq, Structural)]
pub enum DiffLineType {
    /// `diff --git ...` or `index ...`.
    Header,
    /// `@@ ... @@`.
    HunkHeader,
    /// A line that the new file has and the old one has not.
    Addition,
    /// A line that the old file has and the new one has not.
    Deletion,
    /// Anything else: a line that both files have.
    Context,
}

/// One line of a diff, with its number in the old and in the new file.
#[derive(Debug)]
pub struct DiffLine {
    pub line_type: DiffLineType,
    /// The raw line, leading marker included, line ending excluded.
    pub content: String,
    pub old_line_num: Option<usize>,
    pub new_line_num: Option<usize>,
}

/// The mathematical value of a `DiffLine`.
pub struct DiffLineView {
    pub line_type: DiffLineType,
    pub content: Seq<char>,
    pub old_line_num: Option<usize>,
    pub new_line_num: Option<usize>,
}

impl View for DiffLine {
    type V = DiffLineView;

    open spec fn view(&self) -> DiffLineView {
        DiffLineView {
            line_type: self.line_type,
            content: self.content@,
            old_line_num: self.old_line_num,
            new_line_num: self.new_line_num,
        }
    }
}

impl Clone for DiffLine {
    fn clone(&self) -> (r: Self)
        ensures
            r == *self,
    {
        DiffLine {
            line_type: self.line_type,
            content: self.content.clone(),
            old_line_num: self.old_line_num,
            new_line_num: self.new_line_num,
        }
    }
}

impl DiffLineView {
    /// A line has an old line number exactly when it is a deletion or
    /// context, and a new line number exactly when it is an addition or
    /// context.
    pub open spec fn numbered_by_kind(self) -> bool {
        &&& self.old_line_num is Some <==> (self.line_type == DiffLineType::Deletion
            || self.line_type == DiffLineType::Context)
        &&& self.new_line_num is Some <==> (self.line_type == DiffLineType::Addition
            || self.line_type == DiffLineType::Context)
    }

    /// An addition or a deletion.
    pub open spec fn is_change(self) -> bool {
        self.line_type == DiffLineType::Addition || self.line_type == DiffLineType::Deletion
    }
}

/// The views of a sequence of lines.
pub open spec fn line_views(lines: Seq<DiffLine>) -> Seq<DiffLineView> {
    Seq::new(lines.len(), |i: int| lines[i]@)
}

/// The kind of a raw diff line, decided by how it begins.
pub open spec fn classify(line: Seq<char>) -> DiffLineType {
    if has_prefix(line, "diff --git"@) || has_prefix(line, "index "@) {
        DiffLineType::Header
    } else if has_prefix(line, "@@"@) {
        DiffLineType::HunkHeader
    } else if has_prefix(line, "+"@) && !has_prefix(line, "+++"@) {
        DiffLineType::Addition
    } else if has_prefix(line, "-"@) && !has_prefix(line, "---"@) {
        DiffLineType::Deletion
    } else {
        DiffLineType::Context
    }
}

/// The regular expression that a hunk header is searched with. Its two
/// capture groups are the first line of the hunk in the old and in the new
/// file.
pub open spec fn hunk_header_pattern() -> Seq<char> {
    "@@ -(\\d+),?\\d* \\+(\\d+),?\\d* @@"@
}

/// The characters of `line` between two byte offsets of its UTF-8 form.
pub open spec fn span_text(line: Seq<char>, span: (usize, usize)) -> Seq<char> {
    clamped_subrange(
        line,
        char_index_at(line, span.0 as nat) as int,
        char_index_at(line, span.1 as nat) as int,
    )
}

/// The start lines that a hunk header gives, read from the capture groups
/// that the search for `hunk_header_pattern` found in `line`: groups 1 and 2
/// must both have matched, and each must write a number that fits `usize`.
pub open spec fn hunk_starts_of_groups(
    line: Seq<char>,
    groups: Option<Seq<Option<(usize, usize)>>>,
) -> Option<(usize, usize)> {
    match groups {
        Some(g) => if g.len() >= 3 && g[1] is Some && g[2] is Some {
            match (
                parse_unsigned(span_text(line, g[1]->Some_0), usize::MAX as nat),
                parse_unsigned(span_text(line, g[2]->Some_0), usize::MAX as nat),
            ) {
                (Some(old_start), Some(new_start)) => Some(
                    (old_start as usize, new_start as usize),
                ),
                _ => None,
            }
        } else {
            None
        },
        None => None,
    }
}

/// The start lines that the hunk header `line` gives, if it gives any.
pub open spec fn hunk_starts(line: Seq<char>) -> Option<(usize, usize)> {
    if pattern_is_valid(hunk_header_pattern()) {
        hunk_starts_of_groups(line, capture_spans(hunk_header_pattern(), line))
    } else {
        None
    }
}

/// A counter one step on. It wraps to 0 after the largest `usize`.
pub open spec fn next_number(n: usize) -> usize {
    if n == usize::MAX {
        0
    } else {
        (n + 1) as usize
    }
}

/// The old and new line counters after `line`, given the counters before it.
/// A hunk header that gives start lines resets both; one that gives none
/// leaves them as they are.
pub open spec fn counters_after(line: Seq<char>, before: (usize, usize)) -> (usize, usize) {
    match classify(line) {
        DiffLineType::Header => before,
        DiffLineType::HunkHeader => match hunk_starts(line) {
            Some(starts) => starts,
            None => before,
        },
        DiffLineType::Addition => (before.0, next_number(before.1)),
        DiffLineType::Deletion => (next_number(before.0), before.1),
        DiffLineType::Context => (next_number(before.0), next_number(before.1)),
    }
}

/// The counters after the first `n` of `lines`, starting from `(0, 0)`.
pub open spec fn counters_at(lines: Seq<Seq<char>>, n: int) -> (usize, usize)
    decreases n,
{
    if n <= 0 {
        (0, 0)
    } else {
        counters_after(lines[n - 1], counters_at(lines, n - 1))
    }
}

/// The parsed form of one raw line, given the counters before it: a line
/// carries the number that the counter of its file has reached, and only then
/// steps it. So the first line after a hunk header carries the start line
/// that the header gives.
pub open spec fn numbered_line(line: Seq<char>, before: (usize, usize)) -> DiffLineView {
    let kind = classify(line);
    DiffLineView {
        line_type: kind,
        content: line,
        old_line_num: if kind == DiffLineType::Deletion || kind == DiffLineType::Context {
            Some(before.0)
        } else {
            None
        },
        new_line_num: if kind == DiffLineType::Addition || kind == DiffLineType::Context {
            Some(before.1)
        } else {
            None
        },
    }
}

/// The parsed form of a whole diff: one entry for each line of `text`.
pub open spec fn parsed_diff(text: Seq<char>) -> Seq<DiffLineView> {
    let lines = split_lines(text);
    Seq::new(lines.len(), |i: int| numbered_line(lines[i], counters_at(lines, i as int)))
}

/// Every parsed line carries the raw text of its input line, unchanged and
/// in order.
pub proof fn law_parse_keeps_text(text: Seq<char>)
    ensures
        parsed_diff(text).len() == split_lines(text).len(),
        forall|i: int|
            0 <= i < split_lines(text).len() ==> (#[trigger] parsed_diff(text)[i]).content
                == split_lines(text)[i],
{
}

/// Every parsed line is numbered according to its kind.
pub proof fn law_parse_numbers_by_kind(text: Seq<char>)
    ensures
        forall|i: int|
            0 <= i < parsed_diff(text).len() ==> (#[trigger] parsed_diff(text)[i]).numbered_by_kind(),
{
}

/// The line after a hunk header carries the start lines that the header
/// gives: as its old number if it is a deletion or context, as its new
/// number if it is an addition or context.
pub proof fn law_hunk_header_numbers_the_next_line(text: Seq<char>, i: int)
    requires
        0 <= i,
        i + 1 < split_lines(text).len(),
        classify(split_lines(text)[i]) == DiffLineType::HunkHeader,
        hunk_starts(split_lines(text)[i]) is Some,
    ensures
        parsed_diff(text)[i + 1] == numbered_line(
            split_lines(text)[i + 1],
            hunk_starts(split_lines(text)[i])->Some_0,
        ),
{
    let lines = split_lines(text);
    assert(counters_at(lines, i + 1) == counters_after(lines[i], counters_at(lines, i)));
}

/// Of two lines that follow each other and both have a number in the same
/// file, the second carries the number after that of the first.
pub proof fn law_numbers_count_on(text: Seq<char>, i: int)
    requires
        0 <= i,
        i + 1 < split_lines(text).len(),
    ensures
        ({
            let before = parsed_diff(text)[i];
            let after = parsed_diff(text)[i + 1];
            &&& before.old_line_num is Some && after.old_line_num is Some ==> after.old_line_num
                == Some(next_number(before.old_line_num->Some_0))
            &&& before.new_line_num is Some && after.new_line_num is Some ==> after.new_line_num
                == Some(next_number(before.new_line_num->Some_0))
        }),
{
    let lines = split_lines(text);
    assert(counters_at(lines, i + 1) == counters_after(lines[i], counters_at(lines, i)));
}

/// The text of the hunk header pattern.
pub fn hunk_header_regex() -> (p: &'static str)
    ensures
        p@ == hunk_header_pattern(),
{
    "@@ -(\\d+),?\\d* \\+(\\d+),?\\d* @@"
}

/// Reads one captured number of a hunk header.
fn captured_number(line: &Vec<char>, span: (usize, usize)) -> (r: Option<usize>)
    ensures
        r == match parse_unsigned(span_text(line@, span), usize::MAX as nat) {
            Some(n) => Some(n as usize),
            None => None,
        },
{
    let from = char_index_of_byte(line, span.0);
    let to = char_index_of_byte(line, span.1);
    if from >= to {
        return None;
    }
    assert(line@.subrange(from as int, to as int) == span_text(line@, span));
    match parse_decimal(line, from, to, usize::MAX as u64) {
        Some(n) => Some(n as usize),
        None => None,
    }
}

/// Reads the start lines of a hunk from the capture groups that the search
/// for the hunk header pattern found in `line`.
pub fn hunk_starts_from_captures(line: &Vec<char>, groups: &Option<Vec<Option<(usize, usize)>>>) -> (r:
    Option<(usize, usize)>)
    ensures
        r == hunk_starts_of_groups(line@, groups_view(*groups)),
{
    match groups {
        Some(g) => {
            if g.len() < 3 {
                return None;
            }
            match (g[1], g[2]) {
                (Some(old_span), Some(new_span)) => {
                    let old_start = captured_number(line, old_span);
                    let new_start = captured_number(line, new_span);
                    match (old_start, new_start) {
                        (Some(a), Some(b)) => Some((a, b)),
                        _ => None,
                    }
                },
                _ => None,
            }
        },
        None => None,
    }
}

/// Reads the start lines from the hunk header `line`, whose characters are
/// `chars`, with the compiled hunk header pattern.
fn parse_hunk_header(
    regex: &Result<Pattern, regex::Error>,
    line: &str,
    chars: &Vec<char>,
) -> (r: Option<(usize, usize)>)
    requires
        line@ == chars@,
        *regex is Ok <==> pattern_is_valid(hunk_header_pattern()),
        *regex is Ok ==> regex->Ok_0.source() == hunk_header_pattern(),
    ensures
        r == hunk_starts(chars@),
{
    match regex {
        Ok(re) => {
            let groups = capture_groups(re, line);
            hunk_starts_from_captures(chars, &groups)
        },
        Err(_) => None,
    }
}

/// The kind of a raw diff line.
pub fn classify_line(line: &Vec<char>) -> (kind: DiffLineType)
    ensures
        kind == classify(line@),
{
    if starts_with(line, "diff --git") || starts_with(line, "index ") {
        DiffLineType::Header
    } else if starts_with(line, "@@") {
        DiffLineType::HunkHeader
    } else if starts_with(line, "+") && !starts_with(line, "+++") {
        DiffLineType::Addition
    } else if starts_with(line, "-") && !starts_with(line, "---") {
        DiffLineType::Deletion
    } else {
        DiffLineType::Context
    }
}

/// A counter one step on, wrapping after the largest `usize`.
fn step(n: usize) -> (r: usize)
    ensures
        r == next_number(n),
{
    n.wrapping_add(1)
}

/// A copy of `text[from..to]`.
pub fn copy_range(text: &Vec<char>, from: usize, to: usize) -> (v: Vec<char>)
    requires
        from <= to <= text.len(),
    ensures
        v@ == text@.subrange(from as int, to as int),
{
    let mut v: Vec<char> = Vec::new();
    let mut i: usize = from;
    while i < to
        invariant
            from <= i <= to <= text.len(),
            v@ == text@.subrange(from as int, i as int),
        decreases to - i,
    {
        v.push(text[i]);
        assert(text@.subrange(from as int, i + 1) == text@.subrange(from as int, i as int).push(
            text@[i as int],
        ));
        i += 1;
    }
    v
}

/// Parses unified diff text into its lines. Never fails: a line that is no
/// header, hunk header, addition or deletion is context, and a hunk header
/// that gives no start lines leaves the line counters as they are.
pub fn parse_diff(diff_text: &str) -> (result: Vec<DiffLine>)
    ensures
        line_views(result@) == parsed_diff(diff_text@),
        result@.len() == split_lines(diff_text@).len(),
        forall|i: int|
            0 <= i < result@.len() ==> (#[trigger] result@[i])@.content == split_lines(
                diff_text@,
            )[i],
        forall|i: int| 0 <= i < result@.len() ==> (#[trigger] result@[i])@.numbered_by_kind(),
{
    let text = chars_of(diff_text);
    let bounds = line_bounds(&text);
    let regex = Pattern::new(hunk_header_regex());
    let ghost lines = split_lines(diff_text@);
    let mut result: Vec<DiffLine> = Vec::new();
    let mut old_line_num: usize = 0;
    let mut new_line_num: usize = 0;
    let mut i: usize = 0;
    while i < bounds.len()
        invariant
            i <= bounds.len(),
            text@ == diff_text@,
            lines == split_lines(diff_text@),
            bounds@.len() == lines.len(),
            forall|k: int|
                0 <= k < bounds@.len() ==> {
                    &&& (#[trigger] bounds@[k]).0 <= bounds@[k].1 <= text@.len()
                    &&& text@.subrange(bounds@[k].0 as int, bounds@[k].1 as int) == lines[k]
                },
            regex is Ok <==> pattern_is_valid(hunk_header_pattern()),
            regex is Ok ==> regex->Ok_0.source() == hunk_header_pattern(),
            (old_line_num, new_line_num) == counters_at(lines, i as int),
            result@.len() == i,
            forall|k: int|
                0 <= k < i ==> (#[trigger] result@[k])@ == numbered_line(
                    lines[k],
                    counters_at(lines, k),
                ),
        decreases bounds.len() - i,
    {
        let (from, to) = bounds[i];
        let chars = copy_range(&text, from, to);
        let content = string_of(&chars);
        let line_type = classify_line(&chars);
        let (old_num, new_num) = match line_type {
            DiffLineType::Header => (None, None),
            DiffLineType::HunkHeader => (None, None),
            DiffLineType::Addition => (None, Some(new_line_num)),
            DiffLineType::Deletion => (Some(old_line_num), None),
            DiffLineType::Context => (Some(old_line_num), Some(new_line_num)),
        };
        match line_type {
            DiffLineType::Header => {},
            DiffLineType::HunkHeader => {
                if let Some((old_start, new_start)) = parse_hunk_header(
                    &regex,
                    content.as_str(),
                    &chars,
                ) {
                    old_line_num = old_start;
                    new_line_num = new_start;
                }
            },
            DiffLineType::Addition => {
                new_line_num = step(new_line_num);
            },
            DiffLineType::Deletion => {
                old_line_num = step(old_line_num);
            },
            DiffLineType::Context => {
                old_line_num = step(old_line_num);
                new_line_num = step(new_line_num);
            },
        }
        assert((old_line_num, new_line_num) == counters_at(lines, i + 1));
        result.push(DiffLine { line_type, content, old_line_num: old_num, new_line_num: new_num });
        i += 1;
    }
    assert(line_views(result@) =~= parsed_diff(diff_text@));
    result
}

/// A parsed diff together with the path of the file it is about.
pub struct HighlightedDiff {
    pub lines: Vec<DiffLine>,
    pub file_path: Option<String>,
}

impl HighlightedDiff {
    /// Parses `diff_text` and remembers `file_path`.
    pub fn new(diff_text: &str, file_path: Option<&str>) -> (r: Self)
        ensures
            line_views(r.lines@) == parsed_diff(diff_text@),
            match file_path {
                Some(p) => r.path() == Some(p@),
                None => r.path() is None,
            },
    {
        let lines = parse_diff(diff_text);
        let file_path = match file_path {
            Some(p) => Some(p.to_owned()),
            None => None,
        };
        HighlightedDiff { lines, file_path }
    }

    /// The path of the file, if one was given.
    pub open spec fn path(&self) -> Option<Seq<char>> {
        match self.file_path {
            Some(p) => Some(p@),
            None => None,
        }
    }

    /// The indices of all additions and deletions, in increasing order.
    pub fn find_changes(&self) -> (changes: Vec<usize>)
        ensures
            is_change_index(line_views(self.lines@), changes@),
    {
        find_changes(&self.lines)
    }
}

/// `changes` lists, in strictly increasing order, exactly the indices of
/// `lines` that hold an addition or a deletion.
pub open spec fn is_change_index(lines: Seq<DiffLineView>, changes: Seq<usize>) -> bool {
    &&& forall|a: int, b: int|
        0 <= a < b < changes.len() ==> (#[trigger] changes[a]) < (#[trigger] changes[b])
    &&& forall|a: int|
        0 <= a < changes.len() ==> (#[trigger] changes[a]) < lines.len() && lines[changes[a] as int].is_change()
    &&& forall|i: int|
        0 <= i < lines.len() && (#[trigger] lines[i]).is_change() ==> exists|a: int|
            0 <= a < changes.len() && #[trigger] changes[a] == i
}

/// The indices of all additions and deletions among `lines`, in increasing
/// order.
pub fn find_changes(lines: &Vec<DiffLine>) -> (changes: Vec<usize>)
    ensures
        is_change_index(line_views(lines@), changes@),
{
    let mut changes: Vec<usize> = Vec::new();
    let ghost views = line_views(lines@);
    let mut i: usize = 0;
    while i < lines.len()
        invariant
            i <= lines.len(),
            views == line_views(lines@),
            forall|a: int, b: int|
                0 <= a < b < changes@.len() ==> (#[trigger] changes@[a]) < (#[trigger] changes@[b]),
            forall|a: int|
                0 <= a < changes@.len() ==> (#[trigger] changes@[a]) < i && views[changes@[a] as int].is_change(),
            forall|k: int|
                0 <= k < i && (#[trigger] views[k]).is_change() ==> exists|a: int|
                    0 <= a < changes@.len() && #[trigger] changes@[a] == k,
        decreases lines.len() - i,
    {
        let kind = lines[i].line_type;
        if kind == DiffLineType::Addition || kind == DiffLineType::Deletion {
            let ghost before = changes@;
            changes.push(i);
            proof {
                assert forall|k: int| 0 <= k < i + 1 && (#[trigger] views[k]).is_change() implies exists|
                    a: int,
                |
                    0 <= a < changes@.len() && #[trigger] changes@[a] == k by {
                    if k < i {
                        let a = choose|a: int| 0 <= a < before.len() && #[trigger] before[a] == k;
                        assert(changes@[a] == k);
                    } else {
                        assert(changes@[before.len() as int] == k);
                    }
                }
            }
        } else {
            assert(!views[i as int].is_change());
        }
        i += 1;
    }
    changes
}

} // verus!
