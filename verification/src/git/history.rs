//! What is read out of commit subjects and of `git show --stat` output.

use crate::commit::{Commit, CommitStats, PRStatus, PullRequestInfo};
use crate::text::{
    chars_of, concat2, contains_at, contains_text, decimal, decimal_text, equals, find_char,
    find_text, first_index, has_prefix, is_digit, lemma_first_index, line_bounds, non_digit,
    occurrence_from, pairs_view, parse_decimal, parse_unsigned, slice_string, split_bounds,
    split_lines, split_on, starts_with, string_of, strings_view, substring, trim_bounds, trimmed,
    whitespace, word_bounds, words,
};
use vstd::prelude::*;

verus! {

/// How the subject of a merged pull request begins.
pub open spec fn merge_prefix() -> Seq<char> {
    "Merge pull request #"@
}

/// The pull request number in a message: the digits that directly follow
/// the first `#`, if they write a number that fits 32 bits.
pub open spec fn pr_number_of(message: Seq<char>) -> Option<u32> {
    let hash = first_index(message, equals('#'));
    if 0 <= hash < message.len() {
        let rest = message.skip(hash + 1);
        match parse_unsigned(rest.take(first_index(rest, non_digit())), u32::MAX as nat) {
            Some(n) => Some(n as u32),
            None => None,
        }
    } else {
        None
    }
}

/// The title of a pull request, from the message of its commit: for a
/// merge commit with a ` from ` in it, the first line of what follows the
/// first ` from `, without white space around it; else the message.
pub open spec fn pr_title_of(message: Seq<char>) -> Seq<char> {
    let from = occurrence_from(message, " from "@, 0);
    if has_prefix(message, merge_prefix()) && from >= 0 {
        let after = message.skip(from + " from "@.len());
        trimmed(after.take(first_index(after, equals('\n'))))
    } else {
        message
    }
}

/// The address of a pull request.
pub open spec fn pr_url_of(number: u32) -> Seq<char> {
    "https://github.com/repo/pull/"@ + decimal_text(number as nat)
}

/// The first word of `s`: what stands before its first white space.
pub open spec fn first_word(s: Seq<char>) -> Seq<char> {
    s.take(first_index(s, whitespace()))
}

/// The number that the first word of `part` writes, or 0 if it writes
/// none that fits 32 bits.
pub open spec fn leading_number(part: Seq<char>) -> u32 {
    match parse_unsigned(first_word(part), u32::MAX as nat) {
        Some(n) => n as u32,
        None => 0,
    }
}

/// The statistics after one more part of a summary line is read: a part
/// that mentions `file` sets the number of files, else one that mentions
/// `insertion` the insertions, else one that mentions `deletion` the
/// deletions; any other part changes nothing.
pub open spec fn stats_with_part(before: CommitStats, raw_part: Seq<char>) -> CommitStats {
    let part = trimmed(raw_part);
    if contains_text(part, "file"@) {
        CommitStats { files_changed: leading_number(part), ..before }
    } else if contains_text(part, "insertion"@) {
        CommitStats { insertions: leading_number(part), ..before }
    } else if contains_text(part, "deletion"@) {
        CommitStats { deletions: leading_number(part), ..before }
    } else {
        before
    }
}

/// The statistics after the first `n` parts.
pub open spec fn stats_after(parts: Seq<Seq<char>>, n: int) -> CommitStats
    decreases n,
{
    if n <= 0 {
        CommitStats { files_changed: 0, insertions: 0, deletions: 0 }
    } else {
        stats_with_part(stats_after(parts, n - 1), parts[n - 1])
    }
}

/// The statistics that a summary line such as
/// `3 files changed, 45 insertions(+), 12 deletions(-)` gives: its parts
/// are separated by commas and read from left to right.
pub open spec fn stats_of_line(line: Seq<char>) -> CommitStats {
    stats_after(split_on(line, ','), split_on(line, ',').len() as int)
}

/// Length of the run of ASCII digits at the start of `text[from..to]`.
fn count_digits(text: &Vec<char>, from: usize, to: usize) -> (n: usize)
    requires
        from <= to <= text.len(),
    ensures
        n == first_index(text@.subrange(from as int, to as int), non_digit()),
        n <= to - from,
{
    let ghost part = text@.subrange(from as int, to as int);
    let mut i: usize = from;
    while i < to && '0' <= text[i] && text[i] <= '9'
        invariant
            from <= i <= to <= text.len(),
            forall|k: int| from <= k < i ==> is_digit(text@[k]),
        decreases to - i,
    {
        i += 1;
    }
    proof {
        let p = non_digit();
        assert forall|k: int| 0 <= k < i - from implies !p(#[trigger] part[k]) by {
            assert(part[k] == text@[from + k]);
        }
        if i < to {
            assert(part[i - from] == text@[i as int]);
        }
        lemma_first_index(part, p, i - from);
    }
    i - from
}

/// Length of the first word of `text[from..to]`.
fn count_word(text: &Vec<char>, from: usize, to: usize) -> (n: usize)
    requires
        from <= to <= text.len(),
    ensures
        n == first_index(text@.subrange(from as int, to as int), whitespace()),
        n <= to - from,
{
    let ghost part = text@.subrange(from as int, to as int);
    let mut i: usize = from;
    while i < to && !text[i].is_whitespace()
        invariant
            from <= i <= to <= text.len(),
            forall|k: int| from <= k < i ==> !crate::text::is_white_space(text@[k]),
        decreases to - i,
    {
        i += 1;
    }
    proof {
        let p = whitespace();
        assert forall|k: int| 0 <= k < i - from implies !p(#[trigger] part[k]) by {
            assert(part[k] == text@[from + k]);
        }
        if i < to {
            assert(part[i - from] == text@[i as int]);
        }
        lemma_first_index(part, p, i - from);
    }
    i - from
}

/// `info` is what the subject of a commit says of a pull request: there
/// is one exactly when the subject holds a pull request number; its title
/// is the subject; it counts as merged if the subject begins with
/// `Merge pull request #`, and its status is unknown otherwise.
pub open spec fn is_detected_pr(info: Option<PullRequestInfo>, subject: Seq<char>) -> bool {
    &&& info is Some <==> pr_number_of(subject) is Some
    &&& info is Some ==> {
        &&& Some(info->Some_0.number) == pr_number_of(subject)
        &&& info->Some_0.title@ == subject
        &&& info->Some_0.url@ == pr_url_of(info->Some_0.number)
        &&& info->Some_0.status == (if has_prefix(subject, merge_prefix()) {
            PRStatus::Merged
        } else {
            PRStatus::Unknown
        })
    }
}

/// The pull request number in a message.
pub fn extract_pr_number(message: &str) -> (r: Option<u32>)
    ensures
        r == pr_number_of(message@),
{
    let text = chars_of(message);
    let n = text.len();
    assert(text@.subrange(0, n as int) =~= message@);
    let hash = find_char(&text, 0, n, '#');
    if hash >= n {
        return None;
    }
    let digits = count_digits(&text, hash + 1, n);
    proof {
        let rest = message@.skip(hash + 1);
        assert(text@.subrange(hash + 1, n as int) =~= rest);
        assert(rest.take(digits as int) =~= text@.subrange(hash + 1, hash + 1 + digits));
    }
    match parse_decimal(&text, hash + 1, hash + 1 + digits, u32::MAX as u64) {
        Some(number) => Some(number as u32),
        None => None,
    }
}

/// The title of a pull request, from the message of its commit.
pub fn extract_pr_title(message: &str) -> (r: String)
    ensures
        r@ == pr_title_of(message@),
{
    let text = chars_of(message);
    let n = text.len();
    assert(text@.subrange(0, n as int) =~= message@);
    if starts_with(&text, "Merge pull request #") {
        if let Some(from_pos) = find_text(&text, 0, n, " from ") {
            let start = from_pos + " from ".unicode_len();
            let line_end = start + find_char(&text, start, n, '\n');
            let (a, b) = trim_bounds(&text, start, line_end);
            proof {
                let after = message@.skip(start as int);
                assert(text@.subrange(start as int, n as int) =~= after);
                assert(after.take(line_end - start) =~= text@.subrange(
                    start as int,
                    line_end as int,
                ));
            }
            let title = substring(&text, a, b);
            assert(title@ =~= text@.subrange(a as int, b as int));
            return title;
        }
    }
    string_of(&text)
}

/// The address of a pull request.
pub fn build_pr_url(pr_number: u32) -> (r: String)
    ensures
        r@ == pr_url_of(pr_number),
{
    let number = decimal(pr_number as u64);
    concat2("https://github.com/repo/pull/", number.as_str())
}

/// Looks for a pull request in the subject of a commit. There is one
/// exactly when the subject holds a pull request number. Its title is the
/// subject; it counts as merged if the subject begins with
/// `Merge pull request #`, and its status is unknown otherwise.
pub fn detect_pr_info(commit: &Commit) -> (r: Option<PullRequestInfo>)
    ensures
        is_detected_pr(r, commit.subject@),
{
    let subject = chars_of(commit.subject.as_str());
    if starts_with(&subject, "Merge pull request #") {
        if let Some(pr_num) = extract_pr_number(commit.subject.as_str()) {
            return Some(
                PullRequestInfo {
                    number: pr_num,
                    title: commit.subject.clone(),
                    url: build_pr_url(pr_num),
                    status: PRStatus::Merged,
                },
            );
        }
    }
    if let Some(pr_num) = extract_pr_number(commit.subject.as_str()) {
        return Some(
            PullRequestInfo {
                number: pr_num,
                title: extract_pr_title(commit.subject.as_str()),
                url: build_pr_url(pr_num),
                status: PRStatus::Unknown,
            },
        );
    }
    None
}

/// The number that the first word of `text[from..to]` writes, or 0.
fn leading_number_at(text: &Vec<char>, from: usize, to: usize) -> (r: u32)
    requires
        from <= to <= text.len(),
    ensures
        r == leading_number(text@.subrange(from as int, to as int)),
{
    let word = count_word(text, from, to);
    proof {
        let part = text@.subrange(from as int, to as int);
        assert(part.take(word as int) =~= text@.subrange(from as int, from + word));
    }
    match parse_decimal(text, from, from + word, u32::MAX as u64) {
        Some(n) => n as u32,
        None => 0,
    }
}

/// Reads the statistics out of a summary line such as
/// `3 files changed, 45 insertions(+), 12 deletions(-)`. What the line
/// does not give is 0.
pub fn parse_stat_line(line: &str) -> (r: Option<CommitStats>)
    ensures
        r == Some(stats_of_line(line@)),
{
    let text = chars_of(line);
    let n = text.len();
    assert(text@.subrange(0, n as int) =~= line@);
    let parts = split_bounds(&text, 0, n, ',');
    let ghost pieces = split_on(line@, ',');
    let mut stats = CommitStats { files_changed: 0, insertions: 0, deletions: 0 };
    let mut i: usize = 0;
    while i < parts.len()
        invariant
            i <= parts@.len(),
            text@ == line@,
            n == text@.len(),
            pieces == split_on(text@.subrange(0, n as int), ','),
            pieces == split_on(line@, ','),
            parts@.len() == pieces.len(),
            forall|k: int|
                0 <= k < parts@.len() ==> {
                    &&& 0 <= (#[trigger] parts@[k]).0 <= parts@[k].1 <= n
                    &&& text@.subrange(parts@[k].0 as int, parts@[k].1 as int) == pieces[k]
                },
            stats == stats_after(pieces, i as int),
        decreases parts.len() - i,
    {
        let (from, to) = parts[i];
        let (a, b) = trim_bounds(&text, from, to);
        assert(text@.subrange(a as int, b as int) == trimmed(pieces[i as int]));
        if contains_at(&text, a, b, "file") {
            stats.files_changed = leading_number_at(&text, a, b);
        } else if contains_at(&text, a, b, "insertion") {
            stats.insertions = leading_number_at(&text, a, b);
        } else if contains_at(&text, a, b, "deletion") {
            stats.deletions = leading_number_at(&text, a, b);
        }
        i += 1;
    }
    Some(stats)
}

/// The records of the first `n` lines of a log: the fields of every line
/// that is not empty and has five fields or more. Fields are separated by
/// NUL characters.
pub open spec fn log_records(lines: Seq<Seq<char>>, n: int) -> Seq<Seq<Seq<char>>>
    decreases n,
{
    if n <= 0 {
        Seq::empty()
    } else {
        let before = log_records(lines, n - 1);
        let fields = split_on(lines[n - 1], '\0');
        if lines[n - 1].len() > 0 && fields.len() >= 5 {
            before.push(fields)
        } else {
            before
        }
    }
}

/// The commit is the one that a log record gives: a record of ten fields
/// or more is a full record, a shorter one a short record.
pub open spec fn is_commit_of_record(commit: &Commit, fields: Seq<Seq<char>>) -> bool {
    if fields.len() >= 10 {
        commit.is_enhanced_from(fields)
    } else {
        commit.is_basic_from(fields)
    }
}

/// Reads the commits out of the output of `git log`: one commit for every
/// line that is a record, in order.
pub fn parse_commit_log(stdout: &str) -> (commits: Vec<Commit>)
    ensures
        commits@.len() == log_records(
            split_lines(stdout@),
            split_lines(stdout@).len() as int,
        ).len(),
        forall|i: int|
            0 <= i < commits@.len() ==> is_commit_of_record(
                &#[trigger] commits@[i],
                log_records(split_lines(stdout@), split_lines(stdout@).len() as int)[i],
            ),
{
    let text = chars_of(stdout);
    let bounds = line_bounds(&text);
    let ghost lines = split_lines(stdout@);
    let mut commits: Vec<Commit> = Vec::new();
    let mut n: usize = 0;
    while n < bounds.len()
        invariant
            n <= bounds@.len(),
            text@ == stdout@,
            lines == split_lines(text@),
            bounds@.len() == lines.len(),
            forall|k: int|
                0 <= k < bounds@.len() ==> {
                    &&& (#[trigger] bounds@[k]).0 <= bounds@[k].1 <= text@.len()
                    &&& text@.subrange(bounds@[k].0 as int, bounds@[k].1 as int) == lines[k]
                },
            commits@.len() == log_records(lines, n as int).len(),
            forall|i: int|
                0 <= i < commits@.len() ==> is_commit_of_record(
                    &#[trigger] commits@[i],
                    log_records(lines, n as int)[i],
                ),
        decreases bounds.len() - n,
    {
        let (from, to) = bounds[n];
        if from < to {
            let parts = split_bounds(&text, from, to, '\0');
            let ghost fields = split_on(lines[n as int], '\0');
            if parts.len() >= 10 {
                let commit = Commit::new_enhanced(
                    slice_string(&text, parts[0].0, parts[0].1),
                    slice_string(&text, parts[1].0, parts[1].1),
                    slice_string(&text, parts[3].0, parts[3].1),
                    slice_string(&text, parts[4].0, parts[4].1),
                    slice_string(&text, parts[2].0, parts[2].1),
                    slice_string(&text, parts[5].0, parts[5].1),
                    slice_string(&text, parts[6].0, parts[6].1),
                    slice_string(&text, parts[7].0, parts[7].1),
                    slice_string(&text, parts[8].0, parts[8].1),
                    slice_string(&text, parts[9].0, parts[9].1),
                );
                assert(commit.is_enhanced_from(fields));
                commits.push(commit);
            } else if parts.len() >= 5 {
                let commit = Commit::new(
                    slice_string(&text, parts[0].0, parts[0].1),
                    slice_string(&text, parts[1].0, parts[1].1),
                    slice_string(&text, parts[2].0, parts[2].1),
                    slice_string(&text, parts[3].0, parts[3].1),
                    slice_string(&text, parts[4].0, parts[4].1),
                );
                assert(commit.is_basic_from(fields));
                commits.push(commit);
            }
        }
        n += 1;
    }
    commits
}

/// One of the sixteen hexadecimal digits, in either case.
pub open spec fn is_hex_digit(c: char) -> bool {
    ('0' <= c <= '9') || ('a' <= c <= 'f') || ('A' <= c <= 'F')
}

/// A full commit hash: forty hexadecimal digits.
pub open spec fn is_commit_hash(line: Seq<char>) -> bool {
    line.len() == 40 && forall|i: int| 0 <= i < line.len() ==> is_hex_digit(#[trigger] line[i])
}

/// Where a scan of `git log --name-status` output stands: the commit it
/// is in, the path that the file has there, and the pairs of hash and
/// path found so far.
pub struct RenameScan {
    pub hash: Seq<char>,
    pub path: Seq<char>,
    pub entries: Seq<(Seq<char>, Seq<char>)>,
}

/// The scan after one more line. A commit hash opens a commit, which gets
/// the path known so far. A rename line `R<tab>old<tab>new` gives the
/// commit the new path and makes the old path the one known for the
/// commits that follow, which are older. A line `A`, `M` or `D` with one
/// path gives that path to the commit and to those that follow. Any other
/// line changes nothing.
pub open spec fn rename_scan_step(state: RenameScan, line: Seq<char>) -> RenameScan {
    let parts = split_on(line, '\t');
    if line.len() == 0 {
        state
    } else if is_commit_hash(line) {
        RenameScan { hash: line, path: state.path, entries: state.entries.push((line, state.path)) }
    } else if line[0] == 'R' {
        if parts.len() == 3 {
            RenameScan {
                hash: state.hash,
                path: parts[1],
                entries: if state.hash.len() > 0 {
                    state.entries.push((state.hash, parts[2]))
                } else {
                    state.entries
                },
            }
        } else {
            state
        }
    } else if line[0] == 'A' || line[0] == 'M' || line[0] == 'D' {
        if parts.len() == 2 {
            RenameScan {
                hash: state.hash,
                path: parts[1],
                entries: if state.hash.len() > 0 {
                    state.entries.push((state.hash, parts[1]))
                } else {
                    state.entries
                },
            }
        } else {
            state
        }
    } else {
        state
    }
}

/// The scan after the first `n` lines, begun with `file_path` as the path
/// of the file.
pub open spec fn rename_scan(lines: Seq<Seq<char>>, file_path: Seq<char>, n: int) -> RenameScan
    decreases n,
{
    if n <= 0 {
        RenameScan { hash: Seq::empty(), path: file_path, entries: Seq::empty() }
    } else {
        rename_scan_step(rename_scan(lines, file_path, n - 1), lines[n - 1])
    }
}

/// Whether `text[from..to]` is a full commit hash.
fn is_hash_line(text: &Vec<char>, from: usize, to: usize) -> (r: bool)
    requires
        from <= to <= text.len(),
    ensures
        r == is_commit_hash(text@.subrange(from as int, to as int)),
{
    let ghost line = text@.subrange(from as int, to as int);
    if to - from != 40 {
        return false;
    }
    let mut i: usize = from;
    while i < to
        invariant
            from <= i <= to <= text.len(),
            line == text@.subrange(from as int, to as int),
            forall|k: int| 0 <= k < i - from ==> is_hex_digit(#[trigger] line[k]),
        decreases to - i,
    {
        let c = text[i];
        let hex = ('0' <= c && c <= '9') || ('a' <= c && c <= 'f') || ('A' <= c && c <= 'F');
        assert(line[i - from] == c);
        if !hex {
            return false;
        }
        i += 1;
    }
    true
}

/// Reads the path of the file at every commit out of the output of
/// `git log --follow --name-status --format=%H`, for a file that is at
/// `file_path` now. The result lists pairs of hash and path in the order
/// found; of two pairs with the same hash the later one counts.
pub fn parse_rename_map(stdout: &str, file_path: &str) -> (entries: Vec<(String, String)>)
    ensures
        pairs_view(entries@) == rename_scan(
            split_lines(stdout@),
            file_path@,
            split_lines(stdout@).len() as int,
        ).entries,
{
    let text = chars_of(stdout);
    let bounds = line_bounds(&text);
    let ghost lines = split_lines(stdout@);
    let mut entries: Vec<(String, String)> = Vec::new();
    let mut current_hash = String::new();
    let mut current_path = file_path.to_owned();
    let mut n: usize = 0;
    assert(pairs_view(entries@) =~= Seq::<(Seq<char>, Seq<char>)>::empty());
    while n < bounds.len()
        invariant
            n <= bounds@.len(),
            text@ == stdout@,
            lines == split_lines(text@),
            bounds@.len() == lines.len(),
            forall|k: int|
                0 <= k < bounds@.len() ==> {
                    &&& (#[trigger] bounds@[k]).0 <= bounds@[k].1 <= text@.len()
                    &&& text@.subrange(bounds@[k].0 as int, bounds@[k].1 as int) == lines[k]
                },
            rename_scan(lines, file_path@, n as int) == (RenameScan {
                hash: current_hash@,
                path: current_path@,
                entries: pairs_view(entries@),
            }),
        decreases bounds.len() - n,
    {
        let (from, to) = bounds[n];
        let ghost line = lines[n as int];
        let ghost before = pairs_view(entries@);
        if from == to {
        } else if is_hash_line(&text, from, to) {
            current_hash = slice_string(&text, from, to);
            entries.push((current_hash.clone(), current_path.clone()));
            assert(pairs_view(entries@) =~= before.push((line, current_path@)));
        } else {
            let first = text[from];
            assert(line[0] == first);
            let parts = split_bounds(&text, from, to, '\t');
            if first == 'R' {
                if parts.len() == 3 {
                    let new_path = slice_string(&text, parts[2].0, parts[2].1);
                    current_path = slice_string(&text, parts[1].0, parts[1].1);
                    if current_hash.as_str().unicode_len() > 0 {
                        entries.push((current_hash.clone(), new_path));
                        assert(pairs_view(entries@) =~= before.push(
                            (current_hash@, split_on(line, '\t')[2]),
                        ));
                    }
                }
            } else if first == 'A' || first == 'M' || first == 'D' {
                if parts.len() == 2 {
                    current_path = slice_string(&text, parts[1].0, parts[1].1);
                    if current_hash.as_str().unicode_len() > 0 {
                        entries.push((current_hash.clone(), current_path.clone()));
                        assert(pairs_view(entries@) =~= before.push(
                            (current_hash@, split_on(line, '\t')[1]),
                        ));
                    }
                }
            }
        }
        n += 1;
    }
    entries
}

/// `s` without every `* ` at its start.
pub open spec fn without_stars(s: Seq<char>) -> Seq<char>
    decreases s.len(),
{
    if s.len() >= 2 && s[0] == '*' && s[1] == ' ' {
        without_stars(s.skip(2))
    } else {
        s
    }
}

/// The name of the branch in a line of `git branch` output: the line
/// without white space around it, and without the mark of the current
/// branch and the white space after it.
pub open spec fn branch_name(line: Seq<char>) -> Seq<char> {
    trimmed(without_stars(trimmed(line)))
}

/// The references that the first `n` lines of `git branch` output give:
/// `branch:` and the name for every line that names a branch. A line that
/// tells of a detached head names none.
pub open spec fn branch_refs(lines: Seq<Seq<char>>, n: int) -> Seq<Seq<char>>
    decreases n,
{
    if n <= 0 {
        Seq::empty()
    } else {
        let before = branch_refs(lines, n - 1);
        let name = branch_name(lines[n - 1]);
        if name.len() > 0 && !has_prefix(name, "(HEAD detached"@) {
            before.push("branch:"@ + name)
        } else {
            before
        }
    }
}

/// The references that the first `n` lines of `git tag` output give:
/// `tag:` and the name for every line that is not blank.
pub open spec fn tag_refs(lines: Seq<Seq<char>>, n: int) -> Seq<Seq<char>>
    decreases n,
{
    if n <= 0 {
        Seq::empty()
    } else {
        let before = tag_refs(lines, n - 1);
        let name = trimmed(lines[n - 1]);
        if name.len() > 0 {
            before.push("tag:"@ + name)
        } else {
            before
        }
    }
}

/// The lines of the output of a command that ran, none for one that did
/// not.
pub open spec fn output_lines(output: Option<&str>) -> Seq<Seq<char>> {
    match output {
        Some(text) => split_lines(text@),
        None => Seq::empty(),
    }
}

/// The bounds of the branch name in `text[from..to]`.
fn branch_bounds(text: &Vec<char>, from: usize, to: usize) -> (r: (usize, usize))
    requires
        from <= to <= text.len(),
    ensures
        from <= r.0 <= r.1 <= to,
        text@.subrange(r.0 as int, r.1 as int) == branch_name(
            text@.subrange(from as int, to as int),
        ),
{
    let (a, b) = trim_bounds(text, from, to);
    let ghost inner = text@.subrange(a as int, b as int);
    let mut start: usize = a;
    while b - start >= 2 && text[start] == '*' && text[start + 1] == ' '
        invariant
            a <= start <= b <= text.len(),
            inner == text@.subrange(a as int, b as int),
            without_stars(inner) == without_stars(text@.subrange(start as int, b as int)),
        decreases b - start,
    {
        proof {
            let here = text@.subrange(start as int, b as int);
            assert(here[0] == text@[start as int] && here[1] == text@[start + 1]);
            assert(here.skip(2) =~= text@.subrange(start + 2, b as int));
        }
        start += 2;
    }
    proof {
        let here = text@.subrange(start as int, b as int);
        if here.len() >= 2 {
            assert(here[0] == text@[start as int] && here[1] == text@[start + 1]);
        }
        assert(without_stars(here) == here);
    }
    trim_bounds(text, start, b)
}

/// Reads the references of a commit out of the output of
/// `git branch --contains` and of `git tag --points-at`; the output of a
/// command that failed is `None`. Branches come first.
pub fn parse_refs(branch_output: Option<&str>, tag_output: Option<&str>) -> (refs: Vec<String>)
    ensures
        strings_view(refs@) == branch_refs(
            output_lines(branch_output),
            output_lines(branch_output).len() as int,
        ) + tag_refs(output_lines(tag_output), output_lines(tag_output).len() as int),
{
    let mut refs: Vec<String> = Vec::new();
    let ghost branch_lines = output_lines(branch_output);
    let ghost tag_lines = output_lines(tag_output);
    assert(strings_view(refs@) =~= branch_refs(branch_lines, 0));
    if let Some(output) = branch_output {
        let text = chars_of(output);
        let bounds = line_bounds(&text);
        let mut n: usize = 0;
        while n < bounds.len()
            invariant
                n <= bounds@.len(),
                text@ == output@,
                branch_lines == split_lines(text@),
                bounds@.len() == branch_lines.len(),
                forall|k: int|
                    0 <= k < bounds@.len() ==> {
                        &&& (#[trigger] bounds@[k]).0 <= bounds@[k].1 <= text@.len()
                        &&& text@.subrange(bounds@[k].0 as int, bounds@[k].1 as int)
                            == branch_lines[k]
                    },
                strings_view(refs@) == branch_refs(branch_lines, n as int),
            decreases bounds.len() - n,
        {
            let (from, to) = bounds[n];
            let (a, b) = branch_bounds(&text, from, to);
            let ghost before = strings_view(refs@);
            if a < b && !is_detached(&text, a, b) {
                let ghost name = text@.subrange(a as int, b as int);
                let mut entry = "branch:".to_owned();
                entry.append(slice_string(&text, a, b).as_str());
                refs.push(entry);
                assert(strings_view(refs@) =~= before.push("branch:"@ + name));
            }
            n += 1;
        }
    }
    let ghost branches = strings_view(refs@);
    assert(branches + tag_refs(tag_lines, 0) =~= branches);
    if let Some(output) = tag_output {
        let text = chars_of(output);
        let bounds = line_bounds(&text);
        let mut n: usize = 0;
        while n < bounds.len()
            invariant
                n <= bounds@.len(),
                text@ == output@,
                tag_lines == split_lines(text@),
                bounds@.len() == tag_lines.len(),
                forall|k: int|
                    0 <= k < bounds@.len() ==> {
                        &&& (#[trigger] bounds@[k]).0 <= bounds@[k].1 <= text@.len()
                        &&& text@.subrange(bounds@[k].0 as int, bounds@[k].1 as int)
                            == tag_lines[k]
                    },
                strings_view(refs@) == branches + tag_refs(tag_lines, n as int),
            decreases bounds.len() - n,
        {
            let (from, to) = bounds[n];
            let (a, b) = trim_bounds(&text, from, to);
            let ghost before = strings_view(refs@);
            if a < b {
                let ghost name = text@.subrange(a as int, b as int);
                let mut entry = "tag:".to_owned();
                entry.append(slice_string(&text, a, b).as_str());
                refs.push(entry);
                assert(strings_view(refs@) =~= before.push("tag:"@ + name));
                assert(before.push("tag:"@ + name) =~= branches + tag_refs(
                    tag_lines,
                    n as int,
                ).push("tag:"@ + name));
            }
            n += 1;
        }
    }
    refs
}

/// Whether the name `text[from..to]` tells of a detached head.
fn is_detached(text: &Vec<char>, from: usize, to: usize) -> (r: bool)
    requires
        from <= to <= text.len(),
    ensures
        r == has_prefix(text@.subrange(from as int, to as int), "(HEAD detached"@),
{
    let name = crate::diff::copy_range(text, from, to);
    starts_with(&name, "(HEAD detached")
}

/// The parents in the output of `git rev-list --parents -n1`: every word
/// but the first, which is the commit itself.
pub open spec fn parents_of(stdout: Seq<char>) -> Seq<Seq<char>> {
    if words(stdout).len() > 1 {
        words(stdout).skip(1)
    } else {
        Seq::empty()
    }
}

/// Reads the parents of a commit out of the output of
/// `git rev-list --parents -n1`.
pub fn parse_parents(stdout: &str) -> (parents: Vec<String>)
    ensures
        strings_view(parents@) == parents_of(stdout@),
{
    let text = chars_of(stdout);
    assert(text@.subrange(0, text@.len() as int) =~= stdout@);
    let bounds = word_bounds(&text, 0, text.len());
    let mut parents: Vec<String> = Vec::new();
    if bounds.len() <= 1 {
        assert(strings_view(parents@) =~= parents_of(stdout@));
        return parents;
    }
    let mut i: usize = 1;
    while i < bounds.len()
        invariant
            1 <= i <= bounds@.len(),
            bounds@.len() == words(stdout@).len(),
            text@ == stdout@,
            forall|k: int|
                0 <= k < bounds@.len() ==> {
                    &&& 0 <= (#[trigger] bounds@[k]).0 < bounds@[k].1 <= text@.len()
                    &&& text@.subrange(bounds@[k].0 as int, bounds@[k].1 as int) == words(
                        stdout@,
                    )[k]
                },
            parents@.len() == i - 1,
            forall|k: int|
                0 <= k < parents@.len() ==> (#[trigger] parents@[k])@ == words(stdout@)[k + 1],
        decreases bounds.len() - i,
    {
        parents.push(slice_string(&text, bounds[i].0, bounds[i].1));
        i += 1;
    }
    assert(strings_view(parents@) =~= parents_of(stdout@));
    parents
}

/// A line that sums up a commit: it mentions `file` and `insertion` or
/// `deletion`.
pub open spec fn is_summary_line(line: Seq<char>) -> bool {
    contains_text(line, "file"@) && (contains_text(line, "insertion"@) || contains_text(
        line,
        "deletion"@,
    ))
}

/// Index of the last summary line among the first `n` lines, or -1.
pub open spec fn last_summary_line(lines: Seq<Seq<char>>, n: int) -> int
    decreases n,
{
    if n <= 0 {
        -1
    } else if is_summary_line(lines[n - 1]) {
        n - 1
    } else {
        last_summary_line(lines, n - 1)
    }
}

/// The statistics that the output of `git show --stat` gives: those of its
/// last summary line, if it has one.
pub open spec fn stats_of_output(stdout: Seq<char>) -> Option<CommitStats> {
    let lines = split_lines(stdout);
    let index = last_summary_line(lines, lines.len() as int);
    if index >= 0 {
        Some(stats_of_line(lines[index]))
    } else {
        None
    }
}

/// Reads the statistics of a commit out of the output of
/// `git show --stat --format=`.
pub fn parse_commit_stats(stdout: &str) -> (stats: Option<CommitStats>)
    ensures
        stats == stats_of_output(stdout@),
{
    let text = chars_of(stdout);
    let bounds = line_bounds(&text);
    let ghost lines = split_lines(stdout@);
    let mut n: usize = bounds.len();
    while n > 0
        invariant
            n <= bounds@.len(),
            text@ == stdout@,
            lines == split_lines(text@),
            bounds@.len() == lines.len(),
            forall|k: int|
                0 <= k < bounds@.len() ==> {
                    &&& (#[trigger] bounds@[k]).0 <= bounds@[k].1 <= text@.len()
                    &&& text@.subrange(bounds@[k].0 as int, bounds@[k].1 as int) == lines[k]
                },
            last_summary_line(lines, lines.len() as int) == last_summary_line(lines, n as int),
        decreases n,
    {
        let (from, to) = bounds[n - 1];
        if contains_at(&text, from, to, "file") && (contains_at(&text, from, to, "insertion")
            || contains_at(&text, from, to, "deletion")) {
            let line = slice_string(&text, from, to);
            return parse_stat_line(line.as_str());
        }
        n -= 1;
    }
    None
}

} // verus!
