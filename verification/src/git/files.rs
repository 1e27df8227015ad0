//! The files of a repository as the file picker lists them.

use crate::diff::highlight::Color;
use crate::text::{
    chars_of, concat2, decimal, decimal_text, push_decimal, same_text, slice_string, split_bounds,
    split_on, strings_view,
};
use vstd::prelude::*;

verus! {

/// A file of the repository.
#[derive(Debug)]
pub struct GitFile {
    /// Where the file is.
    pub path: String,
    /// The path as it is shown, relative to the repository root.
    pub display_path: String,
    /// When the file was last changed, in seconds since 1970, if known.
    pub modified: Option<u64>,
    /// Size in bytes, if known.
    pub size: Option<u64>,
    pub status: FileStatus,
}

/// What git knows of a file.
#[derive(Debug, Clone, Copy, PartialEq, Eq, Structural)]
pub enum FileStatus {
    /// Tracked and unchanged.
    Clean,
    /// Changed in the working directory.
    Modified,
    /// Changes are staged.
    Staged,
    /// Not tracked.
    Untracked,
    /// Staged changes and more changes in the working directory.
    Mixed,
}

/// How long ago a file was changed.
#[derive(Debug, Clone, Copy, PartialEq, Eq, Structural)]
pub enum FileAge {
    /// No time of change is known.
    Never,
    /// The time of change lies in the future.
    Unknown,
    /// Changed so many seconds ago.
    Seconds(u64),
}

impl Clone for GitFile {
    fn clone(&self) -> (r: Self)
        ensures
            r == *self,
    {
        GitFile {
            path: self.path.clone(),
            display_path: self.display_path.clone(),
            modified: self.modified,
            size: self.size,
            status: self.status,
        }
    }
}

impl FileStatus {
    /// The one-character mark of the status.
    pub open spec fn symbol_text(self) -> Seq<char> {
        match self {
            FileStatus::Clean => " "@,
            FileStatus::Modified => "M"@,
            FileStatus::Staged => "A"@,
            FileStatus::Untracked => "?"@,
            FileStatus::Mixed => "±"@,
        }
    }

    /// The one-character mark of the status.
    pub fn symbol(&self) -> (r: &'static str)
        ensures
            r@ == self.symbol_text(),
    {
        match self {
            FileStatus::Clean => " ",
            FileStatus::Modified => "M",
            FileStatus::Staged => "A",
            FileStatus::Untracked => "?",
            FileStatus::Mixed => "±",
        }
    }

    /// The colour that the status is shown in.
    pub fn style_color(&self) -> (r: Color)
        ensures
            r == (match *self {
                FileStatus::Clean => Color::Gray,
                FileStatus::Modified => Color::Yellow,
                FileStatus::Staged => Color::Green,
                FileStatus::Untracked => Color::Red,
                FileStatus::Mixed => Color::Magenta,
            }),
    {
        match self {
            FileStatus::Clean => Color::Gray,
            FileStatus::Modified => Color::Yellow,
            FileStatus::Staged => Color::Green,
            FileStatus::Untracked => Color::Red,
            FileStatus::Mixed => Color::Magenta,
        }
    }

    /// The status that the two status letters of `git status --porcelain`
    /// stand for: the first is the state of the index, the second that of
    /// the working tree.
    pub fn from_codes(index_status: char, worktree_status: char) -> (r: Self)
        ensures
            r == status_of_codes(index_status, worktree_status),
    {
        match (index_status, worktree_status) {
            (' ', 'M') => FileStatus::Modified,
            ('M', ' ') => FileStatus::Staged,
            ('A', ' ') => FileStatus::Staged,
            ('D', ' ') => FileStatus::Staged,
            ('R', ' ') => FileStatus::Staged,
            ('C', ' ') => FileStatus::Staged,
            ('M', 'M') => FileStatus::Mixed,
            ('A', 'M') => FileStatus::Mixed,
            ('?', '?') => FileStatus::Untracked,
            _ => FileStatus::Modified,
        }
    }
}

/// 1024 bytes.
pub const KIB: u64 = 1024;

/// 1024 times 1024 bytes.
pub const MIB: u64 = 1048576;

/// 1024 times 1024 times 1024 bytes.
pub const GIB: u64 = 1073741824;

/// `size / unit` in tenths, rounded to the nearest tenth; a value exactly
/// between two tenths goes to the even one.
pub open spec fn tenths(size: nat, unit: nat) -> nat {
    let q = size * 10 / unit;
    let r = size * 10 % unit;
    if 2 * r > unit || (2 * r == unit && q % 2 == 1) {
        q + 1
    } else {
        q
    }
}

/// A number of tenths written with one decimal.
pub open spec fn one_decimal(t: nat) -> Seq<char> {
    decimal_text(t / 10) + "."@ + decimal_text(t % 10)
}

/// A size as it is shown: bytes below 1024 as `512B`, larger sizes in
/// units of 1024 with one decimal as `1.5K`, `1.0M` or `2.3G`, an unknown
/// size as `-`.
pub open spec fn size_text(size: Option<u64>) -> Seq<char> {
    match size {
        Some(n) => if n < KIB {
            decimal_text(n as nat) + "B"@
        } else if n < MIB {
            one_decimal(tenths(n as nat, KIB as nat)) + "K"@
        } else if n < GIB {
            one_decimal(tenths(n as nat, MIB as nat)) + "M"@
        } else {
            one_decimal(tenths(n as nat, GIB as nat)) + "G"@
        },
        None => "-"@,
    }
}

/// `size / unit` in tenths, rounded to the nearest, ties to even.
fn rounded_tenths(size: u64, unit: u64) -> (t: u64)
    requires
        unit == KIB || unit == MIB || unit == GIB,
    ensures
        t == tenths(size as nat, unit as nat),
{
    let scaled: u128 = size as u128 * 10;
    let q: u128 = scaled / (unit as u128);
    let r: u128 = scaled % (unit as u128);
    assert(q <= scaled / 1024) by (nonlinear_arith)
        requires
            q == scaled / (unit as u128),
            unit >= 1024,
    ;
    let t: u128 = if 2 * r > unit as u128 || (2 * r == unit as u128 && q % 2 == 1) {
        q + 1
    } else {
        q
    };
    t as u64
}

/// Writes a number of tenths with one decimal and a unit.
fn with_one_decimal(t: u64, unit: &str) -> (r: String)
    ensures
        r@ == one_decimal(t as nat) + unit@,
{
    let mut r = decimal(t / 10);
    r.append(".");
    push_decimal(&mut r, t % 10);
    r.append(unit);
    r
}

/// A size as it is shown.
pub fn format_file_size(size: Option<u64>) -> (r: String)
    ensures
        r@ == size_text(size),
{
    match size {
        Some(size) => {
            if size < KIB {
                let number = decimal(size);
                concat2(number.as_str(), "B")
            } else if size < MIB {
                with_one_decimal(rounded_tenths(size, KIB), "K")
            } else if size < GIB {
                with_one_decimal(rounded_tenths(size, MIB), "M")
            } else {
                with_one_decimal(rounded_tenths(size, GIB), "G")
            }
        },
        None => "-".to_owned(),
    }
}

/// An age as it is shown: in seconds below a minute, then in minutes,
/// hours, days, weeks (604800 seconds), and in months of thirty days
/// (2592000 seconds) from thirty days on; always rounded down.
pub open spec fn age_text(age: FileAge) -> Seq<char> {
    match age {
        FileAge::Never => "-"@,
        FileAge::Unknown => "unknown"@,
        FileAge::Seconds(s) => if s < 60 {
            decimal_text(s as nat) + "s ago"@
        } else if s < 3600 {
            decimal_text((s / 60) as nat) + "m ago"@
        } else if s < 86400 {
            decimal_text((s / 3600) as nat) + "h ago"@
        } else if s < 604800 {
            decimal_text((s / 86400) as nat) + "d ago"@
        } else if s < 2592000 {
            decimal_text((s / 604800) as nat) + "w ago"@
        } else {
            decimal_text((s / 2592000) as nat) + "mo ago"@
        },
    }
}

/// An age as it is shown.
pub fn format_modified_time(age: FileAge) -> (r: String)
    ensures
        r@ == age_text(age),
{
    match age {
        FileAge::Never => "-".to_owned(),
        FileAge::Unknown => "unknown".to_owned(),
        FileAge::Seconds(seconds) => {
            if seconds < 60 {
                concat2(decimal(seconds).as_str(), "s ago")
            } else if seconds < 3600 {
                concat2(decimal(seconds / 60).as_str(), "m ago")
            } else if seconds < 86400 {
                concat2(decimal(seconds / 3600).as_str(), "h ago")
            } else if seconds < 604800 {
                concat2(decimal(seconds / 86400).as_str(), "d ago")
            } else if seconds < 2592000 {
                concat2(decimal(seconds / 604800).as_str(), "w ago")
            } else {
                concat2(decimal(seconds / 2592000).as_str(), "mo ago")
            }
        },
    }
}

/// Those of the first `n` parts that are not empty, in order.
pub open spec fn nonempty_parts(parts: Seq<Seq<char>>, n: int) -> Seq<Seq<char>>
    decreases n,
{
    if n <= 0 {
        Seq::empty()
    } else if parts[n - 1].len() > 0 {
        nonempty_parts(parts, n - 1).push(parts[n - 1])
    } else {
        nonempty_parts(parts, n - 1)
    }
}

/// The paths in the output of `git ls-files -z`: the parts between NUL
/// characters that are not empty.
pub open spec fn listed_paths(stdout: Seq<char>) -> Seq<Seq<char>> {
    nonempty_parts(split_on(stdout, '\0'), split_on(stdout, '\0').len() as int)
}

/// Reads the paths out of the output of `git ls-files -z`.
pub fn parse_file_list(stdout: &str) -> (paths: Vec<String>)
    ensures
        strings_view(paths@) == listed_paths(stdout@),
{
    let text = chars_of(stdout);
    assert(text@.subrange(0, text@.len() as int) =~= stdout@);
    let bounds = split_bounds(&text, 0, text.len(), '\0');
    let ghost parts = split_on(stdout@, '\0');
    let mut paths: Vec<String> = Vec::new();
    let mut n: usize = 0;
    assert(strings_view(paths@) =~= nonempty_parts(parts, 0));
    while n < bounds.len()
        invariant
            n <= bounds@.len(),
            bounds@.len() == parts.len(),
            forall|k: int|
                0 <= k < bounds@.len() ==> {
                    &&& 0 <= (#[trigger] bounds@[k]).0 <= bounds@[k].1 <= text@.len()
                    &&& text@.subrange(bounds@[k].0 as int, bounds@[k].1 as int) == parts[k]
                },
            strings_view(paths@) == nonempty_parts(parts, n as int),
        decreases bounds.len() - n,
    {
        let (from, to) = bounds[n];
        let ghost before = strings_view(paths@);
        if from < to {
            paths.push(slice_string(&text, from, to));
            assert(strings_view(paths@) =~= before.push(parts[n as int]));
        }
        n += 1;
    }
    paths
}

/// The views of a sequence of status entries.
pub open spec fn entries_view(entries: Seq<(String, FileStatus)>) -> Seq<(Seq<char>, FileStatus)> {
    Seq::new(entries.len(), |i: int| (entries[i].0@, entries[i].1))
}

/// The status entries among the first `n` parts of the output of
/// `git status --porcelain -z`. A part of three characters or more is an
/// entry: two status letters, one more character, then the path.
pub open spec fn status_entries(parts: Seq<Seq<char>>, n: int) -> Seq<(Seq<char>, FileStatus)>
    decreases n,
{
    if n <= 0 {
        Seq::empty()
    } else if parts[n - 1].len() >= 3 {
        status_entries(parts, n - 1).push(
            (parts[n - 1].skip(3), status_of_codes(parts[n - 1][0], parts[n - 1][1])),
        )
    } else {
        status_entries(parts, n - 1)
    }
}

/// The status that two status letters stand for.
pub open spec fn status_of_codes(index_status: char, worktree_status: char) -> FileStatus {
    if index_status == '?' && worktree_status == '?' {
        FileStatus::Untracked
    } else if (index_status == 'M' || index_status == 'A') && worktree_status == 'M' {
        FileStatus::Mixed
    } else if worktree_status == ' ' && (index_status == 'M' || index_status == 'A'
        || index_status == 'D' || index_status == 'R' || index_status == 'C') {
        FileStatus::Staged
    } else {
        FileStatus::Modified
    }
}

/// Reads path and status of every changed file out of the output of
/// `git status --porcelain -z`.
pub fn parse_status_entries(stdout: &str) -> (entries: Vec<(String, FileStatus)>)
    ensures
        entries_view(entries@) == status_entries(
            split_on(stdout@, '\0'),
            split_on(stdout@, '\0').len() as int,
        ),
{
    let text = chars_of(stdout);
    assert(text@.subrange(0, text@.len() as int) =~= stdout@);
    let bounds = split_bounds(&text, 0, text.len(), '\0');
    let ghost parts = split_on(stdout@, '\0');
    let mut entries: Vec<(String, FileStatus)> = Vec::new();
    let mut n: usize = 0;
    assert(entries_view(entries@) =~= status_entries(parts, 0));
    while n < bounds.len()
        invariant
            n <= bounds@.len(),
            bounds@.len() == parts.len(),
            forall|k: int|
                0 <= k < bounds@.len() ==> {
                    &&& 0 <= (#[trigger] bounds@[k]).0 <= bounds@[k].1 <= text@.len()
                    &&& text@.subrange(bounds@[k].0 as int, bounds@[k].1 as int) == parts[k]
                },
            entries_view(entries@) == status_entries(parts, n as int),
        decreases bounds.len() - n,
    {
        let (from, to) = bounds[n];
        let ghost before = entries_view(entries@);
        let ghost part = parts[n as int];
        if to - from >= 3 {
            assert(part[0] == text@[from as int] && part[1] == text@[from + 1]);
            let status = FileStatus::from_codes(text[from], text[from + 1]);
            let path = slice_string(&text, from + 3, to);
            assert(path@ =~= part.skip(3));
            entries.push((path, status));
            assert(entries_view(entries@) =~= before.push((part.skip(3), status)));
        }
        n += 1;
    }
    entries
}

/// The status of `path` according to the first `n` entries: that of the
/// last entry for the path, and clean if there is none.
pub open spec fn status_in(entries: Seq<(Seq<char>, FileStatus)>, path: Seq<char>, n: int) -> FileStatus
    decreases n,
{
    if n <= 0 {
        FileStatus::Clean
    } else if entries[n - 1].0 == path {
        entries[n - 1].1
    } else {
        status_in(entries, path, n - 1)
    }
}

/// The status of `path`: that of the last entry for it, and clean if
/// there is none.
pub fn status_of(entries: &Vec<(String, FileStatus)>, path: &str) -> (status: FileStatus)
    ensures
        status == status_in(entries_view(entries@), path@, entries@.len() as int),
{
    let mut n: usize = entries.len();
    while n > 0
        invariant
            n <= entries@.len(),
            status_in(entries_view(entries@), path@, entries@.len() as int) == status_in(
                entries_view(entries@),
                path@,
                n as int,
            ),
        decreases n,
    {
        if same_text(entries[n - 1].0.as_str(), path) {
            return entries[n - 1].1;
        }
        n -= 1;
    }
    FileStatus::Clean
}

} // verus!
