//! A parsed diff laid out in two aligned columns, old file and new file.

use crate::diff::{line_views, DiffLine, DiffLineType, DiffLineView};
use vstd::prelude::*;

verus! {

/// A diff in two columns of equal length. Row `i` is `old_lines[i]` beside
/// `new_lines[i]`; `None` is an empty cell.
#[derive(Debug)]
pub struct SideBySideDiff {
    pub old_lines: Vec<Option<DiffLine>>,
    pub new_lines: Vec<Option<DiffLine>>,
}

/// The view of a cell.
pub open spec fn cell_view(cell: Option<DiffLine>) -> Option<DiffLineView> {
    match cell {
        Some(line) => Some(line@),
        None => None,
    }
}

/// The rows that two columns of equal length make.
pub open spec fn zip_rows(old_lines: Seq<Option<DiffLine>>, new_lines: Seq<Option<DiffLine>>) -> Seq<
    (Option<DiffLineView>, Option<DiffLineView>),
> {
    Seq::new(old_lines.len(), |i: int| (cell_view(old_lines[i]), cell_view(new_lines[i])))
}

/// The row that one diff line makes before compaction: a deletion stands in
/// the old column only, an addition in the new column only, every other line
/// in both.
pub open spec fn row_of(line: DiffLineView) -> (Option<DiffLineView>, Option<DiffLineView>) {
    match line.line_type {
        DiffLineType::Deletion => (Some(line), None),
        DiffLineType::Addition => (None, Some(line)),
        _ => (Some(line), Some(line)),
    }
}

/// One row for each line.
pub open spec fn rows_of(lines: Seq<DiffLineView>) -> Seq<
    (Option<DiffLineView>, Option<DiffLineView>),
> {
    Seq::new(lines.len(), |i: int| row_of(lines[i]))
}

/// A deletion with an empty cell beside it.
pub open spec fn lone_deletion(row: (Option<DiffLineView>, Option<DiffLineView>)) -> bool {
    row.0 is Some && row.0->Some_0.line_type == DiffLineType::Deletion && row.1 is None
}

/// An addition with an empty cell beside it.
pub open spec fn lone_addition(row: (Option<DiffLineView>, Option<DiffLineView>)) -> bool {
    row.0 is None && row.1 is Some && row.1->Some_0.line_type == DiffLineType::Addition
}

/// Compaction, from top to bottom: a lone deletion directly followed by a
/// lone addition becomes one row that holds both; every other row stays. A
/// row that took an addition is not looked at again, so of a run of
/// deletions only the last is paired, with the first addition after it.
pub open spec fn compact(rows: Seq<(Option<DiffLineView>, Option<DiffLineView>)>) -> Seq<
    (Option<DiffLineView>, Option<DiffLineView>),
>
    decreases rows.len(),
{
    if rows.len() == 0 {
        Seq::empty()
    } else if rows.len() >= 2 && lone_deletion(rows[0]) && lone_addition(rows[1]) {
        seq![(rows[0].0, rows[1].1)] + compact(rows.skip(2))
    } else {
        seq![rows[0]] + compact(rows.skip(1))
    }
}

/// The side-by-side rows of a parsed diff.
pub open spec fn projected(lines: Seq<DiffLineView>) -> Seq<
    (Option<DiffLineView>, Option<DiffLineView>),
> {
    compact(rows_of(lines))
}

/// Compaction never yields more rows than it was given.
pub proof fn lemma_compact_len(rows: Seq<(Option<DiffLineView>, Option<DiffLineView>)>)
    ensures
        compact(rows).len() <= rows.len(),
    decreases rows.len(),
{
    if rows.len() == 0 {
    } else if rows.len() >= 2 && lone_deletion(rows[0]) && lone_addition(rows[1]) {
        lemma_compact_len(rows.skip(2));
    } else {
        lemma_compact_len(rows.skip(1));
    }
}

/// A copy of a cell.
fn copy_cell(cell: &Option<DiffLine>) -> (r: Option<DiffLine>)
    ensures
        r == *cell,
{
    match cell {
        Some(line) => Some(line.clone()),
        None => None,
    }
}

fn is_lone_deletion(old_cell: &Option<DiffLine>, new_cell: &Option<DiffLine>) -> (r: bool)
    ensures
        r == lone_deletion((cell_view(*old_cell), cell_view(*new_cell))),
{
    match (old_cell, new_cell) {
        (Some(line), None) => line.line_type == DiffLineType::Deletion,
        _ => false,
    }
}

fn is_lone_addition(old_cell: &Option<DiffLine>, new_cell: &Option<DiffLine>) -> (r: bool)
    ensures
        r == lone_addition((cell_view(*old_cell), cell_view(*new_cell))),
{
    match (old_cell, new_cell) {
        (None, Some(line)) => line.line_type == DiffLineType::Addition,
        _ => false,
    }
}

impl SideBySideDiff {
    /// The two columns have the same length.
    pub open spec fn well_formed(&self) -> bool {
        self.old_lines@.len() == self.new_lines@.len()
    }

    /// The rows of the layout.
    pub open spec fn rows(&self) -> Seq<(Option<DiffLineView>, Option<DiffLineView>)> {
        zip_rows(self.old_lines@, self.new_lines@)
    }

    /// Lays a parsed diff out in two columns and compacts it. The columns of
    /// the result always have the same length.
    pub fn from_unified(diff_lines: &Vec<DiffLine>) -> (r: Self)
        ensures
            r.well_formed(),
            r.old_lines@.len() == r.new_lines@.len(),
            r.rows() == projected(line_views(diff_lines@)),
            r.old_lines@.len() <= diff_lines@.len(),
    {
        let mut old_lines: Vec<Option<DiffLine>> = Vec::new();
        let mut new_lines: Vec<Option<DiffLine>> = Vec::new();
        let ghost views = line_views(diff_lines@);
        let mut i: usize = 0;
        while i < diff_lines.len()
            invariant
                i <= diff_lines.len(),
                views == line_views(diff_lines@),
                old_lines@.len() == i,
                new_lines@.len() == i,
                forall|k: int|
                    0 <= k < i ==> (cell_view(#[trigger] old_lines@[k]), cell_view(new_lines@[k]))
                        == row_of(views[k]),
            decreases diff_lines.len() - i,
        {
            let line = &diff_lines[i];
            match line.line_type {
                DiffLineType::Header | DiffLineType::HunkHeader | DiffLineType::Context => {
                    old_lines.push(Some(line.clone()));
                    new_lines.push(Some(line.clone()));
                },
                DiffLineType::Deletion => {
                    old_lines.push(Some(line.clone()));
                    new_lines.push(None);
                },
                DiffLineType::Addition => {
                    old_lines.push(None);
                    new_lines.push(Some(line.clone()));
                },
            }
            i += 1;
        }
        assert(zip_rows(old_lines@, new_lines@) =~= rows_of(views));
        Self::compact_changes(&mut old_lines, &mut new_lines);
        proof {
            lemma_compact_len(rows_of(views));
        }
        SideBySideDiff { old_lines, new_lines }
    }

    /// Compacts two columns of equal length in place: a lone deletion
    /// directly followed by a lone addition becomes one row.
    pub fn compact_changes(
        old_lines: &mut Vec<Option<DiffLine>>,
        new_lines: &mut Vec<Option<DiffLine>>,
    )
        requires
            old(old_lines)@.len() == old(new_lines)@.len(),
        ensures
            final(old_lines)@.len() == final(new_lines)@.len(),
            zip_rows(final(old_lines)@, final(new_lines)@) == compact(
                zip_rows(old(old_lines)@, old(new_lines)@),
            ),
    {
        let ghost rows = zip_rows(old_lines@, new_lines@);
        let mut out_old: Vec<Option<DiffLine>> = Vec::new();
        let mut out_new: Vec<Option<DiffLine>> = Vec::new();
        let n = old_lines.len();
        let mut i: usize = 0;
        proof {
            assert(rows.skip(0) == rows);
            assert(zip_rows(out_old@, out_new@) + compact(rows) == compact(rows));
        }
        while i < n
            invariant
                i <= n,
                n == old_lines@.len(),
                n == new_lines@.len(),
                rows == zip_rows(old_lines@, new_lines@),
                out_old@.len() == out_new@.len(),
                compact(rows) == zip_rows(out_old@, out_new@) + compact(rows.skip(i as int)),
            decreases n - i,
        {
            let ghost rest = rows.skip(i as int);
            let ghost before = zip_rows(out_old@, out_new@);
            assert(rest[0] == rows[i as int]);
            if i + 1 < n && is_lone_deletion(&old_lines[i], &new_lines[i]) && is_lone_addition(
                &old_lines[i + 1],
                &new_lines[i + 1],
            ) {
                assert(rest[1] == rows[i + 1]);
                out_old.push(copy_cell(&old_lines[i]));
                out_new.push(copy_cell(&new_lines[i + 1]));
                proof {
                    assert(rest.skip(2) == rows.skip(i + 2));
                    assert(zip_rows(out_old@, out_new@) =~= before + seq![(rest[0].0, rest[1].1)]);
                    assert(before + (seq![(rest[0].0, rest[1].1)] + compact(rest.skip(2))) =~= (
                    before + seq![(rest[0].0, rest[1].1)]) + compact(rest.skip(2)));
                }
                i += 2;
            } else {
                proof {
                    if i + 1 < n {
                        assert(rest[1] == rows[i + 1]);
                    }
                }
                out_old.push(copy_cell(&old_lines[i]));
                out_new.push(copy_cell(&new_lines[i]));
                proof {
                    assert(rest.skip(1) == rows.skip(i + 1));
                    assert(zip_rows(out_old@, out_new@) =~= before + seq![rest[0]]);
                    assert(before + (seq![rest[0]] + compact(rest.skip(1))) =~= (before
                        + seq![rest[0]]) + compact(rest.skip(1)));
                }
                i += 1;
            }
        }
        proof {
            assert(rows.skip(n as int).len() == 0);
            assert(zip_rows(out_old@, out_new@) + Seq::empty() == zip_rows(out_old@, out_new@));
        }
        *old_lines = out_old;
        *new_lines = out_new;
    }
}

} // verus!
