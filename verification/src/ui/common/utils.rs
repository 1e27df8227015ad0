//! Titles of the panels, and the style of their borders.

use crate::commit::Commit;
use crate::diff::highlight::{piece, span_views, Color, Style, StyledSpan, StyledSpanView};
use crate::text::{chars_of, decimal, decimal_text};
use vstd::prelude::*;

verus! {

/// How a title ends: with the mark of horizontal scrolling if the panel is
/// scrolled sideways, else with a space.
pub open spec fn title_end(horizontal_scroll: usize) -> Seq<char> {
    if horizontal_scroll > 0 {
        " ←→"@
    } else {
        " "@
    }
}

/// The title of the commit list: the number of commits, or a note that
/// they are being loaded.
pub open spec fn commits_title(commits_count: usize, loading: bool, horizontal_scroll: usize) -> Seq<
    char,
> {
    if loading {
        " Commits (Loading...)"@ + title_end(horizontal_scroll)
    } else {
        " Commits ("@ + decimal_text(commits_count as nat) + ")"@ + title_end(horizontal_scroll)
    }
}

/// Both ends of a range of commits are commits of the list.
pub open spec fn range_in_list(commits: Seq<Commit>, range: Option<(usize, usize)>) -> bool {
    range is Some && range->Some_0.0 < commits.len() && range->Some_0.1 < commits.len()
}

/// The title of the diff, before its end: the short hashes of a range if
/// one is shown, else the short hash of the selected commit, with a note
/// while the second end of a range is being selected.
pub open spec fn diff_title_start(
    commits: Seq<Commit>,
    selected_index: usize,
    current_diff_range: Option<(usize, usize)>,
    diff_range_start: Option<usize>,
) -> Seq<char> {
    if commits.len() == 0 || selected_index >= commits.len() {
        " Diff"@
    } else if range_in_list(commits, current_diff_range) {
        " Diff ("@ + commits[current_diff_range->Some_0.0 as int].short_hash@ + ".."@
            + commits[current_diff_range->Some_0.1 as int].short_hash@ + ")"@
    } else if current_diff_range is None && diff_range_start is Some {
        " Diff ("@ + commits[selected_index as int].short_hash@ + ") [Selecting...]"@
    } else {
        " Diff ("@ + commits[selected_index as int].short_hash@ + ")"@
    }
}

/// The title of one side of the side-by-side diff: the short hash of the
/// older end of a range on the old side and of the newer end on the new
/// side, or that of the selected commit on both sides; no hash if there are
/// no commits or the range is not of the list.
pub open spec fn side_title(
    commits: Seq<Commit>,
    selected_index: usize,
    current_diff_range: Option<(usize, usize)>,
    is_old_file: bool,
) -> Seq<char> {
    let side = if is_old_file {
        " Old"@
    } else {
        " New"@
    };
    if commits.len() == 0 || (current_diff_range is Some && !range_in_list(
        commits,
        current_diff_range,
    )) {
        side + " File "@
    } else if current_diff_range is Some {
        let index = if is_old_file {
            current_diff_range->Some_0.0
        } else {
            current_diff_range->Some_0.1
        };
        side + " ("@ + commits[index as int].short_hash@ + ") "@
    } else {
        side + " ("@ + commits[selected_index as int].short_hash@ + ") "@
    }
}

/// The style of the border of a panel: cyan if the panel has the focus,
/// gray if not.
pub fn create_border_style(focused: bool) -> (style: Style)
    ensures
        style == (Style {
            fg: Some(if focused {
                Color::Cyan
            } else {
                Color::Gray
            }),
            bg: None,
            bold: false, italic: false, underlined: false }),
{
    if focused {
        Style { fg: Some(Color::Cyan), bg: None, bold: false, italic: false, underlined: false }
    } else {
        Style { fg: Some(Color::Gray), bg: None, bold: false, italic: false, underlined: false }
    }
}

/// Ends a title.
fn end_title(title: &mut String, horizontal_scroll: usize)
    ensures
        final(title)@ == old(title)@ + title_end(horizontal_scroll),
{
    if horizontal_scroll > 0 {
        title.append(" ←→");
    } else {
        title.append(" ");
    }
}

/// The title of the commit list.
pub fn create_commits_title(commits_count: usize, loading: bool, horizontal_scroll: usize) -> (title:
    String)
    ensures
        title@ == commits_title(commits_count, loading, horizontal_scroll),
{
    let mut title = if loading {
        " Commits (Loading...)".to_owned()
    } else {
        let mut t = " Commits (".to_owned();
        t.append(decimal(commits_count as u64).as_str());
        t.append(")");
        t
    };
    end_title(&mut title, horizontal_scroll);
    title
}

/// The title of the diff.
pub fn create_diff_title(
    commits: &[Commit],
    selected_index: usize,
    current_diff_range: Option<(usize, usize)>,
    diff_range_start: Option<usize>,
    horizontal_scroll: usize,
) -> (title: String)
    ensures
        title@ == diff_title_start(commits@, selected_index, current_diff_range, diff_range_start)
            + title_end(horizontal_scroll),
{
    let mut title = " Diff".to_owned();
    let ghost start = diff_title_start(
        commits@,
        selected_index,
        current_diff_range,
        diff_range_start,
    );
    if commits.len() > 0 && selected_index < commits.len() {
        let range: Option<(usize, usize)> = match current_diff_range {
            Some((older_idx, newer_idx)) => if older_idx < commits.len() && newer_idx
                < commits.len() {
                Some((older_idx, newer_idx))
            } else {
                None
            },
            None => None,
        };
        assert(range is Some <==> range_in_list(commits@, current_diff_range));
        title.append(" (");
        proof {
            reveal_strlit(" Diff");
            reveal_strlit(" (");
            reveal_strlit(" Diff (");
            assert(title@ =~= " Diff ("@);
        }
        match range {
            Some((older_idx, newer_idx)) => {
                title.append(commits[older_idx].short_hash.as_str());
                title.append("..");
                title.append(commits[newer_idx].short_hash.as_str());
                title.append(")");
                assert(title@ =~= start);
            },
            None => {
                title.append(commits[selected_index].short_hash.as_str());
                if current_diff_range.is_none() && diff_range_start.is_some() {
                    title.append(") [Selecting...]");
                    assert(title@ =~= start);
                } else {
                    title.append(")");
                    assert(title@ =~= start);
                }
            },
        }
    } else {
        assert(title@ =~= start);
    }
    end_title(&mut title, horizontal_scroll);
    title
}

/// The title of one side of the side-by-side diff. With commits and no
/// range, `selected_index` must be the index of a commit.
pub fn create_side_by_side_title(
    commits: &[Commit],
    selected_index: usize,
    current_diff_range: Option<(usize, usize)>,
    is_old_file: bool,
) -> (title: String)
    requires
        commits@.len() > 0 && current_diff_range is None ==> selected_index < commits@.len(),
    ensures
        title@ == side_title(commits@, selected_index, current_diff_range, is_old_file),
{
    let mut title = if is_old_file {
        " Old".to_owned()
    } else {
        " New".to_owned()
    };
    let ghost side = title@;
    if commits.len() == 0 {
        title.append(" File ");
        return title;
    }
    if let Some((older_idx, newer_idx)) = current_diff_range {
        if older_idx < commits.len() && newer_idx < commits.len() {
            let index = if is_old_file {
                older_idx
            } else {
                newer_idx
            };
            title.append(" (");
            title.append(commits[index].short_hash.as_str());
            title.append(") ");
            assert(title@ =~= side + " ("@ + commits@[index as int].short_hash@ + ") "@);
        } else {
            title.append(" File ");
        }
    } else {
        title.append(" (");
        title.append(commits[selected_index].short_hash.as_str());
        title.append(") ");
        assert(title@ =~= side + " ("@ + commits@[selected_index as int].short_hash@ + ") "@);
    }
    title
}

/// Number of characters in the first `n` spans.
pub open spec fn width_of(spans: Seq<StyledSpanView>, n: int) -> int
    decreases n,
{
    if n <= 0 {
        0
    } else {
        width_of(spans, n - 1) + spans[n - 1].content.len()
    }
}

/// The part of span `i` that lies within the columns from `offset` up to
/// `offset + width`; nothing if no character of the span does.
pub open spec fn visible_part(spans: Seq<StyledSpanView>, i: int, offset: int, width: int) -> Seq<
    StyledSpanView,
> {
    let start = width_of(spans, i);
    let length = spans[i].content.len() as int;
    let from = if offset > start {
        offset - start
    } else {
        0
    };
    let to = if offset + width - start < length {
        offset + width - start
    } else {
        length
    };
    piece(spans[i].content, from, to, spans[i].style)
}

/// The visible parts of the first `n` spans.
pub open spec fn visible_parts(spans: Seq<StyledSpanView>, n: int, offset: int, width: int) -> Seq<
    StyledSpanView,
>
    decreases n,
{
    if n <= 0 {
        Seq::empty()
    } else {
        visible_parts(spans, n - 1, offset, width) + visible_part(spans, n - 1, offset, width)
    }
}

/// A line scrolled `offset` columns to the left and cut to `width`
/// columns. A line that is not scrolled is not cut either; a line that is
/// scrolled out of view is empty.
pub open spec fn scrolled_line(spans: Seq<StyledSpanView>, offset: int, width: int) -> Seq<
    StyledSpanView,
> {
    if offset == 0 {
        spans
    } else if offset >= width_of(spans, spans.len() as int) {
        Seq::empty()
    } else {
        visible_parts(spans, spans.len() as int, offset, width)
    }
}

/// Scrolls a rendered line `horizontal_offset` columns to the left and
/// cuts it to `viewport_width` columns.
pub fn apply_horizontal_scroll(
    line: Vec<StyledSpan>,
    horizontal_offset: usize,
    viewport_width: usize,
) -> (result: Vec<StyledSpan>)
    ensures
        span_views(result@) == scrolled_line(
            span_views(line@),
            horizontal_offset as int,
            viewport_width as int,
        ),
{
    if horizontal_offset == 0 {
        return line;
    }
    let ghost spans = span_views(line@);
    let mut total: u128 = 0;
    let mut i: usize = 0;
    while i < line.len()
        invariant
            i <= line@.len(),
            spans == span_views(line@),
            total == width_of(spans, i as int),
            total <= i * 0xFFFF_FFFF_FFFF_FFFF,
        decreases line.len() - i,
    {
        let length = line[i].content.as_str().unicode_len();
        assert(spans[i as int].content.len() == length);
        assert((i + 1) * 0xFFFF_FFFF_FFFF_FFFF == i * 0xFFFF_FFFF_FFFF_FFFF
            + 0xFFFF_FFFF_FFFF_FFFF) by (nonlinear_arith);
        assert(i * 0xFFFF_FFFF_FFFF_FFFF <= 0xFFFF_FFFF_FFFF_FFFF * 0xFFFF_FFFF_FFFF_FFFF)
            by (nonlinear_arith)
            requires
                i <= 0xFFFF_FFFF_FFFF_FFFF,
        ;
        total = total + length as u128;
        i += 1;
    }
    if horizontal_offset as u128 >= total {
        return Vec::new();
    }
    let mut result: Vec<StyledSpan> = Vec::new();
    let mut position: u128 = 0;
    let mut n: usize = 0;
    let end: u128 = horizontal_offset as u128 + viewport_width as u128;
    while n < line.len()
        invariant
            n <= line@.len(),
            spans == span_views(line@),
            end == horizontal_offset + viewport_width,
            position == width_of(spans, n as int),
            position <= n * 0xFFFF_FFFF_FFFF_FFFF,
            span_views(result@) == visible_parts(
                spans,
                n as int,
                horizontal_offset as int,
                viewport_width as int,
            ),
        decreases line.len() - n,
    {
        let content = chars_of(line[n].content.as_str());
        let length = content.len();
        assert(spans[n as int].content == content@);
        assert((n + 1) * 0xFFFF_FFFF_FFFF_FFFF == n * 0xFFFF_FFFF_FFFF_FFFF
            + 0xFFFF_FFFF_FFFF_FFFF) by (nonlinear_arith);
        assert(n * 0xFFFF_FFFF_FFFF_FFFF <= 0xFFFF_FFFF_FFFF_FFFF * 0xFFFF_FFFF_FFFF_FFFF)
            by (nonlinear_arith)
            requires
                n <= 0xFFFF_FFFF_FFFF_FFFF,
        ;
        let from: usize = if horizontal_offset as u128 > position {
            let skipped = horizontal_offset as u128 - position;
            if skipped < length as u128 {
                skipped as usize
            } else {
                length
            }
        } else {
            0
        };
        let to: usize = if end > position {
            let shown = end - position;
            if shown < length as u128 {
                shown as usize
            } else {
                length
            }
        } else {
            0
        };
        assert(piece(content@, from as int, to as int, line@[n as int].style) == visible_part(
            spans,
            n as int,
            horizontal_offset as int,
            viewport_width as int,
        ));
        crate::diff::highlight::push_piece(&mut result, &content, from, to, line[n].style);
        position = position + length as u128;
        n += 1;
    }
    result
}

} // verus!
