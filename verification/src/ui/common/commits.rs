//! The commit list: how it is laid out and what a line of it shows.

use crate::commit::Commit;
use crate::diff::highlight::{span_views, Color, Style, StyledSpan, StyledSpanView};
use crate::diff::render::{bold, colored, plain};
use crate::text::{chars_of, substring};
use vstd::prelude::*;

verus! {

/// How the commit list is laid out.
#[derive(Debug, Clone, Copy, PartialEq, Eq, Structural)]
pub enum CommitsPanelLayout {
    /// One commit per line, in the panel beside the diff.
    Vertical,
    /// The commits in a panel below the diff.
    Horizontal,
}

/// The mark of a commit that is one end of a range.
pub open spec fn range_marker(marked: bool) -> Seq<char> {
    if marked {
        "► "@
    } else {
        Seq::empty()
    }
}

/// The first ten characters of `date`, which are its day.
pub open spec fn day_of(date: Seq<char>) -> Seq<char> {
    if date.len() > 10 {
        date.take(10)
    } else {
        date
    }
}

/// A commit in the list beside the diff: the mark, date, short hash and
/// subject, each in its colour; for the working directory the mark, the
/// words `Working Dir` and the subject.
pub open spec fn vertical_line(commit: &Commit, marked: bool) -> Seq<StyledSpanView> {
    let marker = StyledSpanView { content: range_marker(marked), style: bold(Color::Green) };
    let space = StyledSpanView { content: " "@, style: plain() };
    if commit.is_working_directory {
        seq![
            marker,
            StyledSpanView { content: "Working"@, style: colored(Color::Magenta) },
            space,
            StyledSpanView { content: "Dir"@, style: colored(Color::Magenta) },
            space,
            StyledSpanView { content: commit.subject@, style: bold(Color::Green) },
        ]
    } else {
        seq![
            marker,
            StyledSpanView { content: commit.date@, style: colored(Color::Yellow) },
            space,
            StyledSpanView { content: commit.short_hash@, style: colored(Color::Cyan) },
            space,
            StyledSpanView { content: commit.subject@, style: plain() },
        ]
    }
}

/// A commit in the list below the diff: the mark, short hash, day and
/// subject; for the working directory the mark, `[Working Directory]` and
/// the subject.
pub open spec fn horizontal_text(commit: &Commit, marked: bool) -> Seq<char> {
    if commit.is_working_directory {
        range_marker(marked) + "[Working Directory] "@ + commit.subject@
    } else {
        range_marker(marked) + commit.short_hash@ + " "@ + day_of(commit.date@) + " "@
            + commit.subject@
    }
}

/// The style of a commit in the list below the diff: white on blue if it
/// is selected, else yellow if it is marked, else plain.
pub open spec fn horizontal_style(marked: bool, selected: bool) -> Style {
    if selected {
        Style { bg: Some(Color::Blue), ..colored(Color::White) }
    } else if marked {
        colored(Color::Yellow)
    } else {
        plain()
    }
}

fn span(content: String, fg: Option<Color>, is_bold: bool) -> (r: StyledSpan)
    ensures
        r@ == (StyledSpanView {
            content: content@,
            style: Style { fg, bg: None, bold: is_bold, italic: false, underlined: false },
        }),
{
    StyledSpan {
        content,
        style: Style { fg, bg: None, bold: is_bold, italic: false, underlined: false },
    }
}

fn marker_text(marked: bool) -> (r: String)
    ensures
        r@ == range_marker(marked),
{
    if marked {
        "► ".to_owned()
    } else {
        String::new()
    }
}

/// The spans of a commit in the list beside the diff.
pub fn vertical_commit_line(commit: &Commit, marked: bool) -> (line: Vec<StyledSpan>)
    ensures
        span_views(line@) == vertical_line(commit, marked),
{
    let mut line: Vec<StyledSpan> = Vec::new();
    line.push(span(marker_text(marked), Some(Color::Green), true));
    if commit.is_working_directory {
        line.push(span("Working".to_owned(), Some(Color::Magenta), false));
        line.push(span(" ".to_owned(), None, false));
        line.push(span("Dir".to_owned(), Some(Color::Magenta), false));
        line.push(span(" ".to_owned(), None, false));
        line.push(span(commit.subject.clone(), Some(Color::Green), true));
    } else {
        line.push(span(commit.date.clone(), Some(Color::Yellow), false));
        line.push(span(" ".to_owned(), None, false));
        line.push(span(commit.short_hash.clone(), Some(Color::Cyan), false));
        line.push(span(" ".to_owned(), None, false));
        line.push(span(commit.subject.clone(), None, false));
    }
    assert(span_views(line@) =~= vertical_line(commit, marked));
    line
}

/// Text and style of a commit in the list below the diff.
pub fn horizontal_commit_line(commit: &Commit, marked: bool, selected: bool) -> (line: (
    String,
    Style,
))
    ensures
        line.0@ == horizontal_text(commit, marked),
        line.1 == horizontal_style(marked, selected),
{
    let mut text = marker_text(marked);
    if commit.is_working_directory {
        text.append("[Working Directory] ");
        text.append(commit.subject.as_str());
    } else {
        text.append(commit.short_hash.as_str());
        text.append(" ");
        let date = chars_of(commit.date.as_str());
        let day = substring(&date, 0, 10);
        assert(day@ =~= day_of(commit.date@));
        text.append(day.as_str());
        text.append(" ");
        text.append(commit.subject.as_str());
    }
    let style = if selected {
        Style {
            fg: Some(Color::White),
            bg: Some(Color::Blue),
            bold: false,
            italic: false,
            underlined: false,
        }
    } else if marked {
        Style { fg: Some(Color::Yellow), bg: None, bold: false, italic: false, underlined: false }
    } else {
        Style { fg: None, bg: None, bold: false, italic: false, underlined: false }
    };
    (text, style)
}

} // verus!
