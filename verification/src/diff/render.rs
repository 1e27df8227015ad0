//! A diff line as the spans that are drawn for it: line numbers, marker and
//! code, with the matches of a search marked.

use crate::app::search::{match_views, DiffSearchState, SearchMatchView};
use crate::diff::highlight::{
    apply_search_highlighting_to_code_content, highlighted_spans, span_views, Color, Style,
    StyledSpan, StyledSpanView,
};
use crate::diff::{DiffLine, DiffLineType, DiffLineView};
use crate::text::{chars_of, decimal, decimal_text, substring};
use vstd::prelude::*;

verus! {

/// The style that sets nothing.
pub open spec fn plain() -> Style {
    Style { fg: None, bg: None, bold: false, italic: false, underlined: false }
}

/// The style that sets the colour of the text.
pub open spec fn colored(color: Color) -> Style {
    Style { fg: Some(color), bg: None, bold: false, italic: false, underlined: false }
}

/// The style that sets the colour of the text and makes it bold.
pub open spec fn bold(color: Color) -> Style {
    Style { fg: Some(color), bg: None, bold: true, italic: false, underlined: false }
}

/// The background of the cursor line.
pub open spec fn cursor_background() -> Color {
    Color::Rgb(60, 80, 120)
}

/// `s` with spaces before it to make it `width` characters long; `s` itself
/// if it is that long already.
pub open spec fn right_aligned(s: Seq<char>, width: nat) -> Seq<char> {
    if s.len() >= width {
        s
    } else {
        Seq::new((width - s.len()) as nat, |i: int| ' ') + s
    }
}

/// A line number in a column of four characters; four spaces for none.
pub open spec fn number_column(number: Option<usize>) -> Seq<char> {
    match number {
        Some(n) => right_aligned(decimal_text(n as nat), 4),
        None => Seq::new(4, |i: int| ' '),
    }
}

/// The code of a raw diff line: the line without its marker.
pub open spec fn code_of(content: Seq<char>) -> Seq<char> {
    if content.len() > 1 {
        content.skip(1)
    } else {
        Seq::empty()
    }
}

/// The background of the code of a line in the unified view.
pub open spec fn background_of(kind: DiffLineType) -> Option<Color> {
    match kind {
        DiffLineType::Addition => Some(Color::Rgb(180, 235, 180)),
        DiffLineType::Deletion => Some(Color::Rgb(235, 180, 180)),
        _ => None,
    }
}

/// The marker of a line in the unified view, with its colour.
pub open spec fn marker_of(kind: DiffLineType) -> (Seq<char>, Color) {
    match kind {
        DiffLineType::Addition => (seq!['+'], Color::Green),
        DiffLineType::Deletion => (seq!['-'], Color::Red),
        _ => (seq![' '], Color::Gray),
    }
}

/// The colour of code that is not syntax-highlighted, in the unified view.
pub open spec fn code_color(kind: DiffLineType) -> Color {
    match kind {
        DiffLineType::Addition => Color::Green,
        DiffLineType::Deletion => Color::Red,
        DiffLineType::Context => Color::Gray,
        _ => Color::White,
    }
}

/// Whether a line shows as a change on one side of the side-by-side view:
/// an addition on the new side, a deletion on the old side.
pub open spec fn changes_side(kind: DiffLineType, is_old_file: bool) -> bool {
    (kind == DiffLineType::Addition && !is_old_file) || (kind == DiffLineType::Deletion
        && is_old_file)
}

/// Whether a line has no place on one side of the side-by-side view: an
/// addition on the old side, a deletion on the new side.
pub open spec fn absent_on_side(kind: DiffLineType, is_old_file: bool) -> bool {
    (kind == DiffLineType::Addition && is_old_file) || (kind == DiffLineType::Deletion
        && !is_old_file)
}

/// The spans with the given background, if one is given.
pub open spec fn with_background(spans: Seq<StyledSpanView>, background: Option<Color>) -> Seq<
    StyledSpanView,
> {
    match background {
        Some(color) => Seq::new(
            spans.len(),
            |i: int|
                StyledSpanView {
                    content: spans[i].content,
                    style: Style { bg: Some(color), ..spans[i].style },
                },
        ),
        None => spans,
    }
}

/// The spans of the code of a line: the syntax-highlighted spans, if there
/// are any, else the code in one colour; in both cases on the given
/// background.
pub open spec fn code_spans(
    content: Seq<char>,
    highlighted: Option<Seq<StyledSpanView>>,
    color: Color,
    background: Option<Color>,
) -> Seq<StyledSpanView> {
    match highlighted {
        Some(spans) => with_background(spans, background),
        None => seq![
            StyledSpanView {
                content: code_of(content),
                style: Style { bg: background, ..colored(color) },
            },
        ],
    }
}

/// The matches of a search and its current match, if a search is going on.
pub open spec fn search_view(search_state: Option<&DiffSearchState>) -> Option<
    (Seq<SearchMatchView>, Option<SearchMatchView>),
> {
    match search_state {
        Some(state) => Some((match_views(state.results@), state.current_match())),
        None => None,
    }
}

/// The spans with the matches of a search marked, if a search is going on.
pub open spec fn with_matches(
    spans: Seq<StyledSpanView>,
    search: Option<(Seq<SearchMatchView>, Option<SearchMatchView>)>,
    line_index: usize,
    kind: DiffLineType,
) -> Seq<StyledSpanView> {
    match search {
        Some((matches, current)) => highlighted_spans(
            spans,
            spans.len() as int,
            matches,
            current,
            line_index,
            kind,
        ),
        None => spans,
    }
}

/// A line of the unified view. A header is nine spaces and the line in
/// bold blue, a hunk header nine spaces and the line in cyan. Any other
/// line is the old and the new line number, the marker, and the code,
/// with the matches of a search marked in the code.
pub open spec fn unified_line(
    line: DiffLineView,
    line_index: usize,
    highlighted: Option<Seq<StyledSpanView>>,
    search: Option<(Seq<SearchMatchView>, Option<SearchMatchView>)>,
) -> Seq<StyledSpanView> {
    let indent = StyledSpanView { content: Seq::new(9, |i: int| ' '), style: plain() };
    match line.line_type {
        DiffLineType::Header => seq![
            indent,
            StyledSpanView { content: line.content, style: bold(Color::Blue) },
        ],
        DiffLineType::HunkHeader => seq![
            indent,
            StyledSpanView { content: line.content, style: colored(Color::Cyan) },
        ],
        kind => with_matches(
            seq![
                StyledSpanView {
                    content: number_column(line.old_line_num) + seq!['│'] + number_column(
                        line.new_line_num,
                    ) + seq![' '],
                    style: colored(Color::DarkGray),
                },
                StyledSpanView { content: marker_of(kind).0, style: bold(marker_of(kind).1) },
            ] + code_spans(line.content, highlighted, code_color(kind), background_of(kind)),
            search,
            line_index,
            kind,
        ),
    }
}

/// A line on one side of the side-by-side view. A header is the line in
/// bold blue, a hunk header the line in cyan. A line that has no place on
/// this side is one space. Any other line is the line number of this
/// side, the marker, and the code, with the matches of a search marked in
/// the code; only a change of this side has a marker other than a space,
/// a colour of its own and a background.
pub open spec fn side_line(
    line: DiffLineView,
    is_old_file: bool,
    line_index: usize,
    highlighted: Option<Seq<StyledSpanView>>,
    search: Option<(Seq<SearchMatchView>, Option<SearchMatchView>)>,
) -> Seq<StyledSpanView> {
    let kind = line.line_type;
    let number = if is_old_file {
        line.old_line_num
    } else {
        line.new_line_num
    };
    let changed = changes_side(kind, is_old_file);
    let marker = if changed {
        marker_of(kind)
    } else {
        (seq![' '], Color::Gray)
    };
    let color = if changed || kind == DiffLineType::Context {
        code_color(kind)
    } else {
        Color::White
    };
    let background = if changed {
        background_of(kind)
    } else {
        None
    };
    if kind == DiffLineType::Header {
        seq![StyledSpanView { content: line.content, style: bold(Color::Blue) }]
    } else if kind == DiffLineType::HunkHeader {
        seq![StyledSpanView { content: line.content, style: colored(Color::Cyan) }]
    } else if absent_on_side(kind, is_old_file) {
        seq![StyledSpanView { content: seq![' '], style: colored(Color::DarkGray) }]
    } else {
        with_matches(
            seq![
                StyledSpanView {
                    content: number_column(number) + seq![' '],
                    style: colored(Color::DarkGray),
                },
                StyledSpanView { content: marker.0, style: bold(marker.1) },
            ] + code_spans(line.content, highlighted, color, background),
            search,
            line_index,
            kind,
        )
    }
}

/// The spans of the cursor line: the same spans on the background of the
/// cursor.
pub open spec fn cursor_line(spans: Seq<StyledSpanView>) -> Seq<StyledSpanView> {
    with_background(spans, Some(cursor_background()))
}

/// A string of `count` spaces.
fn spaces(count: usize) -> (s: String)
    ensures
        s@ == Seq::new(count as nat, |i: int| ' '),
{
    let mut s = String::new();
    let mut i: usize = 0;
    while i < count
        invariant
            i <= count,
            s@ == Seq::new(i as nat, |k: int| ' '),
        decreases count - i,
    {
        s.push(' ');
        assert(s@ =~= Seq::new((i + 1) as nat, |k: int| ' '));
        i += 1;
    }
    s
}

/// A one-character string.
fn one_char(c: char) -> (s: String)
    ensures
        s@ == seq![c],
{
    let mut s = String::new();
    s.push(c);
    assert(s@ =~= seq![c]);
    s
}

/// A line number in a column of four characters.
fn format_number(number: Option<usize>) -> (s: String)
    ensures
        s@ == number_column(number),
{
    match number {
        Some(n) => {
            let digits = decimal(n as u64);
            let length = digits.as_str().unicode_len();
            if length >= 4 {
                digits
            } else {
                let mut s = spaces(4 - length);
                s.append(digits.as_str());
                s
            }
        },
        None => spaces(4),
    }
}

/// The code of a raw diff line: the line without its marker.
pub fn code_content(content: &str) -> (code: String)
    ensures
        code@ == code_of(content@),
{
    let chars = chars_of(content);
    if chars.len() > 1 {
        let code = substring(&chars, 1, chars.len());
        assert(code@ =~= content@.skip(1));
        code
    } else {
        String::new()
    }
}

/// The spans with the given background, if one is given.
pub fn set_background(spans: Vec<StyledSpan>, background: Option<Color>) -> (result: Vec<StyledSpan>)
    ensures
        span_views(result@) == with_background(span_views(spans@), background),
{
    match background {
        Some(color) => {
            let mut result: Vec<StyledSpan> = Vec::new();
            let mut i: usize = 0;
            while i < spans.len()
                invariant
                    i <= spans@.len(),
                    result@.len() == i,
                    forall|k: int|
                        0 <= k < i ==> (#[trigger] result@[k])@ == (StyledSpanView {
                            content: spans@[k].content@,
                            style: Style { bg: Some(color), ..spans@[k].style },
                        }),
                decreases spans.len() - i,
            {
                let style = Style {
                    fg: spans[i].style.fg,
                    bg: Some(color),
                    bold: spans[i].style.bold,
                    italic: spans[i].style.italic,
                    underlined: spans[i].style.underlined,
                };
                result.push(StyledSpan { content: spans[i].content.clone(), style });
                i += 1;
            }
            assert(span_views(result@) =~= with_background(span_views(spans@), background));
            result
        },
        None => spans,
    }
}

/// The spans of the cursor line.
pub fn apply_cursor_highlight(line: Vec<StyledSpan>) -> (result: Vec<StyledSpan>)
    ensures
        span_views(result@) == cursor_line(span_views(line@)),
{
    set_background(line, Some(Color::Rgb(60, 80, 120)))
}

/// The views of optional highlighted spans.
pub open spec fn highlighted_view(highlighted: Option<Vec<StyledSpan>>) -> Option<
    Seq<StyledSpanView>,
> {
    match highlighted {
        Some(spans) => Some(span_views(spans@)),
        None => None,
    }
}

/// Puts a line together from its gutter, its marker and its code, and
/// marks the matches of a search.
fn assemble(
    gutter: String,
    marker: char,
    marker_color: Color,
    line: &DiffLine,
    highlighted: Option<Vec<StyledSpan>>,
    color: Color,
    background: Option<Color>,
    line_index: usize,
    search_state: Option<&DiffSearchState>,
) -> (result: Vec<StyledSpan>)
    ensures
        span_views(result@) == with_matches(
            seq![
                StyledSpanView { content: gutter@, style: colored(Color::DarkGray) },
                StyledSpanView { content: seq![marker], style: bold(marker_color) },
            ] + code_spans(line.content@, highlighted_view(highlighted), color, background),
            search_view(search_state),
            line_index,
            line.line_type,
        ),
{
    let ghost gutter_view = gutter@;
    let mut spans: Vec<StyledSpan> = Vec::new();
    spans.push(
        StyledSpan {
            content: gutter,
            style: Style {
                fg: Some(Color::DarkGray),
                bg: None,
                bold: false,
                italic: false,
                underlined: false,
            },
        },
    );
    spans.push(
        StyledSpan {
            content: one_char(marker),
            style: Style {
                fg: Some(marker_color),
                bg: None,
                bold: true,
                italic: false,
                underlined: false,
            },
        },
    );
    let ghost head = span_views(spans@);
    let ghost code = code_spans(line.content@, highlighted_view(highlighted), color, background);
    assert(head =~= seq![
        StyledSpanView { content: gutter_view, style: colored(Color::DarkGray) },
        StyledSpanView { content: seq![marker], style: bold(marker_color) },
    ]);
    match highlighted {
        Some(code_spans) => {
            let mut colored_spans = set_background(code_spans, background);
            let ghost added = span_views(colored_spans@);
            spans.append(&mut colored_spans);
            assert(span_views(spans@) =~= head + added);
        },
        None => {
            spans.push(
                StyledSpan {
                    content: code_content(line.content.as_str()),
                    style: Style {
                        fg: Some(color),
                        bg: background,
                        bold: false,
                        italic: false,
                        underlined: false,
                    },
                },
            );
            assert(span_views(spans@) =~= head + code);
        },
    }
    match search_state {
        Some(state) => apply_search_highlighting_to_code_content(spans, line_index, state, line),
        None => spans,
    }
}

/// Renders a line of the unified view. `highlighted` holds the code of the
/// line as syntax-highlighted spans, if there are any.
pub fn style_diff_line(
    line: &DiffLine,
    line_index: usize,
    highlighted: Option<Vec<StyledSpan>>,
    search_state: Option<&DiffSearchState>,
) -> (result: Vec<StyledSpan>)
    ensures
        span_views(result@) == unified_line(
            line@,
            line_index,
            highlighted_view(highlighted),
            search_view(search_state),
        ),
{
    match line.line_type {
        DiffLineType::Header => {
            let mut spans: Vec<StyledSpan> = Vec::new();
            spans.push(
                StyledSpan {
                    content: spaces(9),
                    style: Style {
                        fg: None,
                        bg: None,
                        bold: false,
                        italic: false,
                        underlined: false,
                    },
                },
            );
            spans.push(
                StyledSpan {
                    content: line.content.clone(),
                    style: Style {
                        fg: Some(Color::Blue),
                        bg: None,
                        bold: true,
                        italic: false,
                        underlined: false,
                    },
                },
            );
            assert(span_views(spans@) =~= unified_line(
                line@,
                line_index,
                highlighted_view(highlighted),
                search_view(search_state),
            ));
            spans
        },
        DiffLineType::HunkHeader => {
            let mut spans: Vec<StyledSpan> = Vec::new();
            spans.push(
                StyledSpan {
                    content: spaces(9),
                    style: Style {
                        fg: None,
                        bg: None,
                        bold: false,
                        italic: false,
                        underlined: false,
                    },
                },
            );
            spans.push(
                StyledSpan {
                    content: line.content.clone(),
                    style: Style {
                        fg: Some(Color::Cyan),
                        bg: None,
                        bold: false,
                        italic: false,
                        underlined: false,
                    },
                },
            );
            assert(span_views(spans@) =~= unified_line(
                line@,
                line_index,
                highlighted_view(highlighted),
                search_view(search_state),
            ));
            spans
        },
        kind => {
            let mut gutter = format_number(line.old_line_num);
            gutter.push('│');
            gutter.append(format_number(line.new_line_num).as_str());
            gutter.push(' ');
            assert(gutter@ =~= number_column(line.old_line_num) + seq!['│'] + number_column(
                line.new_line_num,
            ) + seq![' ']);
            let (marker, marker_color, background) = match kind {
                DiffLineType::Addition => ('+', Color::Green, Some(Color::Rgb(180, 235, 180))),
                DiffLineType::Deletion => ('-', Color::Red, Some(Color::Rgb(235, 180, 180))),
                _ => (' ', Color::Gray, None),
            };
            let color = match kind {
                DiffLineType::Addition => Color::Green,
                DiffLineType::Deletion => Color::Red,
                DiffLineType::Context => Color::Gray,
                _ => Color::White,
            };
            assemble(
                gutter,
                marker,
                marker_color,
                line,
                highlighted,
                color,
                background,
                line_index,
                search_state,
            )
        },
    }
}

/// Renders a line on one side of the side-by-side view. `highlighted`
/// holds the code of the line as syntax-highlighted spans, if there are
/// any.
pub fn style_side_by_side_line(
    line: &DiffLine,
    is_old_file: bool,
    highlighted: Option<Vec<StyledSpan>>,
    line_index: usize,
    search_state: Option<&DiffSearchState>,
) -> (result: Vec<StyledSpan>)
    ensures
        span_views(result@) == side_line(
            line@,
            is_old_file,
            line_index,
            highlighted_view(highlighted),
            search_view(search_state),
        ),
{
    let kind = line.line_type;
    let ghost expected = side_line(
        line@,
        is_old_file,
        line_index,
        highlighted_view(highlighted),
        search_view(search_state),
    );
    if kind == DiffLineType::Header {
        let mut spans: Vec<StyledSpan> = Vec::new();
        spans.push(
            StyledSpan {
                content: line.content.clone(),
                style: Style {
                    fg: Some(Color::Blue),
                    bg: None,
                    bold: true,
                    italic: false,
                    underlined: false,
                },
            },
        );
        assert(span_views(spans@) =~= expected);
        return spans;
    }
    if kind == DiffLineType::HunkHeader {
        let mut spans: Vec<StyledSpan> = Vec::new();
        spans.push(
            StyledSpan {
                content: line.content.clone(),
                style: Style {
                    fg: Some(Color::Cyan),
                    bg: None,
                    bold: false,
                    italic: false,
                    underlined: false,
                },
            },
        );
        assert(span_views(spans@) =~= expected);
        return spans;
    }
    if (kind == DiffLineType::Addition && is_old_file) || (kind == DiffLineType::Deletion
        && !is_old_file) {
        let mut spans: Vec<StyledSpan> = Vec::new();
        spans.push(
            StyledSpan {
                content: one_char(' '),
                style: Style {
                    fg: Some(Color::DarkGray),
                    bg: None,
                    bold: false,
                    italic: false,
                    underlined: false,
                },
            },
        );
        assert(span_views(spans@) =~= expected);
        return spans;
    }
    let number = if is_old_file {
        line.old_line_num
    } else {
        line.new_line_num
    };
    let mut gutter = format_number(number);
    gutter.push(' ');
    assert(gutter@ =~= number_column(number) + seq![' ']);
    let changed = (kind == DiffLineType::Addition && !is_old_file) || (kind
        == DiffLineType::Deletion && is_old_file);
    let (marker, marker_color, background) = if changed {
        match kind {
            DiffLineType::Addition => ('+', Color::Green, Some(Color::Rgb(180, 235, 180))),
            _ => ('-', Color::Red, Some(Color::Rgb(235, 180, 180))),
        }
    } else {
        (' ', Color::Gray, None)
    };
    let color = if changed {
        match kind {
            DiffLineType::Addition => Color::Green,
            _ => Color::Red,
        }
    } else if kind == DiffLineType::Context {
        Color::Gray
    } else {
        Color::White
    };
    assemble(
        gutter,
        marker,
        marker_color,
        line,
        highlighted,
        color,
        background,
        line_index,
        search_state,
    )
}

} // verus!
