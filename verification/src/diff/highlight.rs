//! Marking search matches in a line that is already cut into styled spans.
//!
//! A rendered line is a sequence of spans. The first two spans hold line
//! numbers and the diff marker; the spans after them hold the code. A match
//! is marked by cutting the code spans it overlaps, and only those, into the
//! text before the match, the match and the text after it. Positions are
//! counted in characters.

use crate::app::search::{in_text_order, match_views, DiffSearchState, SearchMatch, SearchMatchView};
use crate::diff::{DiffLine, DiffLineType};
use crate::text::{chars_of, substring};
use vstd::prelude::*;

verus! {

/// A colour of the terminal.
#[derive(Clone, Copy, Debug, PartialEq, Eq)]
pub enum Color {
    Black,
    Red,
    Green,
    Yellow,
    Blue,
    Magenta,
    Cyan,
    Gray,
    DarkGray,
    White,
    /// Red, green and blue.
    Rgb(u8, u8, u8),
}

/// How a span is drawn.
#[derive(Clone, Copy, Debug, PartialEq, Eq)]
pub struct Style {
    /// Colour of the text, if one is set.
    pub fg: Option<Color>,
    /// Colour behind the text, if one is set.
    pub bg: Option<Color>,
    pub bold: bool,
    pub italic: bool,
    pub underlined: bool,
}

/// A piece of a rendered line with one style.
#[derive(Debug)]
pub struct StyledSpan {
    pub content: String,
    pub style: Style,
}

/// The mathematical value of a `StyledSpan`.
pub struct StyledSpanView {
    pub content: Seq<char>,
    pub style: Style,
}

impl View for StyledSpan {
    type V = StyledSpanView;

    open spec fn view(&self) -> StyledSpanView {
        StyledSpanView { content: self.content@, style: self.style }
    }
}

/// The views of a sequence of spans.
pub open spec fn span_views(spans: Seq<StyledSpan>) -> Seq<StyledSpanView> {
    Seq::new(spans.len(), |i: int| spans[i]@)
}

/// Number of spans at the start of a rendered line that hold no code.
pub const PREFIX_SPANS: usize = 2;

/// The style of a match: the current match stands out more than the others,
/// and the colours are chosen against the background of the line's kind.
pub open spec fn highlight_style(is_current_match: bool, line_type: DiffLineType) -> Style {
    if is_current_match {
        match line_type {
            DiffLineType::Addition => Style {
                fg: Some(Color::Rgb(255, 255, 255)),
                bg: Some(Color::Rgb(75, 0, 130)),
                bold: true, italic: false, underlined: false },
            DiffLineType::Deletion => Style {
                fg: Some(Color::Rgb(255, 255, 255)),
                bg: Some(Color::Rgb(0, 0, 139)),
                bold: true, italic: false, underlined: false },
            _ => Style { fg: Some(Color::Black), bg: Some(Color::Rgb(255, 215, 0)), bold: true, italic: false, underlined: false },
        }
    } else {
        match line_type {
            DiffLineType::Addition => Style {
                fg: Some(Color::Rgb(200, 200, 200)),
                bg: Some(Color::Rgb(25, 25, 112)),
                bold: true, italic: false, underlined: false },
            DiffLineType::Deletion => Style {
                fg: Some(Color::Rgb(200, 200, 200)),
                bg: Some(Color::Rgb(0, 100, 0)),
                bold: true, italic: false, underlined: false },
            _ => Style { fg: Some(Color::White), bg: Some(Color::Rgb(70, 130, 180)), bold: true, italic: false, underlined: false },
        }
    }
}

/// The style of a match.
pub fn get_search_highlight_style(is_current_match: bool, line_type: DiffLineType) -> (style: Style)
    ensures
        style == highlight_style(is_current_match, line_type),
{
    match (is_current_match, line_type) {
        (true, DiffLineType::Addition) => Style {
            fg: Some(Color::Rgb(255, 255, 255)),
            bg: Some(Color::Rgb(75, 0, 130)),
            bold: true, italic: false, underlined: false },
        (true, DiffLineType::Deletion) => Style {
            fg: Some(Color::Rgb(255, 255, 255)),
            bg: Some(Color::Rgb(0, 0, 139)),
            bold: true, italic: false, underlined: false },
        (true, _) => Style { fg: Some(Color::Black), bg: Some(Color::Rgb(255, 215, 0)), bold: true, italic: false, underlined: false },
        (false, DiffLineType::Addition) => Style {
            fg: Some(Color::Rgb(200, 200, 200)),
            bg: Some(Color::Rgb(25, 25, 112)),
            bold: true, italic: false, underlined: false },
        (false, DiffLineType::Deletion) => Style {
            fg: Some(Color::Rgb(200, 200, 200)),
            bg: Some(Color::Rgb(0, 100, 0)),
            bold: true, italic: false, underlined: false },
        (false, _) => Style {
            fg: Some(Color::White),
            bg: Some(Color::Rgb(70, 130, 180)),
            bold: true, italic: false, underlined: false },
    }
}

/// `a - b`, or 0 where that would be negative.
pub open spec fn less(a: int, b: int) -> int {
    if a >= b {
        a - b
    } else {
        0
    }
}

/// `a + b`, or the largest `usize` where the sum would be larger.
pub open spec fn capped_sum(a: int, b: int) -> int {
    if a + b <= usize::MAX {
        a + b
    } else {
        usize::MAX as int
    }
}

/// Number of code characters before span `i`: the characters of the spans
/// from the third up to span `i`, capped at the largest `usize`.
pub open spec fn code_offset(spans: Seq<StyledSpanView>, i: int) -> int
    decreases i,
{
    if i <= PREFIX_SPANS {
        0
    } else {
        capped_sum(code_offset(spans, i - 1), spans[i - 1].content.len() as int)
    }
}

/// Where a match starts in the code: its start in the raw line, less the
/// marker character.
pub open spec fn code_start(m: SearchMatchView) -> int {
    less(m.char_start as int, 1)
}

/// Where a match ends in the code.
pub open spec fn code_end(m: SearchMatchView) -> int {
    less(m.char_end as int, 1)
}

/// A match of line `line_index` that overlaps the code from `span_start`
/// up to `span_end`.
pub open spec fn overlaps(m: SearchMatchView, line_index: usize, span_start: int, span_end: int) -> bool {
    m.line_index == line_index && code_start(m) < span_end && code_end(m) > span_start
}

/// Some match among `matches[from..]` overlaps the span.
pub open spec fn any_overlap(
    matches: Seq<SearchMatchView>,
    from: int,
    line_index: usize,
    span_start: int,
    span_end: int,
) -> bool {
    exists|k: int|
        from <= k < matches.len() && overlaps(#[trigger] matches[k], line_index, span_start, span_end)
}

/// Where the part of a match that lies in a span starts, counted from the
/// start of the span.
pub open spec fn cut_from(m: SearchMatchView, span_start: int) -> int {
    less(code_start(m), span_start)
}

/// Where the part of a match that lies in a span of `length` characters
/// ends, counted from the start of the span.
pub open spec fn cut_to(m: SearchMatchView, span_start: int, length: int) -> int {
    if less(code_end(m), span_start) < length {
        less(code_end(m), span_start)
    } else {
        length
    }
}

/// The piece `content[from..to]` in the given style; nothing if it would be
/// empty.
pub open spec fn piece(content: Seq<char>, from: int, to: int, style: Style) -> Seq<
    StyledSpanView,
> {
    if 0 <= from < to <= content.len() {
        seq![StyledSpanView { content: content.subrange(from, to), style }]
    } else {
        Seq::empty()
    }
}

/// The pieces that a code span is cut into by the matches `matches[k..]`
/// that overlap it, when its first `processed` characters are dealt with.
/// Each overlapping match gives up to two pieces: the text between what
/// was dealt with and the match, in the span's style, and the part of the
/// match inside the span, in the match style. The text left at the end
/// keeps the span's style. No piece is empty.
pub open spec fn span_pieces(
    span: StyledSpanView,
    span_start: int,
    matches: Seq<SearchMatchView>,
    k: int,
    processed: int,
    current: Option<SearchMatchView>,
    line_index: usize,
    line_type: DiffLineType,
) -> Seq<StyledSpanView>
    decreases matches.len() - k,
{
    let length = span.content.len() as int;
    if k < 0 || k >= matches.len() {
        piece(span.content, processed, length, span.style)
    } else if !overlaps(matches[k], line_index, span_start, capped_sum(span_start, length)) {
        span_pieces(span, span_start, matches, k + 1, processed, current, line_index, line_type)
    } else {
        let m = matches[k];
        let from = cut_from(m, span_start);
        let to = cut_to(m, span_start, length);
        piece(span.content, processed, from, span.style) + piece(
            span.content,
            from,
            to,
            highlight_style(current == Some(m), line_type),
        ) + span_pieces(span, span_start, matches, k + 1, to, current, line_index, line_type)
    }
}

/// What becomes of span `i` of a line: a span of the prefix, and a code
/// span that no match overlaps, stay as they are; any other span is cut
/// into pieces.
pub open spec fn highlighted_span(
    spans: Seq<StyledSpanView>,
    i: int,
    matches: Seq<SearchMatchView>,
    current: Option<SearchMatchView>,
    line_index: usize,
    line_type: DiffLineType,
) -> Seq<StyledSpanView> {
    let start = code_offset(spans, i);
    let end = capped_sum(start, spans[i].content.len() as int);
    if i < PREFIX_SPANS || !any_overlap(matches, 0, line_index, start, end) {
        seq![spans[i]]
    } else {
        span_pieces(spans[i], start, matches, 0, 0, current, line_index, line_type)
    }
}

/// What becomes of the first `n` spans of a line.
pub open spec fn highlighted_spans(
    spans: Seq<StyledSpanView>,
    n: int,
    matches: Seq<SearchMatchView>,
    current: Option<SearchMatchView>,
    line_index: usize,
    line_type: DiffLineType,
) -> Seq<StyledSpanView>
    decreases n,
{
    if n <= 0 {
        Seq::empty()
    } else {
        highlighted_spans(spans, n - 1, matches, current, line_index, line_type)
            + highlighted_span(spans, n - 1, matches, current, line_index, line_type)
    }
}

/// The text of a sequence of spans, one after the other.
pub open spec fn joined(spans: Seq<StyledSpanView>) -> Seq<char>
    decreases spans.len(),
{
    if spans.len() == 0 {
        Seq::empty()
    } else {
        joined(spans.drop_last()) + spans.last().content
    }
}

/// No match ends before it starts.
pub open spec fn forward_matches(matches: Seq<SearchMatchView>) -> bool {
    forall|i: int| 0 <= i < matches.len() ==> (#[trigger] matches[i]).char_start <= matches[i].char_end
}

/// The text of two sequences of spans, one after the other.
pub proof fn lemma_joined_concat(a: Seq<StyledSpanView>, b: Seq<StyledSpanView>)
    ensures
        joined(a + b) == joined(a) + joined(b),
    decreases b.len(),
{
    if b.len() == 0 {
        assert(a + b =~= a);
        assert(joined(a) + joined(b) =~= joined(a));
    } else {
        lemma_joined_concat(a, b.drop_last());
        assert((a + b).drop_last() =~= a + b.drop_last());
        assert((a + b).last() == b.last());
        assert(joined(a) + (joined(b.drop_last()) + b.last().content) =~= (joined(a) + joined(
            b.drop_last(),
        )) + b.last().content);
    }
}

/// The text of one span.
pub proof fn lemma_joined_one(span: StyledSpanView)
    ensures
        joined(seq![span]) == span.content,
{
    let one = seq![span];
    assert(one.drop_last() =~= Seq::<StyledSpanView>::empty());
    assert(joined(one.drop_last()) =~= Seq::<char>::empty());
    assert(one.last() == span);
    assert(joined(one) =~= span.content);
}

/// The text of a piece.
pub proof fn lemma_joined_piece(content: Seq<char>, from: int, to: int, style: Style)
    requires
        0 <= from <= to <= content.len(),
    ensures
        joined(piece(content, from, to, style)) == content.subrange(from, to),
{
    let p = piece(content, from, to, style);
    if from < to {
        lemma_joined_one(StyledSpanView { content: content.subrange(from, to), style });
    } else {
        assert(content.subrange(from, to) =~= Seq::<char>::empty());
    }
}

/// Cutting a span keeps its text: the pieces from `processed` on, joined,
/// are the text of the span from `processed` on.
pub proof fn lemma_pieces_keep_text(
    span: StyledSpanView,
    span_start: int,
    matches: Seq<SearchMatchView>,
    k: int,
    processed: int,
    current: Option<SearchMatchView>,
    line_index: usize,
    line_type: DiffLineType,
)
    requires
        0 <= span_start <= usize::MAX,
        forward_matches(matches),
        in_text_order(matches),
        0 <= k,
        0 <= processed <= span.content.len(),
        forall|j: int|
            k <= j < matches.len() && overlaps(
                #[trigger] matches[j],
                line_index,
                span_start,
                capped_sum(span_start, span.content.len() as int),
            ) ==> cut_from(matches[j], span_start) >= processed,
    ensures
        joined(span_pieces(span, span_start, matches, k, processed, current, line_index, line_type))
            == span.content.skip(processed),
    decreases matches.len() - k,
{
    let length = span.content.len() as int;
    let span_end = capped_sum(span_start, length);
    if k >= matches.len() {
        lemma_joined_piece(span.content, processed, length, span.style);
        assert(span.content.subrange(processed, length) =~= span.content.skip(processed));
    } else if !overlaps(matches[k], line_index, span_start, span_end) {
        lemma_pieces_keep_text(
            span,
            span_start,
            matches,
            k + 1,
            processed,
            current,
            line_index,
            line_type,
        );
    } else {
        let m = matches[k];
        let from = cut_from(m, span_start);
        let to = cut_to(m, span_start, length);
        assert(processed <= from);
        assert(from <= to <= length);
        assert forall|j: int|
            k + 1 <= j < matches.len() && overlaps(
                #[trigger] matches[j],
                line_index,
                span_start,
                span_end,
            ) implies cut_from(matches[j], span_start) >= to by {
            assert(matches[k].line_index == matches[j].line_index);
            assert(matches[k].char_end <= matches[j].char_start);
        }
        lemma_pieces_keep_text(span, span_start, matches, k + 1, to, current, line_index, line_type);
        let style = highlight_style(current == Some(m), line_type);
        let first = piece(span.content, processed, from, span.style);
        let second = piece(span.content, from, to, style);
        let rest = span_pieces(span, span_start, matches, k + 1, to, current, line_index, line_type);
        lemma_joined_piece(span.content, processed, from, span.style);
        lemma_joined_piece(span.content, from, to, style);
        lemma_joined_concat(first, second);
        lemma_joined_concat(first + second, rest);
        assert(span.content.subrange(processed, from) + span.content.subrange(from, to)
            + span.content.skip(to) =~= span.content.skip(processed));
    }
}

/// Marking matches changes no text: the spans that come out, joined, read
/// as the spans that went in. The matches must be as a search gives them,
/// in the order of the text and none ending before it starts.
pub proof fn law_highlighting_keeps_text(
    spans: Seq<StyledSpanView>,
    n: int,
    matches: Seq<SearchMatchView>,
    current: Option<SearchMatchView>,
    line_index: usize,
    line_type: DiffLineType,
)
    requires
        0 <= n <= spans.len(),
        forward_matches(matches),
        in_text_order(matches),
    ensures
        joined(highlighted_spans(spans, n, matches, current, line_index, line_type)) == joined(
            spans.take(n),
        ),
    decreases n,
{
    if n == 0 {
        assert(spans.take(0) =~= Seq::<StyledSpanView>::empty());
    } else {
        law_highlighting_keeps_text(spans, n - 1, matches, current, line_index, line_type);
        let before = highlighted_spans(spans, n - 1, matches, current, line_index, line_type);
        let here = highlighted_span(spans, n - 1, matches, current, line_index, line_type);
        lemma_joined_concat(before, here);
        lemma_code_offset_bounds(spans, n - 1);
        let start = code_offset(spans, n - 1);
        let end = capped_sum(start, spans[n - 1].content.len() as int);
        if n - 1 < PREFIX_SPANS || !any_overlap(matches, 0, line_index, start, end) {
            lemma_joined_one(spans[n - 1]);
        } else {
            assert forall|j: int|
                0 <= j < matches.len() && overlaps(
                    #[trigger] matches[j],
                    line_index,
                    start,
                    end,
                ) implies cut_from(matches[j], start) >= 0 by {}
            lemma_pieces_keep_text(
                spans[n - 1],
                start,
                matches,
                0,
                0,
                current,
                line_index,
                line_type,
            );
            assert(spans[n - 1].content.skip(0) =~= spans[n - 1].content);
        }
        assert(spans.take(n).drop_last() =~= spans.take(n - 1));
        assert(spans.take(n).last() == spans[n - 1]);
    }
}

/// The code offset of a span fits `usize`.
pub proof fn lemma_code_offset_bounds(spans: Seq<StyledSpanView>, i: int)
    ensures
        0 <= code_offset(spans, i) <= usize::MAX,
    decreases i,
{
    if i > PREFIX_SPANS {
        lemma_code_offset_bounds(spans, i - 1);
    }
}

/// Whether some match from position `from` on overlaps the span.
fn has_overlap(
    results: &Vec<SearchMatch>,
    from: usize,
    line_index: usize,
    span_start: usize,
    span_end: usize,
) -> (r: bool)
    ensures
        r == any_overlap(match_views(results@), from as int, line_index, span_start as int, span_end as int),
{
    let mut k: usize = from;
    while k < results.len()
        invariant
            from <= k || k == from,
            forall|j: int|
                from <= j < k && j < results@.len() ==> !overlaps(
                    #[trigger] match_views(results@)[j],
                    line_index,
                    span_start as int,
                    span_end as int,
                ),
        decreases results.len() - k,
    {
        if is_overlapping(&results[k], line_index, span_start, span_end) {
            assert(overlaps(match_views(results@)[k as int], line_index, span_start as int, span_end as int));
            return true;
        }
        k += 1;
    }
    false
}

/// Whether a match is one of line `line_index` that overlaps the span.
fn is_overlapping(found: &SearchMatch, line_index: usize, span_start: usize, span_end: usize) -> (r:
    bool)
    ensures
        r == overlaps(found@, line_index, span_start as int, span_end as int),
{
    found.line_index == line_index && found.char_start.saturating_sub(1) < span_end
        && found.char_end.saturating_sub(1) > span_start
}

/// Adds the piece `content[from..to]` in the given style to `result_spans`,
/// unless it would be empty or reach beyond the content.
pub fn push_piece(
    result_spans: &mut Vec<StyledSpan>,
    content: &Vec<char>,
    from: usize,
    to: usize,
    style: Style,
)
    ensures
        span_views(final(result_spans)@) == span_views(old(result_spans)@) + piece(
            content@,
            from as int,
            to as int,
            style,
        ),
{
    let ghost before = span_views(result_spans@);
    if from < to && to <= content.len() {
        let text = substring(content, from, to);
        result_spans.push(StyledSpan { content: text, style });
        assert(span_views(result_spans@) =~= before + piece(
            content@,
            from as int,
            to as int,
            style,
        ));
    } else {
        assert(before + Seq::<StyledSpanView>::empty() =~= before);
    }
}

/// Cuts one code span into pieces at the matches that overlap it and adds
/// the pieces to `result_spans`.
pub fn apply_highlighting_to_span(
    span: &StyledSpan,
    span_start_in_code: usize,
    line_index: usize,
    search_state: &DiffSearchState,
    line_type: DiffLineType,
    result_spans: &mut Vec<StyledSpan>,
)
    ensures
        span_views(final(result_spans)@) == span_views(old(result_spans)@) + span_pieces(
            span@,
            span_start_in_code as int,
            match_views(search_state.results@),
            0,
            0,
            search_state.current_match(),
            line_index,
            line_type,
        ),
{
    let content = chars_of(span.content.as_str());
    let length = content.len();
    let span_end = span_start_in_code.saturating_add(length);
    let ghost matches = match_views(search_state.results@);
    let ghost current = search_state.current_match();
    let ghost start = span_views(result_spans@);
    let ghost whole = span_pieces(
        span@,
        span_start_in_code as int,
        matches,
        0,
        0,
        current,
        line_index,
        line_type,
    );
    let ghost mut added: Seq<StyledSpanView> = Seq::empty();
    let mut processed: usize = 0;
    let mut k: usize = 0;
    proof {
        assert(start + added =~= start);
        assert(added + whole =~= whole);
    }
    while k < search_state.results.len()
        invariant
            k <= search_state.results@.len(),
            content@ == span.content@,
            length == content@.len(),
            span_end == capped_sum(span_start_in_code as int, length as int),
            matches == match_views(search_state.results@),
            current == search_state.current_match(),
            processed <= length,
            span_views(result_spans@) == start + added,
            whole == added + span_pieces(
                span@,
                span_start_in_code as int,
                matches,
                k as int,
                processed as int,
                current,
                line_index,
                line_type,
            ),
        decreases search_state.results.len() - k,
    {
        let found = &search_state.results[k];
        let ghost tail = span_pieces(
            span@,
            span_start_in_code as int,
            matches,
            k as int,
            processed as int,
            current,
            line_index,
            line_type,
        );
        assert(matches[k as int] == found@);
        if is_overlapping(found, line_index, span_start_in_code, span_end) {
            let from = found.char_start.saturating_sub(1).saturating_sub(span_start_in_code);
            let to_in_span = found.char_end.saturating_sub(1).saturating_sub(span_start_in_code);
            let to = if to_in_span < length {
                to_in_span
            } else {
                length
            };
            let is_current_match = search_state.is_current(found);
            let style = get_search_highlight_style(is_current_match, line_type);
            let ghost rest = span_pieces(
                span@,
                span_start_in_code as int,
                matches,
                k + 1,
                to as int,
                current,
                line_index,
                line_type,
            );
            let ghost first = piece(content@, processed as int, from as int, span.style);
            let ghost second = piece(content@, from as int, to as int, style);
            assert(from == cut_from(found@, span_start_in_code as int));
            assert(to == cut_to(found@, span_start_in_code as int, length as int));
            assert(tail == first + second + rest);
            let ghost so_far = span_views(result_spans@);
            push_piece(result_spans, &content, processed, from, span.style);
            assert(span_views(result_spans@) =~= so_far + first);
            push_piece(result_spans, &content, from, to, style);
            proof {
                let previous = added;
                added = added + first + second;
                assert(span_views(result_spans@) =~= start + added);
                assert(previous + (first + second + rest) =~= added + rest);
            }
            processed = to;
        }
        k += 1;
    }
    let ghost last = piece(content@, processed as int, length as int, span.style);
    push_piece(result_spans, &content, processed, length, span.style);
    proof {
        assert(start + added + last =~= start + (added + last));
    }
}

/// A copy of a span.
fn copy_span(span: &StyledSpan) -> (r: StyledSpan)
    ensures
        r@ == span@,
{
    StyledSpan { content: span.content.clone(), style: span.style }
}

/// Marks the matches of line `line_index` in a rendered line. The first
/// two spans and every code span that no match overlaps come back
/// unchanged; every other code span is cut into pieces.
pub fn apply_search_highlighting_to_code_content(
    styled_line: Vec<StyledSpan>,
    line_index: usize,
    search_state: &DiffSearchState,
    source_line: &DiffLine,
) -> (result: Vec<StyledSpan>)
    ensures
        span_views(result@) == highlighted_spans(
            span_views(styled_line@),
            styled_line@.len() as int,
            match_views(search_state.results@),
            search_state.current_match(),
            line_index,
            source_line.line_type,
        ),
{
    let ghost spans = span_views(styled_line@);
    let ghost matches = match_views(search_state.results@);
    let ghost current = search_state.current_match();
    let line_type = source_line.line_type;
    let mut result_spans: Vec<StyledSpan> = Vec::new();
    let mut offset: usize = 0;
    let mut i: usize = 0;
    while i < styled_line.len()
        invariant
            i <= styled_line@.len(),
            spans == span_views(styled_line@),
            matches == match_views(search_state.results@),
            current == search_state.current_match(),
            line_type == source_line.line_type,
            offset == code_offset(spans, i as int),
            span_views(result_spans@) == highlighted_spans(
                spans,
                i as int,
                matches,
                current,
                line_index,
                line_type,
            ),
        decreases styled_line.len() - i,
    {
        let span = &styled_line[i];
        assert(spans[i as int] == span@);
        let ghost before = span_views(result_spans@);
        let length = span.content.as_str().unicode_len();
        let span_end = offset.saturating_add(length);
        if i < PREFIX_SPANS || !has_overlap(
            &search_state.results,
            0,
            line_index,
            offset,
            span_end,
        ) {
            result_spans.push(copy_span(span));
            assert(span_views(result_spans@) =~= before + seq![span@]);
        } else {
            apply_highlighting_to_span(
                span,
                offset,
                line_index,
                search_state,
                line_type,
                &mut result_spans,
            );
        }
        if i >= PREFIX_SPANS {
            offset = span_end;
        }
        i += 1;
    }
    result_spans
}

} // verus!
