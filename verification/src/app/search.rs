//! Searching the content lines of a diff with a regular expression, and
//! stepping through what was found.

use crate::diff::{DiffLine, DiffLineType, DiffLineView, line_views};
use crate::pattern::{find_spans, match_spans, pattern_is_valid, successive_spans, Pattern};
use crate::text::{
    char_index_at, char_index_of_byte, chars_of, clamped_subrange, lemma_char_index_at_boundaries,
    lemma_char_index_at_monotonic, substring,
};
use vstd::prelude::*;

verus! {

/// One place where the pattern matched.
#[derive(Debug, PartialEq, Eq)]
pub struct SearchMatch {
    /// Index of the line among the parsed lines of the diff.
    pub line_index: usize,
    /// Index of the first matched character in the raw line, marker
    /// included.
    pub char_start: usize,
    /// Index of the character after the last matched one.
    pub char_end: usize,
    /// The matched text.
    pub content: String,
}

/// The mathematical value of a `SearchMatch`.
pub struct SearchMatchView {
    pub line_index: usize,
    pub char_start: usize,
    pub char_end: usize,
    pub content: Seq<char>,
}

impl View for SearchMatch {
    type V = SearchMatchView;

    open spec fn view(&self) -> SearchMatchView {
        SearchMatchView {
            line_index: self.line_index,
            char_start: self.char_start,
            char_end: self.char_end,
            content: self.content@,
        }
    }
}

impl Clone for SearchMatch {
    fn clone(&self) -> (r: Self)
        ensures
            r == *self,
    {
        SearchMatch {
            line_index: self.line_index,
            char_start: self.char_start,
            char_end: self.char_end,
            content: self.content.clone(),
        }
    }
}

impl SearchMatch {
    /// Whether two matches are the same place with the same text.
    pub fn same_as(&self, other: &SearchMatch) -> (r: bool)
        ensures
            r == (self@ == other@),
    {
        self.line_index == other.line_index && self.char_start == other.char_start
            && self.char_end == other.char_end && self.content == other.content
    }
}

/// The state of a search in the diff that is shown.
#[derive(Debug, Clone)]
pub struct DiffSearchState {
    /// What was typed so far.
    pub query: String,
    /// A search is going on.
    pub is_active: bool,
    /// The query is still being typed.
    pub is_input_mode: bool,
    /// All matches, in the order of the text.
    pub results: Vec<SearchMatch>,
    /// Index in `results` of the match that is current.
    pub current_result: Option<usize>,
    /// The query, compiled.
    pub regex: Option<Pattern>,
}

impl DiffSearchState {
    /// The match that is current, if there is one.
    pub open spec fn current_match(&self) -> Option<SearchMatchView> {
        match self.current_result {
            Some(i) => if i < self.results@.len() {
                Some(self.results@[i as int]@)
            } else {
                None
            },
            None => None,
        }
    }

    /// Whether `found` is the current match: the same place with the same
    /// text.
    pub fn is_current(&self, found: &SearchMatch) -> (r: bool)
        ensures
            r == (self.current_match() == Some(found@)),
    {
        match self.current_result {
            Some(i) => i < self.results.len() && self.results[i].same_as(found),
            None => false,
        }
    }
}

/// Why a query could not be compiled.
#[derive(Debug)]
pub enum SearchError {
    /// The pattern is not a regular expression; the message says why.
    Syntax(String),
    /// The compiled pattern would be larger than the given limit.
    TooBig(usize),
    /// Any other failure.
    Other,
}

/// The views of a sequence of matches.
pub open spec fn match_views(matches: Seq<SearchMatch>) -> Seq<SearchMatchView> {
    Seq::new(matches.len(), |i: int| matches[i]@)
}

/// The pattern that a query is compiled as: the query, with matching made
/// case-insensitive.
pub open spec fn search_pattern(query: Seq<char>) -> Seq<char> {
    "(?i)"@ + query
}

/// A line whose text is searched: an addition, a deletion or context, never
/// a header or hunk header.
pub open spec fn is_searched(kind: DiffLineType) -> bool {
    kind == DiffLineType::Addition || kind == DiffLineType::Deletion || kind
        == DiffLineType::Context
}

/// The match that a span of byte offsets in line `line_index` stands for:
/// the offsets become character positions in the raw line.
pub open spec fn match_of_span(content: Seq<char>, line_index: usize, span: (usize, usize)) -> SearchMatchView {
    let start = char_index_at(content, span.0 as nat) as usize;
    let end = char_index_at(content, span.1 as nat) as usize;
    SearchMatchView {
        line_index,
        char_start: start,
        char_end: end,
        content: clamped_subrange(content, start as int, end as int),
    }
}

/// The matches that the spans found in one line stand for, in order.
pub open spec fn matches_of_spans(
    content: Seq<char>,
    line_index: usize,
    spans: Seq<(usize, usize)>,
) -> Seq<SearchMatchView> {
    Seq::new(spans.len(), |k: int| match_of_span(content, line_index, spans[k]))
}

/// The matches in line `line_index`: none in a header or hunk header.
pub open spec fn matches_in_line(line: DiffLineView, line_index: usize, pattern: Seq<char>) -> Seq<
    SearchMatchView,
> {
    if is_searched(line.line_type) {
        matches_of_spans(line.content, line_index, match_spans(pattern, line.content))
    } else {
        Seq::empty()
    }
}

/// The matches in the first `n` lines, line by line.
pub open spec fn matches_in_lines(lines: Seq<DiffLineView>, pattern: Seq<char>, n: int) -> Seq<
    SearchMatchView,
>
    decreases n,
{
    if n <= 0 {
        Seq::empty()
    } else {
        matches_in_lines(lines, pattern, n - 1) + matches_in_line(
            lines[n - 1],
            (n - 1) as usize,
            pattern,
        )
    }
}

/// A match lies within its line, which is one of the first `n` lines.
pub open spec fn match_in_bounds(m: SearchMatchView, lines: Seq<DiffLineView>, n: int) -> bool {
    &&& m.line_index < n
    &&& m.line_index < lines.len()
    &&& is_searched(lines[m.line_index as int].line_type)
    &&& m.char_start <= m.char_end <= lines[m.line_index as int].content.len()
    &&& m.content == lines[m.line_index as int].content.subrange(
        m.char_start as int,
        m.char_end as int,
    )
}

/// Matches are in the order of the text: by line, and within a line by
/// where they start, none starting before the one before it ends.
pub open spec fn in_text_order(matches: Seq<SearchMatchView>) -> bool {
    forall|i: int, j: int|
        0 <= i < j < matches.len() ==> {
            ||| (#[trigger] matches[i]).line_index < (#[trigger] matches[j]).line_index
            ||| (matches[i].line_index == matches[j].line_index && matches[i].char_end
                <= matches[j].char_start)
        }
}

/// No two matches start at the same place: each one starts in a later line
/// than the one before it, or later in the same line.
pub open spec fn starts_increase(matches: Seq<SearchMatchView>) -> bool {
    forall|i: int, j: int|
        0 <= i < j < matches.len() ==> {
            ||| (#[trigger] matches[i]).line_index < (#[trigger] matches[j]).line_index
            ||| (matches[i].line_index == matches[j].line_index && matches[i].char_start
                < matches[j].char_start)
        }
}

/// Tells the variants of `regex::Error` apart. Nothing is proved of it.
#[verifier::external_body]
fn describe_error(error: regex::Error) -> SearchError {
    match error {
        regex::Error::Syntax(message) => SearchError::Syntax(message),
        regex::Error::CompiledTooBig(limit) => SearchError::TooBig(limit),
        _ => SearchError::Other,
    }
}

/// The text of the pattern that `query` is compiled as.
pub fn pattern_for(query: &str) -> (pattern: String)
    ensures
        pattern@ == search_pattern(query@),
{
    let mut pattern = "(?i)".to_owned();
    pattern.append(query);
    pattern
}

/// Compiles a query into a case-insensitive regular expression. Fails
/// exactly when the pattern is not valid.
pub fn compile_search(query: &str) -> (r: Result<Pattern, SearchError>)
    ensures
        r is Ok <==> pattern_is_valid(search_pattern(query@)),
        r is Ok ==> r->Ok_0.source() == search_pattern(query@),
{
    let pattern = pattern_for(query);
    match Pattern::new(pattern.as_str()) {
        Ok(regex) => Ok(regex),
        Err(error) => Err(describe_error(error)),
    }
}

/// Turns the spans of byte offsets that a search found in one line into
/// matches with character positions and the matched text.
pub fn matches_from_spans(content: &Vec<char>, line_index: usize, spans: &Vec<(usize, usize)>) -> (found:
    Vec<SearchMatch>)
    ensures
        match_views(found@) == matches_of_spans(content@, line_index, spans@),
        found@.len() == spans@.len(),
{
    let mut found: Vec<SearchMatch> = Vec::new();
    let mut k: usize = 0;
    while k < spans.len()
        invariant
            k <= spans.len(),
            found@.len() == k,
            forall|i: int|
                0 <= i < k ==> (#[trigger] found@[i])@ == match_of_span(
                    content@,
                    line_index,
                    spans@[i],
                ),
        decreases spans.len() - k,
    {
        let (from, to) = spans[k];
        let char_start = char_index_of_byte(content, from);
        let char_end = char_index_of_byte(content, to);
        let text = substring(content, char_start, char_end);
        found.push(SearchMatch { line_index, char_start, char_end, content: text });
        k += 1;
    }
    assert(match_views(found@) =~= matches_of_spans(content@, line_index, spans@));
    found
}

/// The matches of one line are within it and in order, given that the
/// spans they come from are in order.
pub proof fn lemma_matches_of_ordered_spans(
    content: Seq<char>,
    line_index: usize,
    spans: Seq<(usize, usize)>,
)
    requires
        content.len() <= usize::MAX,
        successive_spans(content, spans),
    ensures
        in_text_order(matches_of_spans(content, line_index, spans)),
        starts_increase(matches_of_spans(content, line_index, spans)),
        forall|i: int|
            0 <= i < spans.len() ==> {
                let m = #[trigger] matches_of_spans(content, line_index, spans)[i];
                &&& m.line_index == line_index
                &&& m.char_start <= m.char_end <= content.len()
                &&& m.content == content.subrange(m.char_start as int, m.char_end as int)
            },
{
    let ms = matches_of_spans(content, line_index, spans);
    assert forall|i: int| 0 <= i < spans.len() implies {
        let m = #[trigger] ms[i];
        &&& m.line_index == line_index
        &&& m.char_start <= m.char_end <= content.len()
        &&& m.content == content.subrange(m.char_start as int, m.char_end as int)
    } by {
        lemma_char_index_at_monotonic(content, spans[i].0 as nat, spans[i].1 as nat);
        let m = ms[i];
        if m.char_start == m.char_end {
            assert(m.content =~= content.subrange(m.char_start as int, m.char_end as int));
        }
    }
    assert forall|i: int, j: int| 0 <= i < j < ms.len() implies {
        ||| (#[trigger] ms[i]).line_index < (#[trigger] ms[j]).line_index
        ||| (ms[i].line_index == ms[j].line_index && ms[i].char_end <= ms[j].char_start)
    } by {
        assert(spans[i].1 <= spans[j].0);
        lemma_char_index_at_monotonic(content, spans[i].1 as nat, spans[j].0 as nat);
        lemma_char_index_at_monotonic(content, spans[i].0 as nat, spans[i].1 as nat);
        lemma_char_index_at_monotonic(content, spans[j].0 as nat, spans[j].1 as nat);
    }
    assert forall|i: int, j: int| 0 <= i < j < ms.len() implies {
        ||| (#[trigger] ms[i]).line_index < (#[trigger] ms[j]).line_index
        ||| (ms[i].line_index == ms[j].line_index && ms[i].char_start < ms[j].char_start)
    } by {
        assert(spans[i].0 < spans[j].0);
        lemma_char_index_at_boundaries(content, spans[i].0 as nat, spans[j].0 as nat);
        lemma_char_index_at_monotonic(content, spans[j].0 as nat, spans[j].0 as nat);
    }
}

/// Searches the content lines of a diff. Headers and hunk headers are
/// never searched. The matches come in the order of the text.
pub fn search(lines: &Vec<DiffLine>, regex: &Pattern) -> (found: Vec<SearchMatch>)
    ensures
        match_views(found@) == matches_in_lines(
            line_views(lines@),
            regex.source(),
            lines@.len() as int,
        ),
        in_text_order(match_views(found@)),
        starts_increase(match_views(found@)),
        forall|i: int|
            0 <= i < found@.len() ==> match_in_bounds(
                #[trigger] match_views(found@)[i],
                line_views(lines@),
                lines@.len() as int,
            ),
{
    let ghost views = line_views(lines@);
    let ghost pattern = regex.source();
    let mut found: Vec<SearchMatch> = Vec::new();
    let mut n: usize = 0;
    while n < lines.len()
        invariant
            n <= lines.len(),
            views == line_views(lines@),
            pattern == regex.source(),
            match_views(found@) == matches_in_lines(views, pattern, n as int),
            in_text_order(match_views(found@)),
            starts_increase(match_views(found@)),
            forall|i: int|
                0 <= i < found@.len() ==> match_in_bounds(
                    #[trigger] match_views(found@)[i],
                    views,
                    n as int,
                ),
        decreases lines.len() - n,
    {
        let line = &lines[n];
        let ghost before = match_views(found@);
        assert(views[n as int] == line@);
        match line.line_type {
            DiffLineType::Addition | DiffLineType::Deletion | DiffLineType::Context => {
                let spans = find_spans(regex, line.content.as_str());
                let content = chars_of(line.content.as_str());
                let mut in_line = matches_from_spans(&content, n, &spans);
                let length = content.len();
                proof {
                    assert(content@.len() == length);
                    lemma_matches_of_ordered_spans(content@, n, spans@);
                }
                let ghost added = match_views(in_line@);
                assert(added == matches_in_line(views[n as int], n, pattern));
                found.append(&mut in_line);
                proof {
                    assert(match_views(found@) =~= before + added);
                    assert forall|i: int, j: int| 0 <= i < j < found@.len() implies {
                        ||| (#[trigger] match_views(found@)[i]).line_index < (#[trigger] match_views(
                            found@,
                        )[j]).line_index
                        ||| (match_views(found@)[i].line_index == match_views(
                            found@,
                        )[j].line_index && match_views(found@)[i].char_end <= match_views(
                            found@,
                        )[j].char_start)
                    } by {
                        let all = match_views(found@);
                        if j < before.len() {
                            assert(all[i] == before[i] && all[j] == before[j]);
                        } else if i < before.len() {
                            assert(all[i] == before[i]);
                            assert(all[j] == added[j - before.len()]);
                            assert(match_in_bounds(before[i], views, n as int));
                        } else {
                            assert(all[i] == added[i - before.len()]);
                            assert(all[j] == added[j - before.len()]);
                        }
                    }
                    assert forall|i: int, j: int| 0 <= i < j < found@.len() implies {
                        ||| (#[trigger] match_views(found@)[i]).line_index < (#[trigger] match_views(
                            found@,
                        )[j]).line_index
                        ||| (match_views(found@)[i].line_index == match_views(
                            found@,
                        )[j].line_index && match_views(found@)[i].char_start < match_views(
                            found@,
                        )[j].char_start)
                    } by {
                        let all = match_views(found@);
                        if j < before.len() {
                            assert(all[i] == before[i] && all[j] == before[j]);
                        } else if i < before.len() {
                            assert(all[i] == before[i]);
                            assert(all[j] == added[j - before.len()]);
                            assert(match_in_bounds(before[i], views, n as int));
                        } else {
                            assert(all[i] == added[i - before.len()]);
                            assert(all[j] == added[j - before.len()]);
                        }
                    }
                    assert forall|i: int| 0 <= i < found@.len() implies match_in_bounds(
                        #[trigger] match_views(found@)[i],
                        views,
                        n + 1,
                    ) by {
                        let all = match_views(found@);
                        if i < before.len() {
                            assert(all[i] == before[i]);
                            assert(match_in_bounds(before[i], views, n as int));
                        } else {
                            assert(all[i] == added[i - before.len()]);
                        }
                    }
                }
            },
            DiffLineType::Header | DiffLineType::HunkHeader => {
                proof {
                    assert(matches_in_line(views[n as int], n, pattern) == Seq::<
                        SearchMatchView,
                    >::empty());
                    assert(before + Seq::<SearchMatchView>::empty() =~= before);
                    assert forall|i: int| 0 <= i < found@.len() implies match_in_bounds(
                        #[trigger] match_views(found@)[i],
                        views,
                        n + 1,
                    ) by {
                        assert(match_in_bounds(before[i], views, n as int));
                    }
                }
            },
        }
        n += 1;
    }
    found
}

/// The match to go to after `current` among `count` matches: the first one
/// if none is current, else the one after, and the first again after the
/// last. With no matches, `current` stays.
pub open spec fn match_after(count: usize, current: Option<usize>) -> Option<usize> {
    if count == 0 {
        current
    } else {
        match current {
            Some(i) => if i == usize::MAX {
                Some(0)
            } else {
                Some(((i + 1) % (count as int)) as usize)
            },
            None => Some(0),
        }
    }
}

/// The match to go to before `current` among `count` matches: the last one
/// if none is current or the first is, else the one before. With no
/// matches, `current` stays.
pub open spec fn match_before(count: usize, current: Option<usize>) -> Option<usize> {
    if count == 0 {
        current
    } else {
        match current {
            Some(i) => if i == 0 {
                Some((count - 1) as usize)
            } else {
                Some((i - 1) as usize)
            },
            None => Some((count - 1) as usize),
        }
    }
}

/// The match to go to after `current`, with wrap-around.
pub fn next_match(count: usize, current: Option<usize>) -> (next: Option<usize>)
    ensures
        next == match_after(count, current),
        count > 0 ==> next is Some && next->Some_0 < count,
{
    if count == 0 {
        return current;
    }
    match current {
        Some(i) => match i.checked_add(1) {
            Some(n) => Some(n % count),
            None => Some(0),
        },
        None => Some(0),
    }
}

/// The match to go to before `current`, with wrap-around.
pub fn previous_match(count: usize, current: Option<usize>) -> (previous: Option<usize>)
    ensures
        previous == match_before(count, current),
        count > 0 && (current is None || current->Some_0 < count) ==> previous is Some
            && previous->Some_0 < count,
{
    if count == 0 {
        return current;
    }
    match current {
        Some(i) => if i == 0 {
            Some(count - 1)
        } else {
            Some(i - 1)
        },
        None => Some(count - 1),
    }
}

/// The current match after `steps` steps forward.
pub open spec fn match_after_steps(count: usize, current: Option<usize>, steps: nat) -> Option<
    usize,
>
    decreases steps,
{
    if steps == 0 {
        current
    } else {
        match_after(count, match_after_steps(count, current, (steps - 1) as nat))
    }
}

/// Stepping forward from match `start` goes round: after `steps` steps the
/// current match is `(start + steps) % count`.
pub proof fn lemma_match_after_steps(count: usize, start: usize, steps: nat)
    requires
        start < count,
    ensures
        match_after_steps(count, Some(start), steps) == Some(
            ((start + steps) % (count as int)) as usize,
        ),
    decreases steps,
{
    if steps == 0 {
        assert(start % count == start) by (nonlinear_arith)
            requires
                0 <= start < count,
        ;
    } else {
        lemma_match_after_steps(count, start, (steps - 1) as nat);
        let c = count as int;
        let before = (start + steps - 1) % c;
        assert(0 <= before < c) by (nonlinear_arith)
            requires
                c > 0,
                before == (start + steps - 1) % c,
        ;
        assert((before + 1) % c == (start + steps) % c) by (nonlinear_arith)
            requires
                c > 0,
                before == (start + steps - 1) % c,
                start + steps - 1 >= 0,
        ;
    }
}

/// Round trip: as many steps forward as there are matches lead back to the
/// match one started from; from the first match, back to the first.
pub proof fn law_next_match_round_trip(count: usize, start: usize)
    requires
        start < count,
    ensures
        match_after_steps(count, Some(start), count as nat) == Some(start),
        match_after_steps(count, Some(0), count as nat) == Some(0usize),
{
    lemma_match_after_steps(count, start, count as nat);
    lemma_match_after_steps(count, 0, count as nat);
    let c = count as int;
    assert((start + c) % c == start) by (nonlinear_arith)
        requires
            0 <= start < c,
    ;
    assert((0 + c) % c == 0) by (nonlinear_arith)
        requires
            c > 0,
    ;
}

/// A step forward and a step back undo each other.
pub proof fn law_next_then_previous_match(count: usize, current: usize)
    requires
        current < count,
    ensures
        match_before(count, match_after(count, Some(current))) == Some(current),
        match_after(count, match_before(count, Some(current))) == Some(current),
{
    let c = count as int;
    if current + 1 < count {
        assert((current + 1) % c == current + 1) by (nonlinear_arith)
            requires
                0 <= current + 1 < c,
        ;
    } else {
        assert((current + 1) % c == 0) by (nonlinear_arith)
            requires
                current + 1 == c,
                c > 0,
        ;
    }
    if current == 0 {
        assert(((count - 1) + 1) % c == 0) by (nonlinear_arith)
            requires
                c > 0,
                count == c,
        ;
    } else {
        assert(((current - 1) + 1) % c == current) by (nonlinear_arith)
            requires
                0 < current < c,
        ;
    }
}

} // verus!
