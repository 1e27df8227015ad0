//! The state of the file picker: a list of files, narrowed down by a fuzzy
//! query and ranked by how well each file matches.

use crate::diff::highlight::{Color, Style, StyledSpan, StyledSpanView, span_views};
use crate::git::files::GitFile;
use crate::text::{chars_of, string_of, substring};
use vstd::prelude::*;

verus! {

/// What `fuzzy_matcher::skim::SkimMatcherV2`, as made by `default()`, finds
/// when it matches `pattern` against `choice`: nothing, or a score and the
/// positions of the matched characters in `choice`.
pub uninterp spec fn fuzzy_match(choice: Seq<char>, pattern: Seq<char>) -> Option<
    (i64, Seq<usize>),
>;

/// The view of the result of a fuzzy match.
pub open spec fn fuzzy_view(found: Option<(i64, Vec<usize>)>) -> Option<(i64, Seq<usize>)> {
    match found {
        Some((score, indices)) => Some((score, indices@)),
        None => None,
    }
}

/// Calls `fuzzy_indices` of a `SkimMatcherV2` made by `default()`. Trusted:
/// the result is the one that `fuzzy_match` names.
#[verifier::external_body]
fn fuzzy_indices(choice: &str, pattern: &str) -> (found: Option<(i64, Vec<usize>)>)
    ensures
        fuzzy_view(found) == fuzzy_match(choice@, pattern@),
{
    fuzzy_matcher::FuzzyMatcher::fuzzy_indices(
        &fuzzy_matcher::skim::SkimMatcherV2::default(),
        choice,
        pattern,
    )
}

/// Whether `c` is a control character: one of the Unicode general category
/// `Cc`, which holds the codes below the space, the delete character and
/// the codes from U+0080 to U+009F.
pub open spec fn is_control_code(c: char) -> bool {
    let code = c as u32;
    code <= 0x001F || 0x007F <= code <= 0x009F
}

/// `char::is_control` tells whether the character has the general category
/// for control codes.
pub assume_specification[ char::is_control ](c: char) -> (r: bool)
    ensures
        r == is_control_code(c),
;

/// Whether a typed character goes into the query: control characters, `[`
/// and the escape character do not, since they are what is left of key
/// sequences that arrive in pieces.
pub fn is_query_char(c: char) -> (r: bool)
    ensures
        r == !(is_control_code(c) || c == '[' || c == '\x1b'),
{
    !(c.is_control() || c == '[' || c == '\x1b')
}

/// The state of the file picker.
#[derive(Debug)]
pub struct FilePickerState {
    /// All files.
    pub files: Vec<GitFile>,
    /// The files that match the query, best first: for each the index in
    /// `files` and the positions of the matched characters in its path.
    pub filtered_files: Vec<(usize, Vec<usize>)>,
    pub query: String,
    /// Index in `filtered_files` of the file that is selected.
    pub selected: usize,
}

/// A file that matched, with its score.
pub struct Candidate {
    pub score: i64,
    /// Index of the file in the list of all files.
    pub file_index: usize,
    /// Positions of the matched characters in the path.
    pub indices: Vec<usize>,
}

/// The mathematical value of a `Candidate`.
pub struct CandidateView {
    pub score: i64,
    pub file_index: usize,
    pub indices: Seq<usize>,
}

impl View for Candidate {
    type V = CandidateView;

    open spec fn view(&self) -> CandidateView {
        CandidateView { score: self.score, file_index: self.file_index, indices: self.indices@ }
    }
}

/// The views of a sequence of candidates.
pub open spec fn candidate_views(candidates: Seq<Candidate>) -> Seq<CandidateView> {
    Seq::new(candidates.len(), |i: int| candidates[i]@)
}

/// The views of a sequence of listed files.
pub open spec fn listing_views(listing: Seq<(usize, Vec<usize>)>) -> Seq<(usize, Seq<usize>)> {
    Seq::new(listing.len(), |i: int| (listing[i].0, listing[i].1@))
}

/// The paths of a sequence of files, as they are shown.
pub open spec fn display_paths(files: Seq<GitFile>) -> Seq<Seq<char>> {
    Seq::new(files.len(), |i: int| files[i].display_path@)
}

/// The candidates among the first `n` files: the files whose path matches
/// the query, in the order of the files.
pub open spec fn candidates_of(paths: Seq<Seq<char>>, query: Seq<char>, n: int) -> Seq<
    CandidateView,
>
    decreases n,
{
    if n <= 0 {
        Seq::empty()
    } else {
        let before = candidates_of(paths, query, n - 1);
        match fuzzy_match(paths[n - 1], query) {
            Some((score, indices)) => before.push(
                CandidateView { score, file_index: (n - 1) as usize, indices },
            ),
            None => before,
        }
    }
}

/// Where a candidate with the given score goes into a ranking: behind
/// every candidate that scores at least as high.
pub open spec fn rank_position(ranking: Seq<CandidateView>, score: i64) -> int
    decreases ranking.len(),
{
    if ranking.len() == 0 {
        0
    } else if ranking[0].score < score {
        0
    } else {
        1 + rank_position(ranking.drop_first(), score)
    }
}

/// The candidates ranked by score, the highest first; of two candidates
/// with the same score, the one that came first stays first.
pub open spec fn ranked(candidates: Seq<CandidateView>) -> Seq<CandidateView>
    decreases candidates.len(),
{
    if candidates.len() == 0 {
        Seq::empty()
    } else {
        let before = ranked(candidates.drop_last());
        before.insert(rank_position(before, candidates.last().score), candidates.last())
    }
}

/// What the picker lists for ranked candidates.
pub open spec fn listing_of(ranking: Seq<CandidateView>) -> Seq<(usize, Seq<usize>)> {
    Seq::new(ranking.len(), |i: int| (ranking[i].file_index, ranking[i].indices))
}

/// What the picker lists: every file, in order, for an empty query; else
/// the files that match the query, ranked.
pub open spec fn filtered(paths: Seq<Seq<char>>, query: Seq<char>) -> Seq<(usize, Seq<usize>)> {
    if query.len() == 0 {
        Seq::new(paths.len(), |i: int| (i as usize, Seq::<usize>::empty()))
    } else {
        listing_of(ranked(candidates_of(paths, query, paths.len() as int)))
    }
}

/// No score in a ranking is lower than a later one.
pub open spec fn descending(ranking: Seq<CandidateView>) -> bool {
    forall|i: int, j: int|
        0 <= i < j < ranking.len() ==> (#[trigger] ranking[i]).score >= (#[trigger] ranking[j]).score
}

/// The position at which a candidate goes into a ranking lies within it,
/// behind scores that are at least as high and before lower ones.
pub proof fn lemma_rank_position(ranking: Seq<CandidateView>, score: i64)
    requires
        descending(ranking),
    ensures
        0 <= rank_position(ranking, score) <= ranking.len(),
        forall|i: int| 0 <= i < rank_position(ranking, score) ==> (#[trigger] ranking[i]).score >= score,
        forall|i: int|
            rank_position(ranking, score) <= i < ranking.len() ==> (#[trigger] ranking[i]).score
                < score,
    decreases ranking.len(),
{
    if ranking.len() == 0 {
    } else if ranking[0].score < score {
        assert forall|i: int| 0 <= i < ranking.len() implies (#[trigger] ranking[i]).score
            < score by {
            if i > 0 {
                assert(ranking[0].score >= ranking[i].score);
            }
        }
    } else {
        let rest = ranking.drop_first();
        assert(descending(rest)) by {
            assert forall|i: int, j: int| 0 <= i < j < rest.len() implies (#[trigger] rest[i]).score
                >= (#[trigger] rest[j]).score by {
                assert(rest[i] == ranking[i + 1] && rest[j] == ranking[j + 1]);
            }
        }
        lemma_rank_position(rest, score);
        let k = rank_position(rest, score);
        assert forall|i: int| 0 <= i < k + 1 implies (#[trigger] ranking[i]).score >= score by {
            if i > 0 {
                assert(rest[i - 1] == ranking[i]);
            }
        }
        assert forall|i: int| k + 1 <= i < ranking.len() implies (#[trigger] ranking[i]).score
            < score by {
            assert(rest[i - 1] == ranking[i]);
        }
    }
}

/// Ranking orders by score, keeps every candidate, and adds none.
pub proof fn law_ranking_orders_and_keeps(candidates: Seq<CandidateView>)
    ensures
        descending(ranked(candidates)),
        ranked(candidates).len() == candidates.len(),
        ranked(candidates).to_multiset() == candidates.to_multiset(),
    decreases candidates.len(),
{
    if candidates.len() == 0 {
        assert(candidates =~= Seq::<CandidateView>::empty());
    } else {
        let init = candidates.drop_last();
        let last = candidates.last();
        law_ranking_orders_and_keeps(init);
        let before = ranked(init);
        lemma_rank_position(before, last.score);
        let k = rank_position(before, last.score);
        let after = before.insert(k, last);
        assert forall|i: int, j: int| 0 <= i < j < after.len() implies (#[trigger] after[i]).score
            >= (#[trigger] after[j]).score by {
            let si = if i < k {
                i
            } else {
                i - 1
            };
            let sj = if j < k {
                j
            } else {
                j - 1
            };
            if i != k {
                assert(after[i] == before[si]);
            }
            if j != k {
                assert(after[j] == before[sj]);
            }
            if i != k && j != k {
                assert(si < sj);
            }
        }
        assert(after.remove(k) =~= before);
        assert(after[k] == last);
        vstd::seq_lib::to_multiset_remove(after, k);
        vstd::seq_lib::to_multiset_build(init, last);
        after.to_multiset_ensures();
        assert(after.contains(last));
        assert(after.to_multiset() =~= before.to_multiset().insert(last));
        assert(candidates =~= init.push(last));
        assert(candidates.to_multiset() =~= init.to_multiset().insert(last));
        assert(ranked(candidates).to_multiset() =~= candidates.to_multiset());
    }
}

/// Puts the candidates in the order of the picker: by score, the highest
/// first, and equal scores in the order they came in.
pub fn rank_matches(candidates: Vec<Candidate>) -> (listing: Vec<(usize, Vec<usize>)>)
    ensures
        listing_views(listing@) == listing_of(ranked(candidate_views(candidates@))),
        listing@.len() == candidates@.len(),
{
    let ghost all = candidate_views(candidates@);
    let mut order: Vec<usize> = Vec::new();
    let mut n: usize = 0;
    while n < candidates.len()
        invariant
            n <= candidates@.len(),
            all == candidate_views(candidates@),
            order@.len() == n,
            forall|i: int| 0 <= i < n ==> (#[trigger] order@[i]) < candidates@.len(),
            Seq::new(n as nat, |i: int| all[order@[i] as int]) == ranked(all.take(n as int)),
        decreases candidates.len() - n,
    {
        let ghost before = ranked(all.take(n as int));
        let score = candidates[n].score;
        let mut k: usize = 0;
        assert(before.skip(0) =~= before);
        while k < order.len() && candidates[order[k]].score >= score
            invariant
                k <= order@.len(),
                order@.len() == n,
                n < candidates@.len(),
                all == candidate_views(candidates@),
                forall|i: int| 0 <= i < n ==> (#[trigger] order@[i]) < candidates@.len(),
                before == Seq::new(n as nat, |i: int| all[order@[i] as int]),
                rank_position(before, score) == k + rank_position(before.skip(k as int), score),
            decreases order.len() - k,
        {
            proof {
                let rest = before.skip(k as int);
                assert(rest[0] == all[order@[k as int] as int]);
                assert(rest.drop_first() =~= before.skip(k + 1));
            }
            k += 1;
        }
        proof {
            let rest = before.skip(k as int);
            if k < order@.len() {
                assert(rest[0] == all[order@[k as int] as int]);
            }
            assert(rank_position(before, score) == k);
            assert(all.take(n + 1).drop_last() =~= all.take(n as int));
            assert(all.take(n + 1).last() == all[n as int]);
        }
        let ghost old_order = order@;
        order.insert(k, n);
        proof {
            let after = Seq::new((n + 1) as nat, |i: int| all[order@[i] as int]);
            assert(after =~= before.insert(k as int, all[n as int])) by {
                assert forall|i: int| 0 <= i < n + 1 implies after[i] == before.insert(
                    k as int,
                    all[n as int],
                )[i] by {
                    if i < k {
                        assert(order@[i] == old_order[i]);
                    } else if i > k {
                        assert(order@[i] == old_order[i - 1]);
                    }
                }
            }
        }
        n += 1;
    }
    assert(all.take(n as int) =~= all);
    let mut listing: Vec<(usize, Vec<usize>)> = Vec::new();
    let mut i: usize = 0;
    while i < order.len()
        invariant
            i <= order@.len(),
            order@.len() == candidates@.len(),
            all == candidate_views(candidates@),
            forall|j: int| 0 <= j < order@.len() ==> (#[trigger] order@[j]) < candidates@.len(),
            listing@.len() == i,
            forall|j: int|
                0 <= j < i ==> (#[trigger] listing@[j]).0 == all[order@[j] as int].file_index
                    && listing@[j].1@ == all[order@[j] as int].indices,
        decreases order.len() - i,
    {
        let candidate = &candidates[order[i]];
        listing.push((candidate.file_index, copy_indices(&candidate.indices)));
        i += 1;
    }
    proof {
        let ranking = ranked(all);
        assert(ranking =~= Seq::new(candidates@.len() as nat, |i: int| all[order@[i] as int]));
        assert(listing_views(listing@) =~= listing_of(ranking));
    }
    listing
}

impl FilePickerState {
    /// The listing is the one that belongs to the files and the query.
    pub open spec fn listing_current(&self) -> bool {
        listing_views(self.filtered_files@) == filtered(display_paths(self.files@), self.query@)
    }

    /// A picker over `files` with an empty query: every file is listed.
    pub fn new(files: Vec<GitFile>) -> (r: Self)
        ensures
            r.files == files,
            r.query@.len() == 0,
            r.selected == 0,
            r.listing_current(),
            r.filtered_files@.len() == files@.len(),
    {
        let mut state = FilePickerState {
            files,
            filtered_files: Vec::new(),
            query: String::new(),
            selected: 0,
        };
        state.update_filter();
        state
    }

    /// Replaces the query; the first listed file becomes the selected one.
    pub fn update_query(&mut self, query: String)
        ensures
            final(self).query@ == query@,
            final(self).selected == 0,
            final(self).files == old(self).files,
            final(self).listing_current(),
    {
        self.query = query;
        self.selected = 0;
        self.update_filter();
    }

    /// What adding `c` to the query does, from the state `before`.
    pub open spec fn typed_from(&self, before: &FilePickerState, c: char) -> bool {
        &&& self.query@ == before.query@.push(c)
        &&& self.selected == 0
        &&& self.files == before.files
        &&& self.listing_current()
    }

    /// Adds a character to the query.
    pub fn append_char(&mut self, c: char)
        ensures
            final(self).typed_from(old(self), c),
    {
        self.query.push(c);
        self.selected = 0;
        self.update_filter();
    }

    /// What removing the last character of the query does, from the state
    /// `before`.
    pub open spec fn erased_from(&self, before: &FilePickerState) -> bool {
        &&& self.query@ == (if before.query@.len() > 0 {
                    before.query@.drop_last()
                } else {
                    before.query@
                })
        &&& self.selected == 0
        &&& self.files == before.files
        &&& self.listing_current()
    }

    /// Removes the last character of the query, if it has one.
    pub fn delete_char(&mut self)
        ensures
            final(self).erased_from(old(self)),
    {
        let _ = self.query.pop();
        self.selected = 0;
        self.update_filter();
    }

    /// What emptying the query does, from the state `before`.
    pub open spec fn cleared_from(&self, before: &FilePickerState) -> bool {
        &&& self.query@.len() == 0
        &&& self.selected == 0
        &&& self.files == before.files
        &&& self.listing_current()
    }

    /// Empties the query.
    pub fn clear_query(&mut self)
        ensures
            final(self).cleared_from(old(self)),
    {
        self.query = String::new();
        self.selected = 0;
        self.update_filter();
    }

    /// What moving the selection up does, from the state `before`.
    pub open spec fn moved_up_from(&self, before: &FilePickerState) -> bool {
        &&& self.selected == (if before.selected > 0 {
                    before.selected - 1
                } else {
                    0
                })
        &&& self.files == before.files
        &&& self.filtered_files == before.filtered_files
        &&& self.query == before.query
    }

    /// The selection one file up, not above the first.
    pub fn move_up(&mut self)
        ensures
            final(self).moved_up_from(old(self)),
    {
        if self.selected > 0 {
            self.selected -= 1;
        }
    }

    /// What moving the selection down does, from the state `before`.
    pub open spec fn moved_down_from(&self, before: &FilePickerState) -> bool {
        &&& self.selected == (if before.selected + 1 < before.filtered_files@.len() {
                    before.selected + 1
                } else {
                    before.selected as int
                })
        &&& self.files == before.files
        &&& self.filtered_files == before.filtered_files
        &&& self.query == before.query
    }

    /// The selection one file down, not below the last listed file.
    pub fn move_down(&mut self)
        ensures
            final(self).moved_down_from(old(self)),
    {
        if self.selected < self.filtered_files.len().saturating_sub(1) {
            self.selected += 1;
        }
    }

    /// The file that is selected, if the selection is a listed file that
    /// exists.
    pub fn get_selected_file(&self) -> (r: Option<&GitFile>)
        ensures
            r is Some <==> self.selected < self.filtered_files@.len()
                && self.filtered_files@[self.selected as int].0 < self.files@.len(),
            r is Some ==> *r->Some_0 == self.files@[self.filtered_files@[self.selected as int].0 as int],
    {
        if self.selected < self.filtered_files.len() {
            let file_index = self.filtered_files[self.selected].0;
            if file_index < self.files.len() {
                return Some(&self.files[file_index]);
            }
        }
        None
    }

    /// Lists the files anew for the query.
    pub fn update_filter(&mut self)
        ensures
            final(self).listing_current(),
            final(self).files == old(self).files,
            final(self).query == old(self).query,
            final(self).selected == old(self).selected,
            final(self).query@.len() == 0 ==> final(self).filtered_files@.len() == final(self).files@.len(),
    {
        let ghost paths = display_paths(self.files@);
        let mut listing: Vec<(usize, Vec<usize>)> = Vec::new();
        if self.query.as_str().unicode_len() == 0 {
            let mut i: usize = 0;
            while i < self.files.len()
                invariant
                    i <= self.files@.len(),
                    listing@.len() == i,
                    forall|k: int|
                        0 <= k < i ==> (#[trigger] listing@[k]).0 == k && listing@[k].1@
                            == Seq::<usize>::empty(),
                decreases self.files.len() - i,
            {
                listing.push((i, Vec::new()));
                i += 1;
            }
            assert(listing_views(listing@) =~= filtered(paths, self.query@));
        } else {
            let mut candidates: Vec<Candidate> = Vec::new();
            let mut i: usize = 0;
            while i < self.files.len()
                invariant
                    i <= self.files@.len(),
                    paths == display_paths(self.files@),
                    candidate_views(candidates@) == candidates_of(paths, self.query@, i as int),
                decreases self.files.len() - i,
            {
                let ghost before = candidate_views(candidates@);
                match fuzzy_indices(self.files[i].display_path.as_str(), self.query.as_str()) {
                    Some((score, indices)) => {
                        candidates.push(Candidate { score, file_index: i, indices });
                        assert(candidate_views(candidates@) =~= before.push(
                            CandidateView { score, file_index: i, indices: indices@ },
                        ));
                    },
                    None => {},
                }
                i += 1;
            }
            listing = rank_matches(candidates);
        }
        self.filtered_files = listing;
    }
}

impl Clone for FilePickerState {
    fn clone(&self) -> (r: Self)
        ensures
            r.query@ == self.query@,
            r.selected == self.selected,
            r.files@ == self.files@,
            listing_views(r.filtered_files@) == listing_views(self.filtered_files@),
    {
        let mut files: Vec<GitFile> = Vec::new();
        let mut i: usize = 0;
        while i < self.files.len()
            invariant
                i <= self.files@.len(),
                files@.len() == i,
                forall|k: int| 0 <= k < i ==> files@[k] == self.files@[k],
            decreases self.files.len() - i,
        {
            files.push(self.files[i].clone());
            i += 1;
        }
        assert(files@ =~= self.files@);
        let mut filtered_files: Vec<(usize, Vec<usize>)> = Vec::new();
        let mut j: usize = 0;
        while j < self.filtered_files.len()
            invariant
                j <= self.filtered_files@.len(),
                filtered_files@.len() == j,
                forall|k: int|
                    0 <= k < j ==> (#[trigger] filtered_files@[k]).0 == self.filtered_files@[k].0
                        && filtered_files@[k].1@ == self.filtered_files@[k].1@,
            decreases self.filtered_files.len() - j,
        {
            let indices = copy_indices(&self.filtered_files[j].1);
            filtered_files.push((self.filtered_files[j].0, indices));
            j += 1;
        }
        assert(listing_views(filtered_files@) =~= listing_views(self.filtered_files@));
        FilePickerState { files, filtered_files, query: self.query.clone(), selected: self.selected }
    }
}

/// A copy of a list of positions.
fn copy_indices(indices: &Vec<usize>) -> (r: Vec<usize>)
    ensures
        r@ == indices@,
{
    let mut r: Vec<usize> = Vec::new();
    let mut i: usize = 0;
    while i < indices.len()
        invariant
            i <= indices@.len(),
            r@ == indices@.take(i as int),
        decreases indices.len() - i,
    {
        r.push(indices[i]);
        assert(indices@.take(i + 1) =~= indices@.take(i as int).push(indices@[i as int]));
        i += 1;
    }
    assert(indices@.take(indices@.len() as int) =~= indices@);
    r
}

/// The style of the characters of a path that the query matched.
pub open spec fn matched_style() -> Style {
    Style { fg: Some(Color::Yellow), bg: None, bold: true, italic: false, underlined: false }
}

/// The style of the other characters of a path.
pub open spec fn plain_style() -> Style {
    Style { fg: Some(Color::White), bg: None, bold: false, italic: false, underlined: false }
}

/// The spans of a path when the first `n` matched positions are dealt
/// with and the characters before `done` are rendered: a matched position
/// within the path, at or after `done`, gives the text before it, if any,
/// as a plain span and the character itself as a matched span. Other
/// positions give nothing.
pub open spec fn marked_spans(text: Seq<char>, indices: Seq<usize>, n: int) -> (Seq<StyledSpanView>, int)
    decreases n,
{
    if n <= 0 {
        (Seq::empty(), 0)
    } else {
        let (spans, done) = marked_spans(text, indices, n - 1);
        let index = indices[n - 1] as int;
        if index < text.len() {
            let before = if done < index {
                spans.push(
                    StyledSpanView { content: text.subrange(done, index), style: plain_style() },
                )
            } else {
                spans
            };
            (
                before.push(
                    StyledSpanView { content: seq![text[index]], style: matched_style() },
                ),
                index + 1,
            )
        } else {
            (spans, done)
        }
    }
}

/// A path cut into spans that show which characters the query matched. A
/// path without any span so far is one plain span.
pub open spec fn highlighted_path(text: Seq<char>, indices: Seq<usize>) -> Seq<StyledSpanView> {
    let (spans, done) = marked_spans(text, indices, indices.len() as int);
    let with_rest = if 0 <= done < text.len() {
        spans.push(StyledSpanView { content: text.skip(done), style: plain_style() })
    } else {
        spans
    };
    if with_rest.len() == 0 {
        seq![StyledSpanView { content: text, style: plain_style() }]
    } else {
        with_rest
    }
}

/// Cuts a path into spans that show which characters the query matched.
pub fn create_highlighted_text(text: &str, highlight_indices: &Vec<usize>) -> (spans: Vec<
    StyledSpan,
>)
    ensures
        span_views(spans@) == highlighted_path(text@, highlight_indices@),
{
    let plain = Style { fg: Some(Color::White), bg: None, bold: false, italic: false, underlined: false };
    let matched = Style { fg: Some(Color::Yellow), bg: None, bold: true, italic: false, underlined: false };
    let chars = chars_of(text);
    let mut spans: Vec<StyledSpan> = Vec::new();
    let mut last_idx: usize = 0;
    let mut n: usize = 0;
    while n < highlight_indices.len()
        invariant
            n <= highlight_indices@.len(),
            chars@ == text@,
            plain == plain_style(),
            matched == matched_style(),
            last_idx <= chars@.len(),
            (span_views(spans@), last_idx as int) == marked_spans(
                text@,
                highlight_indices@,
                n as int,
            ),
        decreases highlight_indices.len() - n,
    {
        let idx = highlight_indices[n];
        if idx < chars.len() {
            let ghost so_far = span_views(spans@);
            if last_idx < idx {
                let segment = substring(&chars, last_idx, idx);
                spans.push(StyledSpan { content: segment, style: plain });
                assert(span_views(spans@) =~= so_far.push(
                    StyledSpanView {
                        content: text@.subrange(last_idx as int, idx as int),
                        style: plain_style(),
                    },
                ));
            }
            let ghost with_before = span_views(spans@);
            let one = substring(&chars, idx, idx + 1);
            assert(one@ =~= seq![text@[idx as int]]);
            spans.push(StyledSpan { content: one, style: matched });
            assert(span_views(spans@) =~= with_before.push(
                StyledSpanView { content: seq![text@[idx as int]], style: matched_style() },
            ));
            last_idx = idx + 1;
        }
        n += 1;
    }
    if last_idx < chars.len() {
        let ghost so_far = span_views(spans@);
        let segment = substring(&chars, last_idx, chars.len());
        assert(segment@ =~= text@.skip(last_idx as int));
        spans.push(StyledSpan { content: segment, style: plain });
        assert(span_views(spans@) =~= so_far.push(
            StyledSpanView { content: text@.skip(last_idx as int), style: plain_style() },
        ));
    }
    if spans.len() == 0 {
        let whole = string_of(&chars);
        spans.push(StyledSpan { content: whole, style: plain });
        assert(span_views(spans@) =~= seq![
            StyledSpanView { content: text@, style: plain_style() },
        ]);
    }
    spans
}

} // verus!
