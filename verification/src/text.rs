//! Character-level text helpers: conversion between strings and character
//! vectors, prefix tests, line splitting, decimal numbers and UTF-8 offsets.
//!
//! Every contract here is stated over `Seq<char>`, the view of a string.

use vstd::prelude::*;

verus! {

/// `String::push` appends one character to the end of the string.
pub assume_specification[ String::push ](s: &mut String, c: char)
    ensures
        final(s)@ == old(s)@.push(c),
;

/// `String::pop` removes the last character and hands it back; an empty
/// string stays empty and nothing is handed back.
pub assume_specification[ String::pop ](s: &mut String) -> (c: Option<char>)
    ensures
        old(s)@.len() > 0 ==> c == Some(old(s)@.last()) && final(s)@ == old(s)@.drop_last(),
        old(s)@.len() == 0 ==> c is None && final(s)@ == old(s)@,
;

/// The characters of `s`, in order.
pub fn chars_of(s: &str) -> (v: Vec<char>)
    ensures
        v@ == s@,
{
    let mut v: Vec<char> = Vec::new();
    for c in it: s.chars()
        invariant
            it.seq() == s@,
            v@ == it.seq().take(it.index() as int),
    {
        v.push(c);
    }
    assert(s@.take(s@.len() as int) == s@);
    v
}

/// The string made of `v[from..to]`; positions past the end are clamped.
pub fn substring(v: &Vec<char>, from: usize, to: usize) -> (s: String)
    ensures
        s@ == clamped_subrange(v@, from as int, to as int),
{
    let end: usize = if to < v.len() {
        to
    } else {
        v.len()
    };
    let mut s = String::new();
    if from >= end {
        return s;
    }
    let mut i: usize = from;
    while i < end
        invariant
            from <= i <= end <= v.len(),
            s@ == v@.subrange(from as int, i as int),
        decreases end - i,
    {
        s.push(v[i]);
        assert(v@.subrange(from as int, i + 1) == v@.subrange(from as int, i as int).push(v@[i as int]));
        i += 1;
    }
    s
}

/// The string made of all of `v`.
pub fn string_of(v: &Vec<char>) -> (s: String)
    ensures
        s@ == v@,
{
    let s = substring(v, 0, v.len());
    assert(v@.subrange(0, v@.len() as int) == v@);
    s
}

/// `s[from..to]` with both ends clamped into `0..=s.len()`; empty when the
/// clamped range is empty or reversed.
pub open spec fn clamped_subrange(s: Seq<char>, from: int, to: int) -> Seq<char> {
    let end = if to < s.len() {
        to
    } else {
        s.len() as int
    };
    if 0 <= from < end {
        s.subrange(from, end)
    } else {
        Seq::empty()
    }
}

/// `line` begins with `prefix`.
pub open spec fn has_prefix(line: Seq<char>, prefix: Seq<char>) -> bool {
    prefix.len() <= line.len() && line.take(prefix.len() as int) == prefix
}

/// Whether `line[from..]` begins with `prefix`.
pub fn starts_with_at(line: &Vec<char>, from: usize, prefix: &str) -> (r: bool)
    requires
        from <= line.len(),
    ensures
        r == has_prefix(line@.skip(from as int), prefix@),
{
    let p = chars_of(prefix);
    if p.len() > line.len() - from {
        return false;
    }
    let mut i: usize = 0;
    while i < p.len()
        invariant
            from <= line.len(),
            p.len() <= line.len() - from,
            i <= p.len(),
            p@ == prefix@,
            forall|k: int| 0 <= k < i ==> line@[from + k] == p@[k],
        decreases p.len() - i,
    {
        if line[from + i] != p[i] {
            assert(line@.skip(from as int).take(p@.len() as int)[i as int] != p@[i as int]);
            return false;
        }
        i += 1;
    }
    assert(line@.skip(from as int).take(p@.len() as int) =~= p@);
    true
}

/// Whether `line` begins with `prefix`.
pub fn starts_with(line: &Vec<char>, prefix: &str) -> (r: bool)
    ensures
        r == has_prefix(line@, prefix@),
{
    assert(line@.skip(0) == line@);
    starts_with_at(line, 0, prefix)
}

/// Index of the first line feed in `s`, or `s.len()` when there is none.
pub open spec fn first_newline(s: Seq<char>) -> int
    decreases s.len(),
{
    if s.len() == 0 {
        0
    } else if s[0] == '\n' {
        0
    } else {
        1 + first_newline(s.drop_first())
    }
}

/// `line` without one trailing carriage return, if it has one.
pub open spec fn strip_carriage_return(line: Seq<char>) -> Seq<char> {
    if line.len() > 0 && line.last() == '\r' {
        line.drop_last()
    } else {
        line
    }
}

/// The lines of `s`. A line ends at a line feed; the line feed, and a
/// carriage return directly before it, are not part of the line. Text after
/// the last line feed is a line of its own when it is not empty, and keeps a
/// trailing carriage return.
pub open spec fn split_lines(s: Seq<char>) -> Seq<Seq<char>>
    decreases s.len(),
{
    if s.len() == 0 {
        Seq::empty()
    } else {
        let n = first_newline(s);
        if n < 0 || n >= s.len() {
            seq![s]
        } else {
            seq![strip_carriage_return(s.take(n))] + split_lines(s.skip(n + 1))
        }
    }
}

/// `first_newline` is the position of the first line feed.
pub proof fn lemma_first_newline(s: Seq<char>, n: int)
    requires
        0 <= n <= s.len(),
        forall|k: int| 0 <= k < n ==> s[k] != '\n',
        n < s.len() ==> s[n] == '\n',
    ensures
        first_newline(s) == n,
    decreases s.len(),
{
    if s.len() == 0 {
    } else if n == 0 {
    } else {
        let t = s.drop_first();
        assert forall|k: int| 0 <= k < n - 1 implies t[k] != '\n' by {
            assert(t[k] == s[k + 1]);
        }
        lemma_first_newline(t, n - 1);
    }
}

/// Start and end of every line of `text`, in order: `text[start..end]` is
/// the line.
pub fn line_bounds(text: &Vec<char>) -> (bounds: Vec<(usize, usize)>)
    ensures
        bounds@.len() == split_lines(text@).len(),
        forall|i: int|
            0 <= i < bounds@.len() ==> {
                &&& (#[trigger] bounds@[i]).0 <= bounds@[i].1 <= text@.len()
                &&& text@.subrange(bounds@[i].0 as int, bounds@[i].1 as int) == split_lines(
                    text@,
                )[i]
            },
{
    let mut bounds: Vec<(usize, usize)> = Vec::new();
    let ghost mut done: Seq<Seq<char>> = Seq::empty();
    let mut start: usize = 0;
    let mut i: usize = 0;
    proof {
        assert(text@.skip(0) == text@);
        assert(done + split_lines(text@) == split_lines(text@));
    }
    while i < text.len()
        invariant
            start <= i <= text.len(),
            forall|k: int| start <= k < i ==> text@[k] != '\n',
            split_lines(text@) == done + split_lines(text@.skip(start as int)),
            bounds@.len() == done.len(),
            forall|j: int|
                0 <= j < bounds@.len() ==> {
                    &&& (#[trigger] bounds@[j]).0 <= bounds@[j].1 <= text@.len()
                    &&& text@.subrange(bounds@[j].0 as int, bounds@[j].1 as int) == done[j]
                },
        decreases text.len() - i,
    {
        if text[i] == '\n' {
            let end: usize = if i > start && text[i - 1] == '\r' {
                i - 1
            } else {
                i
            };
            proof {
                let rest = text@.skip(start as int);
                let n = i - start;
                assert forall|k: int| 0 <= k < n implies rest[k] != '\n' by {
                    assert(rest[k] == text@[start + k]);
                }
                lemma_first_newline(rest, n);
                assert(rest.take(n) == text@.subrange(start as int, i as int));
                assert(rest.skip(n + 1) == text@.skip(i + 1));
                let whole = text@.subrange(start as int, i as int);
                assert(strip_carriage_return(whole) == text@.subrange(start as int, end as int))
                    by {
                    if i > start && text@[i - 1] == '\r' {
                        assert(whole.last() == text@[i - 1]);
                        assert(whole.drop_last() == text@.subrange(start as int, end as int));
                    } else if i > start {
                        assert(whole.last() == text@[i - 1]);
                    }
                }
                assert(split_lines(rest) == seq![strip_carriage_return(whole)] + split_lines(
                    text@.skip(i + 1),
                ));
                let prev = done;
                done = done.push(strip_carriage_return(whole));
                assert(prev + (seq![strip_carriage_return(whole)] + split_lines(
                    text@.skip(i + 1),
                )) == done + split_lines(text@.skip(i + 1)));
            }
            bounds.push((start, end));
            start = i + 1;
        }
        i += 1;
    }
    proof {
        let rest = text@.skip(start as int);
        if start < text.len() {
            let n = text.len() - start;
            assert forall|k: int| 0 <= k < n implies rest[k] != '\n' by {
                assert(rest[k] == text@[start + k]);
            }
            lemma_first_newline(rest, n as int);
            assert(split_lines(rest) == seq![rest]);
            assert(rest == text@.subrange(start as int, text@.len() as int));
            let prev = done;
            done = done.push(rest);
            assert(prev + seq![rest] == done);
        } else {
            assert(rest.len() == 0);
            assert(done + Seq::<Seq<char>>::empty() == done);
        }
    }
    if start < text.len() {
        bounds.push((start, text.len()));
    }
    bounds
}

/// `c` is one of the ten ASCII digits.
pub open spec fn is_digit(c: char) -> bool {
    '0' <= c <= '9'
}

/// The number that the ASCII digit `c` stands for.
pub open spec fn digit_value(c: char) -> nat {
    (c as u32 - '0' as u32) as nat
}

/// Every character of `s` is an ASCII digit.
pub open spec fn all_digits(s: Seq<char>) -> bool {
    forall|i: int| 0 <= i < s.len() ==> is_digit(#[trigger] s[i])
}

/// The number written by the digits `s`, most significant first; 0 for the
/// empty sequence.
pub open spec fn digits_value(s: Seq<char>) -> nat
    decreases s.len(),
{
    if s.len() == 0 {
        0
    } else {
        digits_value(s.drop_last()) * 10 + digit_value(s.last())
    }
}

/// The unsigned number that `s` writes in decimal, if it is at most `max`:
/// an optional `+`, then one or more ASCII digits and nothing else.
pub open spec fn parse_unsigned(s: Seq<char>, max: nat) -> Option<nat> {
    let body = if s.len() > 0 && s[0] == '+' {
        s.drop_first()
    } else {
        s
    };
    if body.len() == 0 || !all_digits(body) || digits_value(body) > max {
        None
    } else {
        Some(digits_value(body))
    }
}

/// A prefix of a digit string never writes a larger number than the string.
pub proof fn lemma_digits_value_prefix(s: Seq<char>, k: int)
    requires
        0 <= k <= s.len(),
    ensures
        digits_value(s.take(k)) <= digits_value(s),
    decreases s.len() - k,
{
    if k == s.len() {
        assert(s.take(k) == s);
    } else {
        lemma_digits_value_prefix(s, k + 1);
        assert(s.take(k + 1).drop_last() == s.take(k));
    }
}

/// Reads `text[from..to]` as an unsigned decimal number of at most `max`.
pub fn parse_decimal(text: &Vec<char>, from: usize, to: usize, max: u64) -> (r: Option<u64>)
    requires
        from <= to <= text.len(),
    ensures
        r == match parse_unsigned(text@.subrange(from as int, to as int), max as nat) {
            Some(n) => Some(n as u64),
            None => None,
        },
{
    let ghost s = text@.subrange(from as int, to as int);
    let first: usize = if from < to && text[from] == '+' {
        from + 1
    } else {
        from
    };
    let ghost body = text@.subrange(first as int, to as int);
    proof {
        if from < to && text@[from as int] == '+' {
            assert(s[0] == '+');
            assert(s.drop_first() == body);
        } else if from < to {
            assert(s[0] == text@[from as int]);
            assert(s == body);
        } else {
            assert(s == body);
        }
    }
    if first == to {
        return None;
    }
    let mut acc: u64 = 0;
    let mut i: usize = first;
    while i < to
        invariant
            first <= i <= to <= text.len(),
            first < to,
            s == text@.subrange(from as int, to as int),
            body == text@.subrange(first as int, to as int),
            body == (if s.len() > 0 && s[0] == '+' {
                s.drop_first()
            } else {
                s
            }),
            all_digits(body.take(i - first)),
            acc == digits_value(body.take(i - first)),
            acc <= max,
        decreases to - i,
    {
        let c = text[i];
        if !('0' <= c && c <= '9') {
            assert(body[i - first] == c);
            return None;
        }
        let d: u64 = (c as u32 - '0' as u32) as u64;
        let ghost next = body.take(i - first + 1);
        proof {
            assert(next.drop_last() == body.take(i - first));
            assert(next.last() == c);
            assert(digits_value(next) == acc * 10 + d);
            assert forall|k: int| 0 <= k < next.len() implies is_digit(#[trigger] next[k]) by {
                if k < i - first {
                    assert(body.take(i - first)[k] == next[k]);
                }
            }
        }
        if d > max || acc > (max - d) / 10 {
            proof {
                lemma_digits_value_prefix(body, i - first + 1);
            }
            // Whatever follows, the text writes no number up to `max`.
            return None;
        }
        acc = acc * 10 + d;
        i += 1;
    }
    assert(body.take(to - first) == body);
    Some(acc)
}

/// Number of bytes that `c` takes in UTF-8.
pub open spec fn utf8_width(c: char) -> nat {
    if (c as u32) < 0x80 {
        1
    } else if (c as u32) < 0x800 {
        2
    } else if (c as u32) < 0x10000 {
        3
    } else {
        4
    }
}

/// Number of bytes that `s` takes in UTF-8.
pub open spec fn utf8_len(s: Seq<char>) -> nat
    decreases s.len(),
{
    if s.len() == 0 {
        0
    } else {
        utf8_len(s.drop_last()) + utf8_width(s.last())
    }
}

/// How many whole characters of `s` lie before byte `offset` of its UTF-8
/// form: the largest `k` with `utf8_len(s.take(k)) <= offset`.
pub open spec fn char_index_at(s: Seq<char>, offset: nat) -> nat
    decreases s.len(),
{
    if s.len() == 0 {
        0
    } else if utf8_len(s) <= offset {
        s.len()
    } else {
        char_index_at(s.drop_last(), offset)
    }
}

/// `utf8_len` grows with the prefix.
pub proof fn lemma_utf8_len_monotonic(s: Seq<char>, i: int, j: int)
    requires
        0 <= i <= j <= s.len(),
    ensures
        utf8_len(s.take(i)) <= utf8_len(s.take(j)),
        utf8_len(s.take(i)) + (j - i) <= utf8_len(s.take(j)),
    decreases j - i,
{
    if i < j {
        lemma_utf8_len_monotonic(s, i, j - 1);
        assert(s.take(j).drop_last() == s.take(j - 1));
    }
}

/// `char_index_at` is the largest prefix length whose bytes fit in `offset`.
pub proof fn lemma_char_index_at(s: Seq<char>, offset: nat, k: int)
    requires
        0 <= k <= s.len(),
        utf8_len(s.take(k)) <= offset,
        k < s.len() ==> utf8_len(s.take(k + 1)) > offset,
    ensures
        char_index_at(s, offset) == k,
    decreases s.len(),
{
    if s.len() == 0 {
    } else if k == s.len() {
        assert(s.take(k) == s);
    } else {
        lemma_utf8_len_monotonic(s, k + 1, s.len() as int);
        assert(s.take(s.len() as int) == s);
        let t = s.drop_last();
        assert(t.take(k) == s.take(k));
        if k < t.len() {
            assert(t.take(k + 1) == s.take(k + 1));
        }
        lemma_char_index_at(t, offset, k);
    }
}

/// `char_index_at` never decreases when the offset grows.
pub proof fn lemma_char_index_at_monotonic(s: Seq<char>, a: nat, b: nat)
    requires
        a <= b,
    ensures
        char_index_at(s, a) <= char_index_at(s, b) <= s.len(),
    decreases s.len(),
{
    if s.len() == 0 {
    } else if utf8_len(s) <= a {
    } else if utf8_len(s) <= b {
        lemma_char_index_at_monotonic(s.drop_last(), a, a);
    } else {
        lemma_char_index_at_monotonic(s.drop_last(), a, b);
    }
}

/// Byte `offset` of the UTF-8 form of `s` is where a character starts, or
/// the end of the text.
pub open spec fn is_char_boundary(s: Seq<char>, offset: nat) -> bool {
    exists|k: int| 0 <= k <= s.len() && #[trigger] utf8_len(s.take(k)) == offset
}

/// Two character boundaries, one before the other, are the starts of two
/// different characters, in the same order.
pub proof fn lemma_char_index_at_boundaries(s: Seq<char>, a: nat, b: nat)
    requires
        is_char_boundary(s, a),
        is_char_boundary(s, b),
        a < b,
    ensures
        char_index_at(s, a) < char_index_at(s, b),
{
    let i = choose|k: int| 0 <= k <= s.len() && #[trigger] utf8_len(s.take(k)) == a;
    let j = choose|k: int| 0 <= k <= s.len() && #[trigger] utf8_len(s.take(k)) == b;
    if i < s.len() {
        lemma_utf8_len_monotonic(s, i, i + 1);
    }
    if j < s.len() {
        lemma_utf8_len_monotonic(s, j, j + 1);
    }
    lemma_char_index_at(s, a, i);
    lemma_char_index_at(s, b, j);
    if j <= i {
        lemma_utf8_len_monotonic(s, j, i);
    }
}

/// Number of bytes that `c` takes in UTF-8.
pub fn char_width(c: char) -> (w: usize)
    ensures
        w == utf8_width(c),
{
    let v: u32 = c as u32;
    if v < 0x80 {
        1
    } else if v < 0x800 {
        2
    } else if v < 0x10000 {
        3
    } else {
        4
    }
}

/// Index of the character of `text` that byte `offset` of its UTF-8 form
/// falls in or starts; `text.len()` when the offset is at or past the end.
pub fn char_index_of_byte(text: &Vec<char>, offset: usize) -> (k: usize)
    ensures
        k == char_index_at(text@, offset as nat),
        k <= text.len(),
{
    let mut k: usize = 0;
    let mut bytes: usize = 0;
    while k < text.len()
        invariant
            k <= text.len(),
            bytes == utf8_len(text@.take(k as int)),
            bytes <= offset,
        decreases text.len() - k,
    {
        let w = char_width(text[k]);
        proof {
            assert(text@.take(k + 1).drop_last() == text@.take(k as int));
        }
        if w > offset - bytes {
            proof {
                lemma_char_index_at(text@, offset as nat, k as int);
            }
            return k;
        }
        bytes = bytes + w;
        k += 1;
    }
    proof {
        lemma_char_index_at(text@, offset as nat, k as int);
    }
    k
}

/// Whether `c` is white space: a character with the Unicode property
/// `White_Space`. These are the tab, the line feed, the vertical tab, the
/// form feed, the carriage return and the space, the next-line control, the
/// no-break space, the Ogham space mark, the spaces of fixed width from en
/// quad to hair space, the line and the paragraph separator, the narrow
/// no-break space, the medium mathematical space and the ideographic space.
pub open spec fn is_white_space(c: char) -> bool {
    let code = c as u32;
    ||| 0x0009 <= code <= 0x000D
    ||| code == 0x0020
    ||| code == 0x0085
    ||| code == 0x00A0
    ||| code == 0x1680
    ||| 0x2000 <= code <= 0x200A
    ||| code == 0x2028
    ||| code == 0x2029
    ||| code == 0x202F
    ||| code == 0x205F
    ||| code == 0x3000
}

/// `char::is_whitespace` tells whether the character has the Unicode
/// property `White_Space`.
pub assume_specification[ char::is_whitespace ](c: char) -> (r: bool)
    ensures
        r == is_white_space(c),
;

/// The property of being the character `c`.
pub open spec fn equals(c: char) -> spec_fn(char) -> bool {
    |x: char| x == c
}

/// The property of being no white space.
pub open spec fn non_whitespace() -> spec_fn(char) -> bool {
    |x: char| !is_white_space(x)
}

/// The property of being white space.
pub open spec fn whitespace() -> spec_fn(char) -> bool {
    |x: char| is_white_space(x)
}

/// The property of being no ASCII digit.
pub open spec fn non_digit() -> spec_fn(char) -> bool {
    |x: char| !is_digit(x)
}

/// Index of the first character of `s` that `p` holds of, or `s.len()` when
/// there is none.
pub open spec fn first_index(s: Seq<char>, p: spec_fn(char) -> bool) -> int
    decreases s.len(),
{
    if s.len() == 0 {
        0
    } else if p(s[0]) {
        0
    } else {
        1 + first_index(s.drop_first(), p)
    }
}

/// Index of the last character of `s` that `p` holds of, or -1 when there
/// is none.
pub open spec fn last_index(s: Seq<char>, p: spec_fn(char) -> bool) -> int
    decreases s.len(),
{
    if s.len() == 0 {
        -1
    } else if p(s.last()) {
        s.len() - 1
    } else {
        last_index(s.drop_last(), p)
    }
}

/// `first_index` is the position of the first character that `p` holds of.
pub proof fn lemma_first_index(s: Seq<char>, p: spec_fn(char) -> bool, n: int)
    requires
        0 <= n <= s.len(),
        forall|k: int| 0 <= k < n ==> !p(#[trigger] s[k]),
        n < s.len() ==> p(s[n]),
    ensures
        first_index(s, p) == n,
    decreases s.len(),
{
    if s.len() == 0 {
    } else if n == 0 {
    } else {
        let t = s.drop_first();
        assert(!p(s[0]));
        assert forall|k: int| 0 <= k < n - 1 implies !p(#[trigger] t[k]) by {
            assert(t[k] == s[k + 1]);
        }
        lemma_first_index(t, p, n - 1);
    }
}

/// `first_index` is never negative.
pub proof fn lemma_first_index_not_negative(s: Seq<char>, p: spec_fn(char) -> bool)
    ensures
        0 <= first_index(s, p),
    decreases s.len(),
{
    if s.len() > 0 && !p(s[0]) {
        lemma_first_index_not_negative(s.drop_first(), p);
    }
}

/// `last_index` is the position of the last character that `p` holds of.
pub proof fn lemma_last_index(s: Seq<char>, p: spec_fn(char) -> bool, n: int)
    requires
        -1 <= n < s.len(),
        forall|k: int| n < k < s.len() ==> !p(#[trigger] s[k]),
        n >= 0 ==> p(s[n]),
    ensures
        last_index(s, p) == n,
    decreases s.len(),
{
    if s.len() == 0 {
    } else if n == s.len() - 1 {
    } else {
        let t = s.drop_last();
        assert(!p(s[s.len() - 1]));
        assert forall|k: int| n < k < t.len() implies !p(#[trigger] t[k]) by {
            assert(t[k] == s[k]);
        }
        lemma_last_index(t, p, n);
    }
}

/// `last_index` lies within the sequence or is -1.
pub proof fn lemma_last_index_bounds(s: Seq<char>, p: spec_fn(char) -> bool)
    ensures
        -1 <= last_index(s, p) < s.len(),
    decreases s.len(),
{
    if s.len() > 0 && !p(s.last()) {
        lemma_last_index_bounds(s.drop_last(), p);
    }
}

/// Position in `text[from..to]` of the first `c`, counted from `from`; the
/// length `to - from` when there is none.
pub fn find_char(text: &Vec<char>, from: usize, to: usize, c: char) -> (n: usize)
    requires
        from <= to <= text.len(),
    ensures
        n == first_index(text@.subrange(from as int, to as int), equals(c)),
        n <= to - from,
        forall|k: int| from <= k < from + n ==> text@[k] != c,
        n < to - from ==> text@[from + n] == c,
{
    let ghost part = text@.subrange(from as int, to as int);
    let mut i: usize = from;
    while i < to && text[i] != c
        invariant
            from <= i <= to <= text.len(),
            forall|k: int| from <= k < i ==> text@[k] != c,
        decreases to - i,
    {
        i += 1;
    }
    proof {
        let p = equals(c);
        assert forall|k: int| 0 <= k < i - from implies !p(#[trigger] part[k]) by {
            assert(part[k] == text@[from + k]);
        }
        if i < to {
            assert(part[i - from] == text@[i as int]);
        }
        lemma_first_index(part, p, i - from);
    }
    i - from
}

/// Position in `text[from..to]` of the last `c`, counted from `from`, if
/// there is one.
pub fn rfind_char(text: &Vec<char>, from: usize, to: usize, c: char) -> (r: Option<usize>)
    requires
        from <= to <= text.len(),
    ensures
        match r {
            Some(n) => n == last_index(text@.subrange(from as int, to as int), equals(c))
                && n < to - from && text@[from + n] == c,
            None => last_index(text@.subrange(from as int, to as int), equals(c)) == -1,
        },
{
    let ghost part = text@.subrange(from as int, to as int);
    let ghost p = equals(c);
    let mut i: usize = to;
    while i > from && text[i - 1] != c
        invariant
            from <= i <= to <= text.len(),
            forall|k: int| i <= k < to ==> text@[k] != c,
        decreases i,
    {
        i -= 1;
    }
    proof {
        assert forall|k: int| i - from - 1 < k < part.len() implies !p(#[trigger] part[k]) by {
            assert(part[k] == text@[from + k]);
        }
        if i > from {
            assert(part[i - from - 1] == text@[i - 1]);
        }
        lemma_last_index(part, p, i - from - 1);
    }
    if i > from {
        Some(i - from - 1)
    } else {
        None
    }
}

/// `s` without the white space at its start and at its end.
pub open spec fn trimmed(s: Seq<char>) -> Seq<char> {
    let first = first_index(s, non_whitespace());
    let last = last_index(s, non_whitespace());
    if 0 <= first <= last < s.len() {
        s.subrange(first, last + 1)
    } else {
        Seq::empty()
    }
}

/// The bounds of `text[from..to]` without the white space at its start and
/// at its end.
pub fn trim_bounds(text: &Vec<char>, from: usize, to: usize) -> (r: (usize, usize))
    requires
        from <= to <= text.len(),
    ensures
        from <= r.0 <= r.1 <= to,
        text@.subrange(r.0 as int, r.1 as int) == trimmed(text@.subrange(from as int, to as int)),
{
    let ghost part = text@.subrange(from as int, to as int);
    let ghost p = non_whitespace();
    let mut a: usize = from;
    while a < to && text[a].is_whitespace()
        invariant
            from <= a <= to <= text.len(),
            forall|k: int| from <= k < a ==> is_white_space(text@[k]),
        decreases to - a,
    {
        a += 1;
    }
    let mut b: usize = to;
    while b > a && text[b - 1].is_whitespace()
        invariant
            a <= b <= to <= text.len(),
            a < to ==> !is_white_space(text@[a as int]) && a < b,
            forall|k: int| b <= k < to ==> is_white_space(text@[k]),
        decreases b,
    {
        b -= 1;
    }
    proof {
        assert forall|k: int| 0 <= k < a - from implies !p(#[trigger] part[k]) by {
            assert(part[k] == text@[from + k]);
        }
        if a < to {
            assert(part[a - from] == text@[a as int]);
        }
        lemma_first_index(part, p, a - from);
        if b > a {
            assert forall|k: int| b - from - 1 < k < part.len() implies !p(#[trigger] part[k]) by {
                assert(part[k] == text@[from + k]);
            }
            assert(part[b - from - 1] == text@[b - 1]);
            lemma_last_index(part, p, b - from - 1);
            assert(part.subrange(a - from, b - from) =~= text@.subrange(a as int, b as int));
        } else {
            lemma_last_index_bounds(part, p);
            assert(text@.subrange(a as int, b as int) =~= Seq::<char>::empty());
        }
    }
    (a, b)
}

/// The character that writes the digit `d`.
pub open spec fn digit_char(d: nat) -> char {
    if d == 0 {
        '0'
    } else if d == 1 {
        '1'
    } else if d == 2 {
        '2'
    } else if d == 3 {
        '3'
    } else if d == 4 {
        '4'
    } else if d == 5 {
        '5'
    } else if d == 6 {
        '6'
    } else if d == 7 {
        '7'
    } else if d == 8 {
        '8'
    } else {
        '9'
    }
}

/// `n` written in decimal, without leading zeros.
pub open spec fn decimal_text(n: nat) -> Seq<char>
    decreases n,
{
    if n < 10 {
        seq![digit_char(n)]
    } else {
        decimal_text(n / 10).push(digit_char(n % 10))
    }
}

/// The character that writes the digit `d`.
pub fn digit_to_char(d: u8) -> (c: char)
    requires
        d < 10,
    ensures
        c == digit_char(d as nat),
{
    if d == 0 {
        '0'
    } else if d == 1 {
        '1'
    } else if d == 2 {
        '2'
    } else if d == 3 {
        '3'
    } else if d == 4 {
        '4'
    } else if d == 5 {
        '5'
    } else if d == 6 {
        '6'
    } else if d == 7 {
        '7'
    } else if d == 8 {
        '8'
    } else {
        '9'
    }
}

/// Appends `n`, written in decimal, to `out`.
pub fn push_decimal(out: &mut String, n: u64)
    ensures
        final(out)@ == old(out)@ + decimal_text(n as nat),
    decreases n,
{
    if n >= 10 {
        push_decimal(out, n / 10);
    }
    let ghost before = out@;
    out.push(digit_to_char((n % 10) as u8));
    proof {
        if n >= 10 {
            assert(out@ =~= old(out)@ + decimal_text(n as nat));
        } else {
            assert(out@ =~= old(out)@ + decimal_text(n as nat));
        }
    }
}

/// `n` written in decimal.
pub fn decimal(n: u64) -> (s: String)
    ensures
        s@ == decimal_text(n as nat),
{
    let mut s = String::new();
    push_decimal(&mut s, n);
    assert(Seq::<char>::empty() + decimal_text(n as nat) =~= decimal_text(n as nat));
    s
}

/// `a`, then `b`.
pub fn concat2(a: &str, b: &str) -> (s: String)
    ensures
        s@ == a@ + b@,
{
    let mut s = a.to_owned();
    s.append(b);
    s
}

/// `a`, then `b`, then `c`.
pub fn concat3(a: &str, b: &str, c: &str) -> (s: String)
    ensures
        s@ == a@ + b@ + c@,
{
    let mut s = a.to_owned();
    s.append(b);
    s.append(c);
    s
}

/// Whether `needle` occurs in `s`.
pub open spec fn contains_text(s: Seq<char>, needle: Seq<char>) -> bool {
    exists|i: int| 0 <= i <= s.len() - needle.len() && #[trigger] s.subrange(i, i + needle.len()) == needle
}

/// Whether `needle` occurs in `text[from..to]`.
pub fn contains_at(text: &Vec<char>, from: usize, to: usize, needle: &str) -> (r: bool)
    requires
        from <= to <= text.len(),
    ensures
        r == contains_text(text@.subrange(from as int, to as int), needle@),
{
    let ghost part = text@.subrange(from as int, to as int);
    let n = chars_of(needle);
    if n.len() > to - from {
        return false;
    }
    let last: usize = to - n.len();
    let mut i: usize = from;
    while i <= last
        invariant
            from <= i <= last + 1,
            last == to - n.len(),
            from <= to <= text.len(),
            n.len() <= to - from,
            n@ == needle@,
            part == text@.subrange(from as int, to as int),
            forall|k: int|
                0 <= k < i - from ==> #[trigger] part.subrange(k, k + n@.len()) != n@,
        decreases last + 1 - i,
    {
        let mut j: usize = 0;
        while j < n.len() && text[i + j] == n[j]
            invariant
                j <= n.len(),
                i + n.len() <= to <= text.len(),
                forall|k: int| 0 <= k < j ==> text@[i + k] == n@[k],
            decreases n.len() - j,
        {
            j += 1;
        }
        if j == n.len() {
            assert(part.subrange(i - from, i - from + n@.len()) =~= n@);
            return true;
        }
        assert(part.subrange(i - from, i - from + n@.len())[j as int] == text@[i + j]);
        i += 1;
    }
    false
}

/// Position of the first occurrence of `needle` in `s` at or after `i`, or
/// -1 when there is none.
pub open spec fn occurrence_from(s: Seq<char>, needle: Seq<char>, i: int) -> int
    decreases s.len() - i + 1,
{
    if 0 <= i && i + needle.len() <= s.len() {
        if s.subrange(i, i + needle.len()) == needle {
            i
        } else {
            occurrence_from(s, needle, i + 1)
        }
    } else {
        -1
    }
}

/// Position in `text[from..to]` of the first occurrence of `needle`,
/// counted from `from`, if there is one.
pub fn find_text(text: &Vec<char>, from: usize, to: usize, needle: &str) -> (r: Option<usize>)
    requires
        from <= to <= text.len(),
    ensures
        match r {
            Some(n) => n == occurrence_from(text@.subrange(from as int, to as int), needle@, 0)
                && n + needle@.len() <= to - from,
            None => occurrence_from(text@.subrange(from as int, to as int), needle@, 0) == -1,
        },
{
    let ghost part = text@.subrange(from as int, to as int);
    let n = chars_of(needle);
    if n.len() > to - from {
        return None;
    }
    let last: usize = to - n.len();
    let mut i: usize = from;
    while i <= last
        invariant
            from <= i <= last + 1,
            last == to - n.len(),
            from <= to <= text.len(),
            n.len() <= to - from,
            n@ == needle@,
            part == text@.subrange(from as int, to as int),
            occurrence_from(part, n@, 0) == occurrence_from(part, n@, i - from),
        decreases last + 1 - i,
    {
        let mut j: usize = 0;
        while j < n.len() && text[i + j] == n[j]
            invariant
                j <= n.len(),
                i + n.len() <= to <= text.len(),
                forall|k: int| 0 <= k < j ==> text@[i + k] == n@[k],
            decreases n.len() - j,
        {
            j += 1;
        }
        if j == n.len() {
            assert(part.subrange(i - from, i - from + n@.len()) =~= n@);
            return Some(i - from);
        }
        assert(part.subrange(i - from, i - from + n@.len())[j as int] == text@[i + j]);
        i += 1;
    }
    None
}

/// The parts of `s` between the occurrences of `c`. There is always at
/// least one part; parts may be empty.
pub open spec fn split_on(s: Seq<char>, c: char) -> Seq<Seq<char>>
    decreases s.len(),
{
    let n = first_index(s, equals(c));
    if n < 0 || n >= s.len() {
        seq![s]
    } else {
        seq![s.take(n)] + split_on(s.skip(n + 1), c)
    }
}

/// Start and end of every part of `text[from..to]` between the occurrences
/// of `c`, in order.
pub fn split_bounds(text: &Vec<char>, from: usize, to: usize, c: char) -> (bounds: Vec<
    (usize, usize),
>)
    requires
        from <= to <= text.len(),
    ensures
        bounds@.len() == split_on(text@.subrange(from as int, to as int), c).len(),
        bounds@.len() >= 1,
        forall|i: int|
            0 <= i < bounds@.len() ==> {
                &&& from <= (#[trigger] bounds@[i]).0 <= bounds@[i].1 <= to
                &&& text@.subrange(bounds@[i].0 as int, bounds@[i].1 as int) == split_on(
                    text@.subrange(from as int, to as int),
                    c,
                )[i]
            },
{
    let ghost whole = text@.subrange(from as int, to as int);
    let mut bounds: Vec<(usize, usize)> = Vec::new();
    let ghost mut done: Seq<Seq<char>> = Seq::empty();
    let mut start: usize = from;
    proof {
        assert(text@.subrange(start as int, to as int) == whole);
        assert(done + split_on(whole, c) =~= split_on(whole, c));
    }
    loop
        invariant_except_break
            split_on(whole, c) == done + split_on(text@.subrange(start as int, to as int), c),
            bounds@.len() == done.len(),
            forall|j: int|
                0 <= j < bounds@.len() ==> {
                    &&& from <= (#[trigger] bounds@[j]).0 <= bounds@[j].1 <= to
                    &&& text@.subrange(bounds@[j].0 as int, bounds@[j].1 as int) == done[j]
                },
        invariant
            from <= start <= to <= text.len(),
            whole == text@.subrange(from as int, to as int),
        ensures
            bounds@.len() == split_on(whole, c).len(),
            bounds@.len() >= 1,
            forall|j: int|
                0 <= j < bounds@.len() ==> {
                    &&& from <= (#[trigger] bounds@[j]).0 <= bounds@[j].1 <= to
                    &&& text@.subrange(bounds@[j].0 as int, bounds@[j].1 as int) == split_on(
                        whole,
                        c,
                    )[j]
                },
        decreases to - start,
    {
        let ghost rest = text@.subrange(start as int, to as int);
        let n = find_char(text, start, to, c);
        let end = start + n;
        let ghost part = text@.subrange(start as int, end as int);
        bounds.push((start, end));
        proof {
            assert(rest.take(n as int) =~= part);
        }
        if end >= to {
            proof {
                assert(part =~= rest);
                assert(split_on(rest, c) == seq![rest]);
                let previous = done;
                done = done.push(rest);
                assert(previous + seq![rest] =~= done);
            }
            break ;
        }
        proof {
            assert(rest.skip(n + 1) =~= text@.subrange(end + 1, to as int));
            assert(split_on(rest, c) == seq![part] + split_on(
                text@.subrange(end + 1, to as int),
                c,
            ));
            let previous = done;
            done = done.push(part);
            assert(previous + (seq![part] + split_on(text@.subrange(end + 1, to as int), c))
                =~= done + split_on(text@.subrange(end + 1, to as int), c));
        }
        start = end + 1;
    }
    bounds
}

/// A copy of every string of `v`.
pub fn clone_strings(v: &Vec<String>) -> (r: Vec<String>)
    ensures
        r@.len() == v@.len(),
        forall|i: int| 0 <= i < v@.len() ==> (#[trigger] r@[i])@ == v@[i]@,
{
    let mut r: Vec<String> = Vec::new();
    let mut i: usize = 0;
    while i < v.len()
        invariant
            i <= v.len(),
            r@.len() == i,
            forall|k: int| 0 <= k < i ==> (#[trigger] r@[k])@ == v@[k]@,
        decreases v.len() - i,
    {
        r.push(v[i].clone());
        i += 1;
    }
    r
}

/// Whether two strings have the same characters.
pub fn same_text(a: &str, b: &str) -> (r: bool)
    ensures
        r == (a@ == b@),
{
    let x = chars_of(a);
    let y = chars_of(b);
    if x.len() != y.len() {
        return false;
    }
    let mut i: usize = 0;
    while i < x.len()
        invariant
            i <= x.len(),
            x.len() == y.len(),
            x@ == a@,
            y@ == b@,
            forall|k: int| 0 <= k < i ==> x@[k] == y@[k],
        decreases x.len() - i,
    {
        if x[i] != y[i] {
            assert(a@[i as int] != b@[i as int]);
            return false;
        }
        i += 1;
    }
    assert(x@ =~= y@);
    true
}

/// The words of `s`: the runs of characters that are no white space.
pub open spec fn words(s: Seq<char>) -> Seq<Seq<char>>
    decreases s.len(),
{
    let a = first_index(s, non_whitespace());
    if a < 0 || a >= s.len() {
        Seq::empty()
    } else {
        let rest = s.skip(a);
        let b = first_index(rest, whitespace());
        if b <= 0 || b > rest.len() {
            seq![rest]
        } else {
            seq![rest.take(b)] + words(rest.skip(b))
        }
    }
}

/// Start and end of every word of `text[from..to]`, in order.
pub fn word_bounds(text: &Vec<char>, from: usize, to: usize) -> (bounds: Vec<(usize, usize)>)
    requires
        from <= to <= text.len(),
    ensures
        bounds@.len() == words(text@.subrange(from as int, to as int)).len(),
        forall|i: int|
            0 <= i < bounds@.len() ==> {
                &&& from <= (#[trigger] bounds@[i]).0 < bounds@[i].1 <= to
                &&& text@.subrange(bounds@[i].0 as int, bounds@[i].1 as int) == words(
                    text@.subrange(from as int, to as int),
                )[i]
            },
{
    let ghost whole = text@.subrange(from as int, to as int);
    let mut bounds: Vec<(usize, usize)> = Vec::new();
    let ghost mut done: Seq<Seq<char>> = Seq::empty();
    let mut start: usize = from;
    proof {
        assert(done + words(whole) =~= words(whole));
    }
    loop
        invariant_except_break
            words(whole) == done + words(text@.subrange(start as int, to as int)),
            bounds@.len() == done.len(),
            forall|j: int|
                0 <= j < bounds@.len() ==> {
                    &&& from <= (#[trigger] bounds@[j]).0 < bounds@[j].1 <= to
                    &&& text@.subrange(bounds@[j].0 as int, bounds@[j].1 as int) == done[j]
                },
        invariant
            from <= start <= to <= text.len(),
            whole == text@.subrange(from as int, to as int),
        ensures
            bounds@.len() == words(whole).len(),
            forall|j: int|
                0 <= j < bounds@.len() ==> {
                    &&& from <= (#[trigger] bounds@[j]).0 < bounds@[j].1 <= to
                    &&& text@.subrange(bounds@[j].0 as int, bounds@[j].1 as int) == words(
                        whole,
                    )[j]
                },
        decreases to - start,
    {
        let ghost part = text@.subrange(start as int, to as int);
        let mut a: usize = start;
        while a < to && text[a].is_whitespace()
            invariant
                start <= a <= to <= text.len(),
                forall|k: int| start <= k < a ==> is_white_space(text@[k]),
            decreases to - a,
        {
            a += 1;
        }
        proof {
            let p = non_whitespace();
            assert forall|k: int| 0 <= k < a - start implies !p(#[trigger] part[k]) by {
                assert(part[k] == text@[start + k]);
            }
            if a < to {
                assert(part[a - start] == text@[a as int]);
            }
            lemma_first_index(part, p, a - start);
        }
        if a >= to {
            proof {
                assert(words(part) =~= Seq::<Seq<char>>::empty());
                assert(done + Seq::<Seq<char>>::empty() =~= done);
            }
            break ;
        }
        let ghost rest = part.skip(a - start);
        let mut b: usize = a;
        while b < to && !text[b].is_whitespace()
            invariant
                a <= b <= to <= text.len(),
                forall|k: int| a <= k < b ==> !is_white_space(text@[k]),
            decreases to - b,
        {
            b += 1;
        }
        proof {
            let q = whitespace();
            assert(rest =~= text@.subrange(a as int, to as int));
            assert forall|k: int| 0 <= k < b - a implies !q(#[trigger] rest[k]) by {
                assert(rest[k] == text@[a + k]);
            }
            if b < to {
                assert(rest[b - a] == text@[b as int]);
            }
            lemma_first_index(rest, q, b - a);
            assert(b > a);
            let word = text@.subrange(a as int, b as int);
            assert(rest.take(b - a) =~= word);
            assert(rest.skip(b - a) =~= text@.subrange(b as int, to as int));
            if b - a == rest.len() {
                assert(rest =~= word);
                assert(words(text@.subrange(b as int, to as int)) =~= Seq::<
                    Seq<char>,
                >::empty()) by {
                    let tail = text@.subrange(b as int, to as int);
                    assert(tail.len() == 0);
                }
                assert(words(part) =~= seq![word] + words(text@.subrange(b as int, to as int)));
            } else {
                assert(words(part) == seq![word] + words(text@.subrange(b as int, to as int)));
            }
            let previous = done;
            done = done.push(word);
            assert(previous + (seq![word] + words(text@.subrange(b as int, to as int))) =~= done
                + words(text@.subrange(b as int, to as int)));
        }
        bounds.push((a, b));
        start = b;
    }
    bounds
}

/// The views of a sequence of strings.
pub open spec fn strings_view(v: Seq<String>) -> Seq<Seq<char>> {
    Seq::new(v.len(), |i: int| v[i]@)
}

/// The views of a sequence of pairs of strings.
pub open spec fn pairs_view(v: Seq<(String, String)>) -> Seq<(Seq<char>, Seq<char>)> {
    Seq::new(v.len(), |i: int| (v[i].0@, v[i].1@))
}

/// The copy of `text[from..to]` as a string.
pub fn slice_string(text: &Vec<char>, from: usize, to: usize) -> (s: String)
    requires
        from <= to <= text.len(),
    ensures
        s@ == text@.subrange(from as int, to as int),
{
    let s = substring(text, from, to);
    assert(s@ =~= text@.subrange(from as int, to as int));
    s
}

} // verus!
