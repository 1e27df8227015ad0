//! Moving from one changed line to the next or the previous one.

use vstd::prelude::*;

verus! {

/// Every entry is larger than the one before.
pub open spec fn strictly_increasing(changes: Seq<usize>) -> bool {
    forall|a: int, b: int|
        0 <= a < b < changes.len() ==> (#[trigger] changes[a]) < (#[trigger] changes[b])
}

/// `found` is the position in `changes` of the first changed line after
/// line `current`, or nothing if no changed line comes after it.
pub open spec fn is_next_change(changes: Seq<usize>, current: usize, found: Option<usize>) -> bool {
    match found {
        Some(k) => {
            &&& k < changes.len()
            &&& changes[k as int] > current
            &&& forall|i: int| 0 <= i < k ==> (#[trigger] changes[i]) <= current
        },
        None => forall|i: int| 0 <= i < changes.len() ==> (#[trigger] changes[i]) <= current,
    }
}

/// `found` is the position in `changes` of the last changed line before
/// line `current`, or nothing if no changed line comes before it.
pub open spec fn is_previous_change(
    changes: Seq<usize>,
    current: usize,
    found: Option<usize>,
) -> bool {
    match found {
        Some(k) => {
            &&& k < changes.len()
            &&& changes[k as int] < current
            &&& forall|i: int| k < i < changes.len() ==> (#[trigger] changes[i]) >= current
        },
        None => forall|i: int| 0 <= i < changes.len() ==> (#[trigger] changes[i]) >= current,
    }
}

/// Where a search by halving for `line` ends, between the positions `low`
/// and `high` of `changes`: the middle entry is compared with `line`, and
/// the search goes on in the half after it if it is below `line`, and in
/// the half before it otherwise.
pub open spec fn halving(changes: Seq<usize>, line: usize, low: int, high: int) -> int
    decreases high - low,
{
    if low >= high {
        low
    } else {
        let mid = low + (high - low) / 2;
        if changes[mid] < line {
            halving(changes, line, mid + 1, high)
        } else {
            halving(changes, line, low, mid)
        }
    }
}

/// The position that a jump to the next change goes to from line `current`:
/// the place where halving ends, or the one after it if `current` itself
/// stands there; nothing if that is past the end. This is what is found in
/// any list; `law_halving_finds_the_next_change` says what it is in a
/// change index.
pub open spec fn next_change_of(changes: Seq<usize>, current: usize) -> Option<usize> {
    let k = halving(changes, current, 0, changes.len() as int);
    let next = if 0 <= k < changes.len() && changes[k] == current {
        k + 1
    } else {
        k
    };
    if 0 <= next < changes.len() {
        Some(next as usize)
    } else {
        None
    }
}

/// The position that a jump to the previous change goes to from line
/// `current`: the one before the place where halving ends; nothing if
/// halving ends at the start. This is what is found in any list;
/// `law_halving_finds_the_previous_change` says what it is in a change
/// index.
pub open spec fn previous_change_of(changes: Seq<usize>, current: usize) -> Option<usize> {
    let k = halving(changes, current, 0, changes.len() as int);
    if 0 < k <= changes.len() {
        Some((k - 1) as usize)
    } else {
        None
    }
}

/// Halving stays between its bounds.
pub proof fn lemma_halving_bounds(changes: Seq<usize>, line: usize, low: int, high: int)
    requires
        0 <= low <= high <= changes.len(),
    ensures
        low <= halving(changes, line, low, high) <= high,
    decreases high - low,
{
    if low < high {
        let mid = low + (high - low) / 2;
        if changes[mid] < line {
            lemma_halving_bounds(changes, line, mid + 1, high);
        } else {
            lemma_halving_bounds(changes, line, low, mid);
        }
    }
}

/// In a strictly increasing list halving ends at the first entry that is
/// not below `line`.
pub proof fn lemma_halving_splits(changes: Seq<usize>, line: usize, low: int, high: int)
    requires
        strictly_increasing(changes),
        0 <= low <= high <= changes.len(),
        forall|i: int| 0 <= i < low ==> (#[trigger] changes[i]) < line,
        forall|i: int| high <= i < changes.len() ==> (#[trigger] changes[i]) >= line,
    ensures
        forall|i: int|
            0 <= i < halving(changes, line, low, high) ==> (#[trigger] changes[i]) < line,
        forall|i: int|
            halving(changes, line, low, high) <= i < changes.len() ==> (#[trigger] changes[i])
                >= line,
    decreases high - low,
{
    if low < high {
        let mid = low + (high - low) / 2;
        if changes[mid] < line {
            assert forall|i: int| 0 <= i < mid + 1 implies (#[trigger] changes[i]) < line by {
                if i < mid {
                    assert(changes[i] < changes[mid]);
                }
            }
            lemma_halving_splits(changes, line, mid + 1, high);
        } else {
            assert forall|i: int| mid <= i < changes.len() implies (#[trigger] changes[i])
                >= line by {
                if i > mid {
                    assert(changes[mid] < changes[i]);
                }
            }
            lemma_halving_splits(changes, line, low, mid);
        }
    }
}

/// In a change index, what halving finds is the first changed line after
/// `current`, or nothing if there is none.
pub proof fn law_halving_finds_the_next_change(changes: Seq<usize>, current: usize)
    requires
        strictly_increasing(changes),
        changes.len() <= usize::MAX,
    ensures
        is_next_change(changes, current, next_change_of(changes, current)),
{
    let k = halving(changes, current, 0, changes.len() as int);
    lemma_halving_bounds(changes, current, 0, changes.len() as int);
    lemma_halving_splits(changes, current, 0, changes.len() as int);
    if k < changes.len() && changes[k] == current {
        if k + 1 < changes.len() {
            assert(changes[k] < changes[k + 1]);
        }
        assert forall|i: int| 0 <= i < k + 1 implies (#[trigger] changes[i]) <= current by {}
        assert forall|i: int| k + 1 <= i < changes.len() implies (#[trigger] changes[i])
            > current by {
            assert(changes[k] < changes[i]);
        }
    } else {
        assert forall|i: int| 0 <= i < k implies (#[trigger] changes[i]) <= current by {}
    }
}

/// In a change index, what halving finds is the last changed line before
/// `current`, or nothing if there is none.
pub proof fn law_halving_finds_the_previous_change(changes: Seq<usize>, current: usize)
    requires
        strictly_increasing(changes),
        changes.len() <= usize::MAX,
    ensures
        is_previous_change(changes, current, previous_change_of(changes, current)),
{
    lemma_halving_bounds(changes, current, 0, changes.len() as int);
    lemma_halving_splits(changes, current, 0, changes.len() as int);
}

/// The place where halving for `line` ends in the whole list. In a
/// strictly increasing list that is the position of the first entry that
/// is not below `line`, or the length if every entry is below it.
pub fn first_not_below(changes: &Vec<usize>, line: usize) -> (k: usize)
    ensures
        k == halving(changes@, line, 0, changes@.len() as int),
        k <= changes@.len(),
        strictly_increasing(changes@) ==> forall|i: int|
            0 <= i < k ==> (#[trigger] changes@[i]) < line,
        strictly_increasing(changes@) ==> forall|i: int|
            k <= i < changes@.len() ==> (#[trigger] changes@[i]) >= line,
{
    let mut low: usize = 0;
    let mut high: usize = changes.len();
    while low < high
        invariant
            low <= high <= changes@.len(),
            halving(changes@, line, low as int, high as int) == halving(
                changes@,
                line,
                0,
                changes@.len() as int,
            ),
        decreases high - low,
    {
        let mid = low + (high - low) / 2;
        if changes[mid] < line {
            low = mid + 1;
        } else {
            high = mid;
        }
    }
    proof {
        if strictly_increasing(changes@) {
            lemma_halving_splits(changes@, line, 0, changes@.len() as int);
        }
    }
    low
}

/// The position in `changes` that a jump to the next change goes to from
/// line `current`. In a change index, which is strictly increasing, that
/// is the first changed line after `current`. There is no wrap-around: past
/// the last change the answer is nothing.
pub fn next_change(changes: &Vec<usize>, current: usize) -> (found: Option<usize>)
    ensures
        found == next_change_of(changes@, current),
        found is Some ==> found->Some_0 < changes@.len(),
        strictly_increasing(changes@) ==> is_next_change(changes@, current, found),
{
    let length = changes.len();
    proof {
        if strictly_increasing(changes@) {
            assert(changes@.len() == length);
            law_halving_finds_the_next_change(changes@, current);
        }
    }
    let k = first_not_below(changes, current);
    let next = if k < changes.len() && changes[k] == current {
        k + 1
    } else {
        k
    };
    if next < changes.len() {
        Some(next)
    } else {
        None
    }
}

/// The position in `changes` that a jump to the previous change goes to
/// from line `current`. In a change index, which is strictly increasing,
/// that is the last changed line before `current`. There is no
/// wrap-around: before the first change the answer is nothing.
pub fn previous_change(changes: &Vec<usize>, current: usize) -> (found: Option<usize>)
    ensures
        found == previous_change_of(changes@, current),
        found is Some ==> found->Some_0 < changes@.len(),
        strictly_increasing(changes@) ==> is_previous_change(changes@, current, found),
{
    let length = changes.len();
    proof {
        if strictly_increasing(changes@) {
            assert(changes@.len() == length);
            law_halving_finds_the_previous_change(changes@, current);
        }
    }
    let k = first_not_below(changes, current);
    if k > 0 {
        Some(k - 1)
    } else {
        None
    }
}

/// There is one answer to "next change".
pub proof fn law_one_next_change(
    changes: Seq<usize>,
    current: usize,
    a: Option<usize>,
    b: Option<usize>,
)
    requires
        is_next_change(changes, current, a),
        is_next_change(changes, current, b),
    ensures
        a == b,
{
}

/// There is one answer to "previous change".
pub proof fn law_one_previous_change(
    changes: Seq<usize>,
    current: usize,
    a: Option<usize>,
    b: Option<usize>,
)
    requires
        is_previous_change(changes, current, a),
        is_previous_change(changes, current, b),
    ensures
        a == b,
{
}

/// Next and previous undo each other between two neighbouring changes: from
/// the change at position `k`, the next change is the one at `k + 1`, and
/// from there the previous change is the one at `k` again.
pub proof fn law_next_then_previous(changes: Seq<usize>, k: usize, next: usize)
    requires
        strictly_increasing(changes),
        next == k + 1,
        next < changes.len(),
    ensures
        is_next_change(changes, changes[k as int], Some(next)),
        is_previous_change(changes, changes[next as int], Some(k)),
{
    let here = k as int;
    assert forall|i: int| 0 <= i < here + 1 implies (#[trigger] changes[i]) <= changes[here] by {
        if i < here {
            assert(changes[i] < changes[here]);
        }
    }
    assert forall|i: int| here < i < changes.len() implies (#[trigger] changes[i]) >= changes[here
        + 1] by {
        if i > here + 1 {
            assert(changes[here + 1] < changes[i]);
        }
    }
    assert(changes[here] < changes[here + 1]);
}

/// At the ends there is no way on: from the last change there is no next
/// one, and from the first change no previous one.
pub proof fn law_no_wrap_around(changes: Seq<usize>)
    requires
        strictly_increasing(changes),
        changes.len() > 0,
    ensures
        is_next_change(changes, changes[changes.len() - 1], None),
        is_previous_change(changes, changes[0], None),
{
    let last = changes.len() - 1;
    assert forall|i: int| 0 <= i < changes.len() implies (#[trigger] changes[i]) <= changes[last] by {
        if i < last {
            assert(changes[i] < changes[last]);
        }
    }
    assert forall|i: int| 0 <= i < changes.len() implies (#[trigger] changes[i]) >= changes[0] by {
        if i > 0 {
            assert(changes[0] < changes[i]);
        }
    }
}

} // verus!
