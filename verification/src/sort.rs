//! Sorting the table of unwind entries by the start of their ranges.
//!
//! The sort is a merge sort. It moves the entries and copies none, and it
//! is stable: it keeps entries with equal starts in the order in which they
//! came.

use crate::entry::{sorted_by_start, UnwindEntry};
use vstd::prelude::*;
use vstd::seq_lib::lemma_multiset_commutative;

verus! {

/// Whether the entries come in the reverse order of their starts.
pub open spec fn descending_by_start(entries: Seq<UnwindEntry<'_>>) -> bool {
    forall|i: int, j: int|
        0 <= i <= j < entries.len() ==> entries[i].range_start() >= entries[j].range_start()
}

/// Whether no entry of `low` starts after an entry of `high`.
pub open spec fn all_at_or_before(low: Seq<UnwindEntry<'_>>, high: Seq<UnwindEntry<'_>>) -> bool {
    forall|i: int, j: int|
        0 <= i < low.len() && 0 <= j < high.len() ==> low[i].range_start() <= high[j].range_start()
}

/// The test for an entry that starts at the given address.
pub open spec fn starts_at<'a>(start: usize) -> spec_fn(UnwindEntry<'a>) -> bool {
    |entry: UnwindEntry<'a>| entry.range_start() == start
}

/// The entries that start at the given address, in their order.
pub open spec fn starting_at<'a>(entries: Seq<UnwindEntry<'a>>, start: usize) -> Seq<
    UnwindEntry<'a>,
> {
    entries.filter(starts_at(start))
}

/// Whether entries that start at the same address come in `after` in the
/// order in which they come in `before`.
pub open spec fn keeps_order_of_equals<'a>(
    before: Seq<UnwindEntry<'a>>,
    after: Seq<UnwindEntry<'a>>,
) -> bool {
    forall|start: usize| #[trigger] starting_at(after, start) == starting_at(before, start)
}

/// No entry starts at an address that all entries start after.
pub proof fn lemma_none_starting_at<'a>(entries: Seq<UnwindEntry<'a>>, start: usize)
    requires
        forall|i: int| 0 <= i < entries.len() ==> entries[i].range_start() != start,
    ensures
        starting_at(entries, start) =~= Seq::<UnwindEntry<'a>>::empty(),
    decreases entries.len(),
{
    reveal(Seq::filter);
    if entries.len() > 0 {
        lemma_none_starting_at(entries.drop_last(), start);
    }
}

/// A table without entries holds nothing.
pub proof fn lemma_empty_has_nothing(entries: Seq<UnwindEntry<'_>>)
    requires
        entries.len() == 0,
    ensures
        entries.to_multiset() =~= vstd::multiset::Multiset::empty(),
{
    broadcast use vstd::seq_lib::group_to_multiset_ensures;
    broadcast use vstd::multiset::group_multiset_axioms;
}

/// The entries in the reverse of their order.
pub fn reverse<'a>(entries: Vec<UnwindEntry<'a>>) -> (reversed: Vec<UnwindEntry<'a>>)
    ensures
        reversed@ == entries@.reverse(),
{
    let ghost all = entries@;
    let mut entries = entries;
    let mut reversed: Vec<UnwindEntry<'a>> = Vec::new();
    while entries.len() > 0
        invariant
            entries@ == all.take(entries.len() as int),
            reversed.len() + entries.len() == all.len(),
            forall|k: int| 0 <= k < reversed.len() ==> reversed[k] == all[all.len() - 1 - k],
        decreases entries.len(),
    {
        let last = entries.pop().unwrap();
        reversed.push(last);
    }
    reversed
}

/// Merge two sorted tables into one: the entries of both, in the order of
/// their starts, and with each entry of `left` before the entries of `right`
/// that start where it starts.
pub fn merge<'a>(left: Vec<UnwindEntry<'a>>, right: Vec<UnwindEntry<'a>>) -> (merged: Vec<
    UnwindEntry<'a>,
>)
    requires
        sorted_by_start(left@),
        sorted_by_start(right@),
    ensures
        sorted_by_start(merged@),
        merged@.to_multiset() == left@.to_multiset().add(right@.to_multiset()),
        forall|start: usize| #[trigger]
            starting_at(merged@, start) == starting_at(left@, start) + starting_at(
                right@,
                start,
            ),
{
    let ghost left_all = left@;
    let ghost right_all = right@;
    let mut left = left;
    let mut right = right;
    // The entries that are merged so far, the last of the order first.
    let mut down: Vec<UnwindEntry<'a>> = Vec::new();
    // The same entries in the order that they end in.
    let ghost mut tail = Seq::<UnwindEntry<'a>>::empty();
    proof {
        lemma_empty_has_nothing(down@);
    }
    while left.len() > 0 || right.len() > 0
        invariant
            left@ == left_all.take(left.len() as int),
            right@ == right_all.take(right.len() as int),
            left.len() <= left_all.len(),
            right.len() <= right_all.len(),
            sorted_by_start(left_all),
            sorted_by_start(right_all),
            descending_by_start(down@),
            all_at_or_before(left@, down@),
            all_at_or_before(right@, down@),
            down@.to_multiset().add(left@.to_multiset()).add(right@.to_multiset())
                == left_all.to_multiset().add(right_all.to_multiset()),
            tail == down@.reverse(),
            forall|start: usize| #[trigger]
                starting_at(tail, start) == starting_at(left_all.skip(left.len() as int), start)
                    + starting_at(right_all.skip(right.len() as int), start),
            forall|i: int, j: int|
                left.len() <= i < left_all.len() && 0 <= j < right.len()
                    ==> left_all[i].range_start() > right_all[j].range_start(),
        decreases left.len() + right.len(),
    {
        let from_right = if right.len() == 0 {
            false
        } else if left.len() == 0 {
            true
        } else {
            left[left.len() - 1].start() <= right[right.len() - 1].start()
        };
        let ghost left_before = left@;
        let ghost right_before = right@;
        let ghost tail_before = tail;
        if from_right {
            let entry = right.pop().unwrap();
            down.push(entry);
            proof {
                broadcast use vstd::seq_lib::group_to_multiset_ensures;

                assert(right_before =~= right@.push(entry));
                tail = seq![entry] + tail_before;
                let left_done = left_all.skip(left.len() as int);
                let right_done = right_all.skip(right_before.len() as int);
                assert(right_all.skip(right.len() as int) =~= seq![entry] + right_done);
                assert forall|start: usize| #[trigger]
                    starting_at(tail, start) == starting_at(left_done, start) + starting_at(
                        right_all.skip(right.len() as int),
                        start,
                    ) by {
                    right_done.lemma_filter_prepend(entry, starts_at(start));
                    assert(starting_at(tail_before, start) == starting_at(left_done, start)
                        + starting_at(right_done, start));
                    if entry.range_start() == start {
                        lemma_none_starting_at(left_done, start);
                    }
                }
            }
        } else {
            let entry = left.pop().unwrap();
            down.push(entry);
            proof {
                broadcast use vstd::seq_lib::group_to_multiset_ensures;

                assert(left_before =~= left@.push(entry));
                tail = seq![entry] + tail_before;
                let left_done = left_all.skip(left_before.len() as int);
                let right_done = right_all.skip(right.len() as int);
                assert(left_all.skip(left.len() as int) =~= seq![entry] + left_done);
                assert forall|start: usize| #[trigger]
                    starting_at(tail, start) == starting_at(
                        left_all.skip(left.len() as int),
                        start,
                    ) + starting_at(right_done, start) by {
                    assert(starting_at(tail_before, start) == starting_at(left_done, start)
                        + starting_at(right_done, start));
                }
            }
        }
    }
    let ghost emitted = down@;
    let merged = reverse(down);
    proof {
        emitted.lemma_reverse_to_multiset();
        lemma_empty_has_nothing(left@);
        lemma_empty_has_nothing(right@);
        assert(left_all.skip(0) =~= left_all);
        assert(right_all.skip(0) =~= right_all);
    }
    merged
}

/// Sort the entries by the start of their ranges.
///
/// The result holds the entries that came in, each as often as it came, in
/// the order of their starts, and those with the same start in the order in
/// which they came.
pub fn sort_by_start<'a>(entries: Vec<UnwindEntry<'a>>) -> (sorted: Vec<UnwindEntry<'a>>)
    ensures
        sorted_by_start(sorted@),
        sorted@.to_multiset() == entries@.to_multiset(),
        keeps_order_of_equals(entries@, sorted@),
    decreases entries.len(),
{
    let mut left = entries;
    if left.len() <= 1 {
        return left;
    }
    let mid = left.len() / 2;
    let right = left.split_off(mid);
    let ghost first = left@;
    let ghost second = right@;
    proof {
        assert(entries@ =~= first + second);
        lemma_multiset_commutative(first, second);
    }
    let left = sort_by_start(left);
    let right = sort_by_start(right);
    merge(left, right)
}

} // verus!
