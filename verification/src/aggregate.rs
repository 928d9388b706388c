//! The total over the slots of a whole walk.

use crate::entry::{EntryError, TraversalEntry};
use crate::partial::PartialSize;
use crate::window::TimeWindow;
use vstd::prelude::*;

verus! {

/// One slot of a walk: the entry that was visited, or the reason why there
/// is none.
pub type Slot = Result<TraversalEntry, EntryError>;

/// The first slot of a walk that failed.
#[derive(Clone, Copy, Debug, PartialEq, Eq, Structural)]
pub struct Failure {
    /// Where the slot stands in the walk, counted from zero.
    pub index: usize,
    /// Why it holds no entry.
    pub cause: EntryError,
}

/// The bytes of `entries` that are counted under the window `w`: the sizes of
/// the regular files among them whose modification instant lies inside `w`,
/// added up.
pub open spec fn window_total(entries: Seq<TraversalEntry>, w: TimeWindow) -> nat
    decreases entries.len(),
{
    if entries.len() == 0 {
        0
    } else {
        window_total(entries.drop_last(), w) + entries.last().contribution(w)
    }
}

/// The sizes of the regular files among `entries`, added up.
pub open spec fn file_bytes(entries: Seq<TraversalEntry>) -> nat
    decreases entries.len(),
{
    if entries.len() == 0 {
        0
    } else {
        file_bytes(entries.drop_last()) + if entries.last().kind is File {
            entries.last().size as nat
        } else {
            0
        }
    }
}

/// The entries that a pass from the front reaches: those of the slots ahead
/// of the first failed one, and all of them where no slot failed.
pub open spec fn reached(slots: Seq<Slot>) -> Seq<TraversalEntry>
    decreases slots.len(),
{
    if slots.len() == 0 {
        Seq::empty()
    } else {
        match slots.first() {
            Ok(entry) => seq![entry] + reached(slots.drop_first()),
            Err(_) => Seq::empty(),
        }
    }
}

/// `reached` stops exactly at the first failed slot: every slot ahead of its
/// end holds the entry that it lists, and the slot at its end, if there is
/// one, failed.
pub proof fn lemma_reached(slots: Seq<Slot>)
    ensures
        reached(slots).len() <= slots.len(),
        forall|j: int|
            0 <= j < reached(slots).len() ==> #[trigger] slots[j] == Ok::<
                TraversalEntry,
                EntryError,
            >(reached(slots)[j]),
        reached(slots).len() < slots.len() ==> slots[reached(slots).len() as int] is Err,
    decreases slots.len(),
{
    if slots.len() > 0 {
        let rest = slots.drop_first();
        lemma_reached(rest);
        match slots.first() {
            Ok(entry) => {
                assert forall|j: int| 0 <= j < reached(slots).len() implies #[trigger] slots[j]
                    == Ok::<TraversalEntry, EntryError>(reached(slots)[j]) by {
                    if j > 0 {
                        assert(slots[j] == rest[j - 1]);
                    }
                }
                if reached(slots).len() < slots.len() {
                    assert(slots[reached(slots).len() as int] == rest[reached(rest).len() as int]);
                }
            },
            Err(_) => {},
        }
    }
}

/// Where no slot failed, `reached` lists an entry for every slot, and the
/// other way round.
pub proof fn lemma_reached_all(slots: Seq<Slot>)
    ensures
        reached(slots).len() == slots.len() <==> forall|j: int|
            0 <= j < slots.len() ==> (#[trigger] slots[j]) is Ok,
{
    lemma_reached(slots);
    if reached(slots).len() < slots.len() {
        assert(slots[reached(slots).len() as int] is Err);
    }
}

/// No window counts more than the window without bounds does: the total is
/// at most the sum of the sizes of the regular files.
pub proof fn lemma_total_at_most_file_bytes(entries: Seq<TraversalEntry>, w: TimeWindow)
    ensures
        window_total(entries, w) <= file_bytes(entries),
    decreases entries.len(),
{
    if entries.len() > 0 {
        lemma_total_at_most_file_bytes(entries.drop_last(), w);
    }
}

/// A longer run of entries never totals less than a shorter run that it starts
/// with.
pub proof fn lemma_total_of_prefix(entries: Seq<TraversalEntry>, w: TimeWindow, n: int)
    requires
        0 <= n <= entries.len(),
    ensures
        window_total(entries.take(n), w) <= window_total(entries, w),
    decreases entries.len(),
{
    if n == entries.len() {
        assert(entries.take(n) =~= entries);
    } else {
        lemma_total_of_prefix(entries.drop_last(), w, n);
        assert(entries.drop_last().take(n) =~= entries.take(n));
    }
}

/// Each entry is counted on its own: taking the entry at `i` out of a run
/// lowers the total by the size of that entry where it is a regular file whose
/// modification instant lies inside `w`, and leaves the total as it is in every
/// other case.
pub proof fn lemma_total_counts_each_entry(entries: Seq<TraversalEntry>, w: TimeWindow, i: int)
    requires
        0 <= i < entries.len(),
    ensures
        window_total(entries, w) == window_total(entries.remove(i), w) + if entries[i].kind is File
            && w.admits(entries[i].modified) {
            entries[i].size as nat
        } else {
            0
        },
    decreases entries.len(),
{
    if i == entries.len() - 1 {
        assert(entries.remove(i) =~= entries.drop_last());
    } else {
        lemma_total_counts_each_entry(entries.drop_last(), w, i);
        assert(entries.remove(i).drop_last() =~= entries.drop_last().remove(i));
        assert(entries.remove(i).last() == entries.last());
    }
}

/// Under a window whose start lies after its end nothing is counted, whatever
/// the entries are.
pub proof fn lemma_inverted_window_counts_nothing(entries: Seq<TraversalEntry>, w: TimeWindow)
    requires
        w.is_inverted(),
    ensures
        window_total(entries, w) == 0,
    decreases entries.len(),
{
    if entries.len() > 0 {
        lemma_inverted_window_counts_nothing(entries.drop_last(), w);
        w.lemma_inverted_admits_nothing(entries.last().modified);
    }
}

/// Under the window without bounds every regular file is counted: the total
/// is the sum of their sizes, and directories, links and other nodes add
/// nothing.
pub proof fn lemma_unbounded_window_counts_every_file(entries: Seq<TraversalEntry>, w: TimeWindow)
    requires
        w.start is None,
        w.end is None,
    ensures
        window_total(entries, w) == file_bytes(entries),
    decreases entries.len(),
{
    if entries.len() > 0 {
        lemma_unbounded_window_counts_every_file(entries.drop_last(), w);
    }
}

/// The total of two runs of entries put one after the other is the sum of
/// their totals: a walk can be cut into groups at any place.
pub proof fn lemma_total_of_concat(
    front: Seq<TraversalEntry>,
    back: Seq<TraversalEntry>,
    w: TimeWindow,
)
    ensures
        window_total(front + back, w) == window_total(front, w) + window_total(back, w),
    decreases back.len(),
{
    if back.len() == 0 {
        assert(front + back =~= front);
    } else {
        lemma_total_of_concat(front, back.drop_last(), w);
        assert((front + back).drop_last() =~= front + back.drop_last());
        assert((front + back).last() == back.last());
    }
}

/// The total does not depend on the order in which the entries come: two runs
/// that hold the same entries, each as many times as the other, have the same
/// total.
pub proof fn lemma_total_of_permutation(
    one: Seq<TraversalEntry>,
    other: Seq<TraversalEntry>,
    w: TimeWindow,
)
    requires
        one.to_multiset() == other.to_multiset(),
    ensures
        window_total(one, w) == window_total(other, w),
    decreases one.len(),
{
    broadcast use vstd::seq_lib::group_to_multiset_ensures;

    if one.len() == 0 {
        assert(other.to_multiset().len() == 0);
        assert(other.len() == 0);
    } else {
        let last = one.last();
        assert(one.to_multiset().count(last) > 0) by {
            assert(one.contains(last));
        }
        assert(other.contains(last));
        let i = choose|i: int| 0 <= i < other.len() && other[i] == last;
        assert(one.drop_last() =~= one.remove(one.len() - 1));
        assert(one.drop_last().to_multiset() == other.remove(i).to_multiset());
        lemma_total_of_permutation(one.drop_last(), other.remove(i), w);
        lemma_total_counts_each_entry(other, w, i);
    }
}

/// Measures a walk: the bytes of its regular files that were last modified
/// inside `window`.
///
/// The slots are taken from the front. The first one that failed ends the
/// measurement: it is returned with its place, and no total is. A walk without
/// a failed slot gives the total of all its entries; an empty walk gives zero.
///
/// The total of the entries ahead of the first failure has to fit in 64 bits.
pub fn data_over_time(slots: &[Slot], window: &TimeWindow) -> (r: Result<u64, Failure>)
    requires
        window_total(reached(slots@), *window) <= u64::MAX,
    ensures
        match r {
            Ok(total) => {
                &&& forall|j: int| 0 <= j < slots@.len() ==> (#[trigger] slots@[j]) is Ok
                &&& total == window_total(reached(slots@), *window)
            },
            Err(failure) => {
                &&& failure.index < slots@.len()
                &&& slots@[failure.index as int] == Err::<TraversalEntry, EntryError>(
                    failure.cause,
                )
                &&& forall|j: int| 0 <= j < failure.index ==> (#[trigger] slots@[j]) is Ok
            },
        },
{
    let ghost entries = reached(slots@);
    proof {
        lemma_reached(slots@);
        assert(entries.take(0) =~= Seq::<TraversalEntry>::empty());
    }
    let mut acc = PartialSize::identity();
    let mut i: usize = 0;
    while i < slots.len()
        invariant
            entries == reached(slots@),
            i <= entries.len() <= slots@.len(),
            forall|j: int|
                0 <= j < entries.len() ==> #[trigger] slots@[j] == Ok::<TraversalEntry, EntryError>(
                    entries[j],
                ),
            entries.len() < slots@.len() ==> slots@[entries.len() as int] is Err,
            acc@ == Some(window_total(entries.take(i as int), *window)),
            window_total(entries, *window) <= u64::MAX,
        decreases slots.len() - i,
    {
        match slots[i] {
            Err(cause) => {
                return Err(Failure { index: i, cause });
            },
            Ok(entry) => {
                let part = entry.classify(window);
                proof {
                    assert(entries[i as int] == entry);
                    assert(entries.take(i + 1).drop_last() =~= entries.take(i as int));
                    lemma_total_of_prefix(entries, *window, i + 1);
                }
                acc = acc.combine(part);
            },
        }
        i += 1;
    }
    proof {
        assert(entries.take(i as int) =~= entries);
    }
    Ok(acc.total())
}

} // verus!
