//! Why any fork-join schedule of the merges gives the same total.
//!
//! A parallel run classifies every entry on its own and merges the partial
//! results pairwise, in groups and in an order that the scheduler picks, with
//! the starting value of the reducer put in wherever a worker begins. A
//! [`Reduction`] is one such schedule, written down as a tree.

use crate::aggregate::{lemma_total_of_concat, lemma_total_of_permutation, window_total};
use crate::entry::TraversalEntry;
use crate::partial::{bytes, join};
use crate::window::TimeWindow;
use vstd::prelude::*;

verus! {

/// One way to reduce a set of entries to a single partial result.
pub enum Reduction {
    /// The starting value of the reducer: zero bytes, counted.
    Start,
    /// One entry, classified on its own.
    Entry(TraversalEntry),
    /// Two reductions, each done by itself, and their results merged.
    Merge(Box<Reduction>, Box<Reduction>),
}

impl Reduction {
    /// The entries that the reduction takes in, from left to right.
    pub open spec fn entries(self) -> Seq<TraversalEntry>
        decreases self,
    {
        match self {
            Reduction::Start => Seq::empty(),
            Reduction::Entry(entry) => seq![entry],
            Reduction::Merge(left, right) => left.entries() + right.entries(),
        }
    }

    /// The partial result that the reduction ends with under the window `w`.
    pub open spec fn result(self, w: TimeWindow) -> Option<nat>
        decreases self,
    {
        match self {
            Reduction::Start => Some(0),
            Reduction::Entry(entry) => entry.classified(w)@,
            Reduction::Merge(left, right) => join(left.result(w), right.result(w)),
        }
    }

    /// Every merge of the reduction, the last one included, gives a result
    /// that fits in 64 bits.
    pub open spec fn fits(self, w: TimeWindow) -> bool
        decreases self,
    {
        match self {
            Reduction::Start => true,
            Reduction::Entry(_) => true,
            Reduction::Merge(left, right) => left.fits(w) && right.fits(w) && bytes(
                self.result(w),
            ) <= u64::MAX,
        }
    }

    /// However the merges are grouped, the reduction ends with the total of
    /// the entries that it took in.
    pub proof fn lemma_result_is_total(self, w: TimeWindow)
        ensures
            bytes(self.result(w)) == window_total(self.entries(), w),
        decreases self,
    {
        match self {
            Reduction::Start => {},
            Reduction::Entry(entry) => {
                assert(seq![entry].drop_last() =~= Seq::<TraversalEntry>::empty());
                assert(window_total(seq![entry].drop_last(), w) == 0);
            },
            Reduction::Merge(left, right) => {
                left.lemma_result_is_total(w);
                right.lemma_result_is_total(w);
                lemma_total_of_concat(left.entries(), right.entries(), w);
            },
        }
    }

    /// Grouping and order do not matter: a reduction that takes in the
    /// entries of a walk, each as many times as the walk holds it, ends with
    /// the total of that walk, whatever its shape and wherever it puts the
    /// starting value.
    pub proof fn lemma_any_schedule_gives_the_total(
        self,
        walk: Seq<TraversalEntry>,
        w: TimeWindow,
    )
        requires
            self.entries().to_multiset() == walk.to_multiset(),
        ensures
            bytes(self.result(w)) == window_total(walk, w),
    {
        self.lemma_result_is_total(w);
        lemma_total_of_permutation(self.entries(), walk, w);
    }

    /// Two reductions of the same entries end with the same total.
    pub proof fn lemma_schedules_agree(self, other: Reduction, w: TimeWindow)
        requires
            self.entries().to_multiset() == other.entries().to_multiset(),
        ensures
            bytes(self.result(w)) == bytes(other.result(w)),
    {
        self.lemma_any_schedule_gives_the_total(other.entries(), w);
        other.lemma_result_is_total(w);
    }

    /// Where the total of the entries fits in 64 bits, so does every merge on
    /// the way to it.
    pub proof fn lemma_total_bounds_every_merge(self, w: TimeWindow)
        requires
            window_total(self.entries(), w) <= u64::MAX,
        ensures
            self.fits(w),
        decreases self,
    {
        match self {
            Reduction::Start => {},
            Reduction::Entry(_) => {},
            Reduction::Merge(left, right) => {
                self.lemma_result_is_total(w);
                lemma_total_of_concat(left.entries(), right.entries(), w);
                left.lemma_total_bounds_every_merge(w);
                right.lemma_total_bounds_every_merge(w);
            },
        }
    }
}

} // verus!
