//! Partial results and the operation that merges them.

use vstd::prelude::*;

verus! {

/// What one entry, or a group of entries already merged, adds to the total.
///
/// `Excluded` says that nothing in the group was inside the window. It is
/// not the same value as `Counted(0)`, which says that something was counted
/// and came to zero bytes; both add nothing to a total.
#[derive(Clone, Copy, Debug, PartialEq, Eq, Structural)]
pub enum PartialSize {
    Counted(u64),
    Excluded,
}

impl View for PartialSize {
    type V = Option<nat>;

    /// The partial result without the limit of 64 bits: `Some(n)` for `n`
    /// counted bytes, `None` for `Excluded`.
    open spec fn view(&self) -> Option<nat> {
        match *self {
            PartialSize::Counted(n) => Some(n as nat),
            PartialSize::Excluded => None,
        }
    }
}

/// The merge of two partial results:
///
/// * counted with counted gives the sum, counted;
/// * excluded with excluded stays excluded;
/// * excluded with counted gives the counted one, on either side.
pub open spec fn join(a: Option<nat>, b: Option<nat>) -> Option<nat> {
    match (a, b) {
        (Some(x), Some(y)) => Some(x + y),
        (None, None) => None,
        (None, Some(y)) => Some(y),
        (Some(x), None) => Some(x),
    }
}

/// The bytes that a partial result adds to a total: the counted bytes, or
/// nothing when it is excluded.
pub open spec fn bytes(p: Option<nat>) -> nat {
    match p {
        Some(n) => n,
        None => 0,
    }
}

impl PartialSize {
    /// The value that a reduction starts from: zero bytes, counted.
    pub fn identity() -> (p: PartialSize)
        ensures
            p == PartialSize::Counted(0),
    {
        PartialSize::Counted(0)
    }

    /// Merges two partial results.
    ///
    /// The sum of two counted results has to fit in 64 bits; `checked_combine`
    /// asks nothing of its arguments.
    pub fn combine(self, other: PartialSize) -> (r: PartialSize)
        requires
            bytes(self@) + bytes(other@) <= u64::MAX,
        ensures
            r@ == join(self@, other@),
    {
        match (self, other) {
            (PartialSize::Counted(a), PartialSize::Counted(b)) => PartialSize::Counted(a + b),
            (PartialSize::Excluded, PartialSize::Excluded) => PartialSize::Excluded,
            (PartialSize::Excluded, PartialSize::Counted(b)) => PartialSize::Counted(b),
            (PartialSize::Counted(a), PartialSize::Excluded) => PartialSize::Counted(a),
        }
    }

    /// Merges two partial results where the merge fits in 64 bits, and
    /// returns `None` where it does not.
    pub fn checked_combine(self, other: PartialSize) -> (r: Option<PartialSize>)
        ensures
            bytes(self@) + bytes(other@) <= u64::MAX ==> r is Some && r->Some_0@ == join(
                self@,
                other@,
            ),
            bytes(self@) + bytes(other@) > u64::MAX ==> r is None,
    {
        match (self, other) {
            (PartialSize::Counted(a), PartialSize::Counted(b)) => {
                if a > u64::MAX - b {
                    None
                } else {
                    Some(self.combine(other))
                }
            },
            _ => Some(self.combine(other)),
        }
    }

    /// The bytes that this partial result adds to a total: the counted
    /// bytes, or zero when it is excluded.
    pub fn total(self) -> (n: u64)
        ensures
            n == bytes(self@),
    {
        match self {
            PartialSize::Counted(n) => n,
            PartialSize::Excluded => 0,
        }
    }
}

/// Merging is associative: how three partial results are grouped
/// does not change their merge.
pub proof fn lemma_join_associative(a: Option<nat>, b: Option<nat>, c: Option<nat>)
    ensures
        join(join(a, b), c) == join(a, join(b, c)),
{
}

/// Merging is commutative: the order of two partial results does not change
/// their merge.
pub proof fn lemma_join_commutative(a: Option<nat>, b: Option<nat>)
    ensures
        join(a, b) == join(b, a),
{
}

/// `Excluded` is the neutral element of the merge, on either side.
pub proof fn lemma_join_excluded_neutral(a: Option<nat>)
    ensures
        join(None, a) == a,
        join(a, None) == a,
{
}

/// Merging the starting value of a reduction, zero bytes counted, into a
/// partial result leaves its bytes as they are. It leaves a counted result
/// unchanged, and turns an excluded one into zero bytes counted.
pub proof fn lemma_join_identity(a: Option<nat>)
    ensures
        bytes(join(Some(0), a)) == bytes(a),
        bytes(join(a, Some(0))) == bytes(a),
        a is Some ==> join(Some(0), a) == a && join(a, Some(0)) == a,
        a is None ==> join(Some(0), a) == Some(0nat) && join(a, Some(0)) == Some(0nat),
{
}

/// The bytes of a merge are the bytes of its two sides added up.
pub proof fn lemma_join_adds_bytes(a: Option<nat>, b: Option<nat>)
    ensures
        bytes(join(a, b)) == bytes(a) + bytes(b),
{
}

} // verus!
