//! Points in time and their order.

use vstd::prelude::*;

verus! {

/// A point in time: the whole seconds since 1970-01-01T00:00:00 UTC and the
/// nanoseconds past that second.
///
/// An instant carries no time zone. A wall-clock time with an offset stands
/// for the instant that it names in UTC, so two such times in different zones
/// compare by their true time.
///
/// `nanos` is not limited to one second: a count of 1_000_000_000 or more is
/// how a leap second is written, and the order treats it like any other count.
#[derive(Clone, Copy, Debug, PartialEq, Eq, Structural)]
pub struct Instant {
    pub secs: i64,
    pub nanos: u32,
}

impl Instant {
    /// `self` is `other` or comes before it: by seconds first, by nanoseconds
    /// within the same second.
    pub open spec fn le(self, other: Instant) -> bool {
        self.secs < other.secs || (self.secs == other.secs && self.nanos <= other.nanos)
    }

    /// The instant `nanos` nanoseconds past second `secs`.
    pub fn new(secs: i64, nanos: u32) -> (t: Instant)
        ensures
            t == (Instant { secs, nanos }),
    {
        Instant { secs, nanos }
    }

    /// Whether `self` is `other` or comes before it.
    pub fn at_or_before(&self, other: &Instant) -> (r: bool)
        ensures
            r == self.le(*other),
    {
        self.secs < other.secs || (self.secs == other.secs && self.nanos <= other.nanos)
    }

    /// `le` is a total order: every instant is at or before itself, two
    /// instants that are each at or before the other are the same instant,
    /// `le` passes along a chain, and of any two instants one is at or before
    /// the other.
    pub proof fn lemma_le_is_total_order(a: Instant, b: Instant, c: Instant)
        ensures
            a.le(a),
            a.le(b) && b.le(a) ==> a == b,
            a.le(b) && b.le(c) ==> a.le(c),
            a.le(b) || b.le(a),
    {
    }
}

} // verus!
