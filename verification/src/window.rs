//! The time window that selects files by their modification instant.

use crate::instant::Instant;
use vstd::prelude::*;

verus! {

/// A range of instants with both ends included. Either bound may be absent,
/// which leaves that side open.
///
/// Nothing ties the two bounds together: a window whose start lies after its
/// end is a value like any other, and no instant is inside it.
#[derive(Clone, Copy, Debug, PartialEq, Eq, Structural)]
pub struct TimeWindow {
    pub start: Option<Instant>,
    pub end: Option<Instant>,
}

impl TimeWindow {
    /// The instant `t` lies inside the window.
    ///
    /// | start     | end       | inside when   |
    /// |-----------|-----------|---------------|
    /// | `Some(s)` | `Some(e)` | `s <= t <= e` |
    /// | `Some(s)` | `None`    | `s <= t`      |
    /// | `None`    | `Some(e)` | `t <= e`      |
    /// | `None`    | `None`    | always        |
    pub open spec fn admits(self, t: Instant) -> bool {
        match (self.start, self.end) {
            (Some(s), Some(e)) => s.le(t) && t.le(e),
            (Some(s), None) => s.le(t),
            (None, Some(e)) => t.le(e),
            (None, None) => true,
        }
    }

    /// Both bounds are set and the start lies after the end.
    pub open spec fn is_inverted(self) -> bool {
        match (self.start, self.end) {
            (Some(s), Some(e)) => !s.le(e),
            _ => false,
        }
    }

    /// The window from `start` to `end`.
    pub fn new(start: Option<Instant>, end: Option<Instant>) -> (w: TimeWindow)
        ensures
            w == (TimeWindow { start, end }),
    {
        TimeWindow { start, end }
    }

    /// Whether the instant `t` lies inside the window.
    pub fn contains(&self, t: &Instant) -> (r: bool)
        ensures
            r == self.admits(*t),
    {
        match (self.start, self.end) {
            (Some(s), Some(e)) => s.at_or_before(t) && t.at_or_before(&e),
            (Some(s), None) => s.at_or_before(t),
            (None, Some(e)) => t.at_or_before(&e),
            (None, None) => true,
        }
    }

    /// No instant is inside a window whose start lies after its end.
    pub proof fn lemma_inverted_admits_nothing(self, t: Instant)
        requires
            self.is_inverted(),
        ensures
            !self.admits(t),
    {
    }

    /// Every instant is inside the window without bounds.
    pub proof fn lemma_unbounded_admits_all(self, t: Instant)
        requires
            self.start is None,
            self.end is None,
        ensures
            self.admits(t),
    {
    }
}

} // verus!
