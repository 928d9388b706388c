//! What a walk reports of one node of the tree.

use crate::instant::Instant;
use crate::partial::{bytes, PartialSize};
use crate::window::TimeWindow;
use vstd::prelude::*;

verus! {

/// The kind of node that an entry stands for.
///
/// A symbolic link is reported as `Symlink` by a walk that does not follow
/// links, and as the kind of its target by a walk that does.
#[derive(Clone, Copy, Debug, PartialEq, Eq, Structural)]
pub enum EntryKind {
    /// A regular file: the only kind whose size is counted.
    File,
    /// A directory.
    Dir,
    /// A symbolic link that was not followed.
    Symlink,
    /// Anything else, such as a device, a socket or a pipe.
    Other,
}

/// One node that a walk visited, with what the measurement reads of it.
#[derive(Clone, Copy, Debug, PartialEq, Eq, Structural)]
pub struct TraversalEntry {
    pub kind: EntryKind,
    /// The length in bytes that the file system reports.
    pub size: u64,
    /// When the node was last modified.
    pub modified: Instant,
}

/// Why a walk has no entry to report in one of its slots.
#[derive(Clone, Copy, Debug, PartialEq, Eq, Structural)]
pub enum EntryError {
    /// The node could not be reached or listed: permission denied, a broken
    /// link, a node removed during the walk, a loop of links.
    Traversal,
    /// The node was listed, but its size or modification time could not be
    /// read.
    Metadata,
}

impl TraversalEntry {
    /// The entry is counted under the window `w`: it is a regular file whose
    /// modification instant lies inside `w`.
    pub open spec fn counts_in(self, w: TimeWindow) -> bool {
        self.kind is File && w.admits(self.modified)
    }

    /// The partial result of this entry alone under the window `w`.
    pub open spec fn classified(self, w: TimeWindow) -> PartialSize {
        if self.counts_in(w) {
            PartialSize::Counted(self.size)
        } else {
            PartialSize::Excluded
        }
    }

    /// The bytes that this entry adds to the total under the window `w`: its
    /// size where it is counted, nothing where it is not.
    pub open spec fn contribution(self, w: TimeWindow) -> nat {
        if self.counts_in(w) {
            self.size as nat
        } else {
            0
        }
    }

    /// The entry of kind `kind` with `size` bytes, last modified at `modified`.
    pub fn new(kind: EntryKind, size: u64, modified: Instant) -> (e: TraversalEntry)
        ensures
            e == (TraversalEntry { kind, size, modified }),
    {
        TraversalEntry { kind, size, modified }
    }

    /// Classifies the entry against `window`: its size, counted, where it is
    /// a regular file modified inside the window, and `Excluded` in every
    /// other case.
    pub fn classify(&self, window: &TimeWindow) -> (p: PartialSize)
        ensures
            p == self.classified(*window),
            bytes(p@) == self.contribution(*window),
    {
        match self.kind {
            EntryKind::File => {
                if window.contains(&self.modified) {
                    PartialSize::Counted(self.size)
                } else {
                    PartialSize::Excluded
                }
            },
            _ => PartialSize::Excluded,
        }
    }
}

} // verus!
