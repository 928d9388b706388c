//! How many bytes, across the files of a directory tree, were last modified
//! inside a time window?
//!
//! This crate holds the rules of that measurement on plain values, each with
//! a contract that Verus proves:
//!
//! * [`instant`]: points in time and their order;
//! * [`window`]: the time window, with either bound optional, and the
//!   predicate that decides whether an instant lies inside it;
//! * [`partial`]: the partial result of one entry or of a group of entries,
//!   and the operation that merges two of them;
//! * [`entry`]: what a walk reports of one node of the tree, and how one
//!   entry is classified against a window;
//! * [`aggregate`]: the total over the reported slots of a whole walk,
//!   which stops at the first slot that failed;
//! * [`reduction`]: why any fork-join schedule of the merges gives that
//!   same total;
//! * [`root`]: the validated root of a search.
//!
//! Walking the file system, reading metadata and handing the entries to
//! worker threads is left to the caller.

pub mod aggregate;
pub mod entry;
pub mod instant;
pub mod partial;
pub mod reduction;
pub mod root;
pub mod window;
