//! The validated root of a search.

use vstd::prelude::*;
use vstd::string::*;

verus! {

/// The path that a search starts from.
///
/// A `DirPath` is made by [`DirPath::new`] alone, which refuses a path that
/// names a regular file. The check is made once: the file system may change
/// between it and the walk.
#[derive(Debug)]
pub struct DirPath {
    path: String,
}

/// Why a path was refused as the root of a search.
#[derive(Debug, PartialEq, Eq)]
pub enum DirPathError {
    /// The path names a regular file, not a directory.
    IsFile(String),
}

impl View for DirPath {
    type V = Seq<char>;

    /// The text of the path.
    closed spec fn view(&self) -> Seq<char> {
        self.path@
    }
}

impl DirPathError {
    /// The text of the path that was refused.
    pub open spec fn path(self) -> Seq<char> {
        match self {
            DirPathError::IsFile(path) => path@,
        }
    }

    /// The refusal in words: the path, followed by
    /// `" is a file, dir must be provided."`.
    pub fn message(&self) -> (m: String)
        ensures
            m@ == self.path() + " is a file, dir must be provided."@,
    {
        match self {
            DirPathError::IsFile(path) => path.clone().concat(" is a file, dir must be provided."),
        }
    }
}

impl DirPath {
    /// Validates `path` as the root of a search. `is_file` says whether the
    /// path names an existing regular file.
    ///
    /// A regular file is refused, with its path in the error. Every other
    /// path is taken as it is written, also one that names nothing: the walk
    /// reports what it finds there.
    pub fn new(path: &str, is_file: bool) -> (r: Result<DirPath, DirPathError>)
        ensures
            is_file ==> r is Err && r->Err_0.path() == path@,
            !is_file ==> r is Ok && r->Ok_0@ == path@,
    {
        if is_file {
            Err(DirPathError::IsFile(path.to_owned()))
        } else {
            Ok(DirPath { path: path.to_owned() })
        }
    }

    /// The text of the path, as it was given to [`DirPath::new`].
    pub fn as_str(&self) -> (s: &str)
        ensures
            s@ == self@,
    {
        self.path.as_str()
    }
}

} // verus!
