//! A temporary directory that a build created.

use crate::paths::{is_absolute_path, join_paths, joined};
use std::path::Path;
use vstd::prelude::*;

verus! {

/// Represents a temporary directory.
/// By default this temporary directory is deleted when it is dropped.
#[derive(Debug)]
pub struct TempDirectory {
    path: String,
    delete_on_drop: bool,
}

/// What a `TempDirectory` holds.
pub struct TempDirectoryModel {
    /// The canonical path of the root.
    pub path: Seq<char>,
    /// Whether the directory is deleted when it is dropped.
    pub delete_on_drop: bool,
}

impl View for TempDirectory {
    type V = TempDirectoryModel;

    closed spec fn view(&self) -> TempDirectoryModel {
        TempDirectoryModel { path: self.path@, delete_on_drop: self.delete_on_drop }
    }
}

impl TempDirectory {
    pub(crate) fn new(path: String, delete_on_drop: bool) -> (r: TempDirectory)
        ensures
            r@ == (TempDirectoryModel { path: path@, delete_on_drop }),
    {
        TempDirectory { path, delete_on_drop }
    }

    /// The root path of the temporary directory.
    pub fn path(&self) -> (r: &str)
        ensures
            r@ == self@.path,
    {
        self.path.as_str()
    }

    /// Joins `path` to the root of the temporary directory; an absolute
    /// `path` replaces the root.
    pub fn join(&self, path: &str) -> (r: String)
        ensures
            r@ == joined(self@.path, path@),
            is_absolute_path(path@) ==> r@ == path@,
    {
        join_paths(self.path.as_str(), path)
    }

    /// Returns an owned copy of the root path.
    pub fn to_path_buf(&self) -> (r: String)
        ensures
            r@ == self@.path,
    {
        self.path.clone()
    }

    /// Whether the directory is deleted when it is dropped.
    pub fn deletes_on_drop(&self) -> (r: bool)
        ensures
            r == self@.delete_on_drop,
    {
        self.delete_on_drop
    }
}


/// `std::path::Path`, carried through without being looked into.
#[verifier::external_type_specification]
#[verifier::external_body]
pub struct ExPath(Path);

impl AsRef<Path> for TempDirectory {
    /// The root path of the temporary directory, through `std::path::Path::new`;
    /// nothing is stated of the `Path` it gives.
    #[verifier::external_body]
    fn as_ref(&self) -> &Path {
        Path::new(self.path.as_str())
    }
}

} // verus!
