//! Errors of a build.

use vstd::prelude::*;

verus! {

/// The kinds of I/O failure that a build tells apart.
#[derive(Clone, Copy, Debug, PartialEq, Eq, Structural)]
pub enum IoErrorKind {
    /// The path, or one of its parents, does not exist.
    NotFound,
    /// Something already exists at the path.
    AlreadyExists,
    /// Any other failure.
    Other,
}

/// An I/O failure reported by the file system.
#[derive(Debug)]
pub struct IoFailure {
    /// What kind of failure it is.
    pub kind: IoErrorKind,
    /// The operating system's error code, where it gave one.
    pub code: Option<i32>,
    /// A description of the failure.
    pub message: String,
}

/// What an `IoFailure` holds.
pub struct IoFailureModel {
    pub kind: IoErrorKind,
    pub code: Option<i32>,
    pub message: Seq<char>,
}

impl View for IoFailure {
    type V = IoFailureModel;

    open spec fn view(&self) -> IoFailureModel {
        IoFailureModel { kind: self.kind, code: self.code, message: self.message@ }
    }
}

impl IoFailure {
    /// A failure of the given kind with a description and no error code.
    pub fn new(kind: IoErrorKind, message: &str) -> (r: IoFailure)
        ensures
            r@ == (IoFailureModel { kind, code: None, message: message@ }),
    {
        IoFailure { kind, code: None, message: message.to_owned() }
    }
}

/// Error happening when creating the directory tree.
#[derive(Debug)]
pub enum BuildError {
    FailedToCreateRootDirectory(String, IoFailure),
    FailedToCreateDirectory(String, IoFailure),
    FailedToDeleteDirectory(String, IoFailure),
    FailedToCreateFile(String, IoFailure),
    FailedToCopyFile(String, IoFailure),
    FailedToWriteFile(String, IoFailure),
    EntryOutsideDirectory(String),
    EmptyEntryName(usize),
    DuplicateEntry(String),
    FailedToSetPermissions(String, IoFailure),
    FailedToCreateSymlink(String, IoFailure),
    PermissionsOnSymlink(String),
}

/// What a `BuildError` holds, paths taken as character sequences.
pub enum BuildErrorModel {
    FailedToCreateRootDirectory(Seq<char>, IoFailureModel),
    FailedToCreateDirectory(Seq<char>, IoFailureModel),
    FailedToDeleteDirectory(Seq<char>, IoFailureModel),
    FailedToCreateFile(Seq<char>, IoFailureModel),
    FailedToCopyFile(Seq<char>, IoFailureModel),
    FailedToWriteFile(Seq<char>, IoFailureModel),
    EntryOutsideDirectory(Seq<char>),
    EmptyEntryName(usize),
    DuplicateEntry(Seq<char>),
    FailedToSetPermissions(Seq<char>, IoFailureModel),
    FailedToCreateSymlink(Seq<char>, IoFailureModel),
    PermissionsOnSymlink(Seq<char>),
}

impl View for BuildError {
    type V = BuildErrorModel;

    open spec fn view(&self) -> BuildErrorModel {
        match self {
            BuildError::FailedToCreateRootDirectory(p, e) => BuildErrorModel::FailedToCreateRootDirectory(p@, e@),
            BuildError::FailedToCreateDirectory(p, e) => BuildErrorModel::FailedToCreateDirectory(p@, e@),
            BuildError::FailedToDeleteDirectory(p, e) => BuildErrorModel::FailedToDeleteDirectory(p@, e@),
            BuildError::FailedToCreateFile(p, e) => BuildErrorModel::FailedToCreateFile(p@, e@),
            BuildError::FailedToCopyFile(p, e) => BuildErrorModel::FailedToCopyFile(p@, e@),
            BuildError::FailedToWriteFile(p, e) => BuildErrorModel::FailedToWriteFile(p@, e@),
            BuildError::EntryOutsideDirectory(p) => BuildErrorModel::EntryOutsideDirectory(p@),
            BuildError::EmptyEntryName(i) => BuildErrorModel::EmptyEntryName(*i),
            BuildError::DuplicateEntry(p) => BuildErrorModel::DuplicateEntry(p@),
            BuildError::FailedToSetPermissions(p, e) => BuildErrorModel::FailedToSetPermissions(p@, e@),
            BuildError::FailedToCreateSymlink(p, e) => BuildErrorModel::FailedToCreateSymlink(p@, e@),
            BuildError::PermissionsOnSymlink(p) => BuildErrorModel::PermissionsOnSymlink(p@),
        }
    }
}

} // verus!
