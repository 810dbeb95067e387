//! Builds trees of files, directories and symbolic links inside a temporary
//! directory, typically for tests.
//!
//! A `TempDirectoryBuilder` describes the tree. Building it alternates file
//! system work and decisions: `TempDirectoryBuilder::build` returns a
//! `BuildRun`, whose `step` takes the outcome of one piece of file system
//! work and names the next one, until the build finishes with a
//! `TempDirectory` or fails with a `BuildError`. The decisions (where each
//! entry goes, which entries are refused, which permissions are set) are
//! stated in `protocol` and proved there and in `laws`.

pub mod builder;
pub mod directory;
pub mod error;
pub mod laws;
pub mod paths;
pub mod permissions;
pub mod protocol;
pub mod random;
pub mod run;

pub use builder::{EntryBuilder, TempDirectoryBuilder};
pub use directory::TempDirectory;
pub use error::{BuildError, IoErrorKind, IoFailure};
pub use protocol::{Stage, SymlinkFlavor};
pub use run::{BuildAction, BuildEvent, BuildRun, Content};
