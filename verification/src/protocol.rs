//! The steps of a build, as a state machine.
//!
//! A build alternates file system work and decisions. The decisions are
//! taken here: each `BuildAction` names one piece of file system work, and
//! the caller answers it with the `BuildEvent` that the work produced. This
//! module states, as the relation `transition`, which action and which next
//! state answer each state and event.

use crate::builder::{BuilderModel, EntryModel, KindModel, RootModel};
use crate::directory::TempDirectoryModel;
use crate::error::{BuildErrorModel, IoErrorKind, IoFailureModel};
use crate::paths::{cleaned, has_path_prefix, joined, parent_path, resolved_target};
use crate::permissions::entry_mode;
use crate::random::is_random_name;
use vstd::prelude::*;

verus! {

/// How many random names are tried before the build gives up.
pub const MAX_RANDOM_DIRECTORY_ATTEMPTS: u32 = 100;

/// Where a build stands: which action it issued last, and is waiting for.
#[derive(Clone, Copy, Debug, PartialEq, Eq, Structural)]
pub enum Stage {
    /// Nothing issued yet.
    Ready,
    /// Waiting for the system's temporary directory.
    LocatingTempDir,
    /// Waiting for the creation of a randomly named root.
    CreatingRandomRoot { attempt: u32 },
    /// Waiting for the creation of a fixed root (`retried`: after its
    /// parents were created).
    CreatingFixedRoot { retried: bool },
    /// Waiting for the creation of the parents of a fixed root.
    CreatingRootParent,
    /// Waiting for what already stands at a fixed root.
    InspectingRoot,
    /// Waiting for the canonical form of the root.
    Canonicalizing,
    /// Waiting to learn whether something stands where entry `index` goes.
    Probing { index: usize },
    /// Waiting for the parent directories of entry `index`.
    CreatingParent { index: usize },
    /// Waiting for the text of entry `index`.
    Generating { index: usize },
    /// Waiting for the creation of entry `index`.
    Creating { index: usize },
    /// Waiting for the current permission bits of entry `index`.
    ReadingMode { index: usize },
    /// Waiting for the new permission bits of entry `index` to be set.
    SettingMode { index: usize },
    /// The build finished or failed.
    Done,
}

/// How a symbolic link is created on systems that tell file links from
/// directory links.
#[derive(Clone, Copy, Debug, PartialEq, Eq, Structural)]
pub enum SymlinkFlavor {
    /// Decided by what the target is.
    Auto,
    /// A directory link.
    Dir,
    /// A file link.
    File,
}

/// What a new file holds.
pub enum ContentModel {
    Empty,
    Text(Seq<char>),
    Bytes(Seq<u8>),
}

/// A piece of file system work that the build asks for.
pub enum ActionModel {
    /// Find the system's temporary directory.
    LocateTempDir,
    /// Create one directory (its parent must exist).
    CreateDir(Seq<char>),
    /// Create a directory and all its missing parents.
    CreateDirAll(Seq<char>),
    /// Report whether the path is a symbolic link and whether it is a
    /// directory, without following links.
    InspectRoot(Seq<char>),
    /// Report the canonical, absolute form of the path.
    Canonicalize(Seq<char>),
    /// Report whether anything, a dangling link included, stands at the path.
    ProbeEntry(Seq<char>),
    /// Compute the text of the generator `source` for the root `root`.
    GenerateText { source: usize, root: Seq<char> },
    /// Create the file and write the content into it.
    WriteFile { path: Seq<char>, content: ContentModel },
    /// Copy a file.
    CopyFile { from: Seq<char>, to: Seq<char> },
    /// Create a symbolic link at `link` that points to `target`.
    CreateSymlink { target: Seq<char>, link: Seq<char>, flavor: SymlinkFlavor },
    /// Report the permission bits of the path.
    ReadMode(Seq<char>),
    /// Set the permission bits of the path.
    SetMode { path: Seq<char>, mode: u32 },
    /// The build succeeded with this directory.
    Finish(TempDirectoryModel),
    /// The build failed with this error.
    Fail(BuildErrorModel),
}

/// What the file system work produced.
pub enum EventModel {
    /// Start the build.
    Begin,
    /// The work succeeded and produced no value.
    Done,
    /// The work failed.
    Failed(IoFailureModel),
    /// The file was created but writing into it failed.
    WriteFailed(IoFailureModel),
    /// The system's temporary directory.
    TempDir(Seq<char>),
    /// What stands at the root.
    RootKind { is_symlink: bool, is_dir: bool },
    /// The canonical form of the path.
    Canonical(Seq<char>),
    /// Whether something stands at the path.
    Present(bool),
    /// The generated text.
    Text(Seq<char>),
    /// The permission bits.
    Mode(u32),
}

/// What a build holds between two steps.
pub struct RunModel {
    pub stage: Stage,
    /// The system's temporary directory, where a random root is placed.
    pub temp_dir: Seq<char>,
    /// The root: the candidate until it is canonicalized, then its canonical form.
    pub root: Seq<char>,
    /// Where the entry being processed goes.
    pub current: Seq<char>,
    /// The parent directory being created.
    pub aux: Seq<char>,
    /// Where the entries created so far went, in order.
    pub created: Seq<Seq<char>>,
}

impl RunModel {
    /// A build that has issued nothing.
    pub open spec fn initial() -> RunModel {
        RunModel {
            stage: Stage::Ready,
            temp_dir: seq![],
            root: seq![],
            current: seq![],
            aux: seq![],
            created: seq![],
        }
    }

    /// The same build in another stage.
    pub open spec fn at(self, stage: Stage) -> RunModel {
        RunModel { stage, ..self }
    }
}

/// Where an entry goes: its path joined to the root, then cleaned.
pub open spec fn entry_target(root: Seq<char>, e: EntryModel) -> Seq<char> {
    cleaned(joined(root, e.path))
}

/// The first entry at or after `k` that asks for permissions, or the number
/// of entries if there is none.
pub open spec fn next_with_permissions(entries: Seq<EntryModel>, k: int) -> int
    decreases entries.len() - k,
{
    if k >= entries.len() {
        entries.len() as int
    } else if entries[k].has_permissions() {
        k
    } else {
        next_with_permissions(entries, k + 1)
    }
}

/// A path made of a directory and a random name in it.
pub open spec fn is_random_child(path: Seq<char>, dir: Seq<char>) -> bool {
    exists|name: Seq<char>| #[trigger] is_random_name(name) && path == joined(dir, name)
}

/// The failure reported when no random name was free.
pub open spec fn exhausted_failure() -> IoFailureModel {
    IoFailureModel {
        kind: IoErrorKind::AlreadyExists,
        code: None,
        message: "exhausted attempts to generate an unused random directory name"@,
    }
}

/// The failure reported when a fixed root is a symbolic link.
pub open spec fn root_symlink_failure() -> IoFailureModel {
    IoFailureModel { kind: IoErrorKind::AlreadyExists, code: None, message: "root path is a symlink"@ }
}

/// The failure reported when something other than a directory stands at a fixed root.
pub open spec fn root_not_dir_failure() -> IoFailureModel {
    IoFailureModel {
        kind: IoErrorKind::AlreadyExists,
        code: None,
        message: "root path exists and is not a directory"@,
    }
}

/// The build stops with `err`.
pub open spec fn fails(s: RunModel, s2: RunModel, a: ActionModel, err: BuildErrorModel) -> bool {
    s2 == s.at(Stage::Done) && a == ActionModel::Fail(err)
}

/// No generator could be seeded to draw a random name: the build stops with
/// a failure of kind `Other` at the system's temporary directory.
pub open spec fn seeding_fails(s: RunModel, s2: RunModel, a: ActionModel) -> bool {
    &&& s2 == s.at(Stage::Done)
    &&& a matches ActionModel::Fail(BuildErrorModel::FailedToCreateRootDirectory(p, f))
        && p == s.temp_dir && f.kind == IoErrorKind::Other
}

/// A fresh random root is tried, as attempt number `attempt`: a random name
/// inside the system's temporary directory is created, unless no generator
/// could be seeded to draw it.
pub open spec fn tries_random_root(s: RunModel, attempt: u32, s2: RunModel, a: ActionModel) -> bool {
    ||| {
        &&& s2 == RunModel { stage: Stage::CreatingRandomRoot { attempt }, root: s2.root, ..s }
        &&& is_random_child(s2.root, s.temp_dir)
        &&& a == ActionModel::CreateDir(s2.root)
    }
    ||| seeding_fails(s, s2, a)
}

/// Entry `i` is taken up (or, past the last entry, permissions are): an
/// empty path or one that leads outside the root fails the build; otherwise
/// the place where the entry goes is probed.
pub open spec fn starts_entry(
    b: BuilderModel,
    s: RunModel,
    i: int,
    s2: RunModel,
    a: ActionModel,
) -> bool {
    if i >= b.entries.len() {
        starts_permissions(b, s, 0, s2, a)
    } else {
        let e = b.entries[i];
        let target = entry_target(s.root, e);
        if e.path.len() == 0 {
            fails(s, s2, a, BuildErrorModel::EmptyEntryName(i as usize))
        } else if !has_path_prefix(target, s.root) {
            fails(s, s2, a, BuildErrorModel::EntryOutsideDirectory(e.path))
        } else {
            &&& s2 == RunModel { stage: Stage::Probing { index: i as usize }, current: target, ..s }
            &&& a == ActionModel::ProbeEntry(target)
        }
    }
}

/// Permissions are taken up from entry `k` on: the next entry that asks for
/// them has its mode read, unless it is a symbolic link, which fails the
/// build; past the last one the build succeeds.
pub open spec fn starts_permissions(
    b: BuilderModel,
    s: RunModel,
    k: int,
    s2: RunModel,
    a: ActionModel,
) -> bool {
    let j = next_with_permissions(b.entries, k);
    if j >= b.entries.len() {
        &&& s2 == s.at(Stage::Done)
        &&& a == ActionModel::Finish(
            TempDirectoryModel { path: s.root, delete_on_drop: b.delete_on_drop },
        )
    } else if b.entries[j].kind.is_symlink() {
        fails(s, s2, a, BuildErrorModel::PermissionsOnSymlink(s.created[j]))
    } else {
        s2 == s.at(Stage::ReadingMode { index: j as usize }) && a == ActionModel::ReadMode(
            s.created[j],
        )
    }
}

/// The work that creates an entry of kind `kind` at `current`, for a tree
/// rooted at `root`.
pub open spec fn creation_action(root: Seq<char>, current: Seq<char>, kind: KindModel) -> ActionModel {
    match kind {
        KindModel::Directory => ActionModel::CreateDir(current),
        KindModel::EmptyFile => ActionModel::WriteFile { path: current, content: ContentModel::Empty },
        KindModel::TextFile(t) => ActionModel::WriteFile {
            path: current,
            content: ContentModel::Text(t),
        },
        KindModel::TextFileWith(source) => ActionModel::GenerateText { source, root },
        KindModel::BinaryFile(bytes) => ActionModel::WriteFile {
            path: current,
            content: ContentModel::Bytes(bytes),
        },
        KindModel::FileToCopy(from) => ActionModel::CopyFile { from, to: current },
        KindModel::Symlink(t) => ActionModel::CreateSymlink {
            target: resolved_target(root, t),
            link: current,
            flavor: SymlinkFlavor::Auto,
        },
        KindModel::RelativeSymlink(t) => ActionModel::CreateSymlink {
            target: t,
            link: current,
            flavor: SymlinkFlavor::Auto,
        },
        KindModel::SymlinkDir(t) => ActionModel::CreateSymlink {
            target: resolved_target(root, t),
            link: current,
            flavor: SymlinkFlavor::Dir,
        },
        KindModel::SymlinkFile(t) => ActionModel::CreateSymlink {
            target: resolved_target(root, t),
            link: current,
            flavor: SymlinkFlavor::File,
        },
    }
}

/// Entry `i` is created (a generated text file first has its text computed).
pub open spec fn starts_creation(
    b: BuilderModel,
    s: RunModel,
    i: int,
    s2: RunModel,
    a: ActionModel,
) -> bool {
    let kind = b.entries[i].kind;
    &&& s2 == s.at(
        if kind is TextFileWith {
            Stage::Generating { index: i as usize }
        } else {
            Stage::Creating { index: i as usize }
        },
    )
    &&& a == creation_action(s.root, s.current, kind)
}

/// The error that a failed creation of an entry of kind `kind` at `current`
/// gives (`writing`: the file was created, writing into it failed).
pub open spec fn creation_error(
    kind: KindModel,
    current: Seq<char>,
    f: IoFailureModel,
    writing: bool,
) -> BuildErrorModel {
    match kind {
        KindModel::Directory => BuildErrorModel::FailedToCreateDirectory(current, f),
        KindModel::FileToCopy(from) => BuildErrorModel::FailedToCopyFile(from, f),
        KindModel::Symlink(_) | KindModel::RelativeSymlink(_) | KindModel::SymlinkDir(_)
        | KindModel::SymlinkFile(_) => BuildErrorModel::FailedToCreateSymlink(current, f),
        _ => if writing {
            BuildErrorModel::FailedToWriteFile(current, f)
        } else {
            BuildErrorModel::FailedToCreateFile(current, f)
        },
    }
}

/// Whether `e` answers the work that a build in stage `stage` waits for.
pub open spec fn accepts(stage: Stage, e: EventModel) -> bool {
    match stage {
        Stage::Ready => e is Begin,
        Stage::LocatingTempDir => e is TempDir,
        Stage::CreatingRandomRoot { .. } | Stage::CreatingFixedRoot { .. } | Stage::CreatingRootParent
        | Stage::CreatingParent { .. } | Stage::SettingMode { .. } => e is Done || e is Failed,
        Stage::InspectingRoot => e is RootKind || e is Failed,
        Stage::Canonicalizing => e is Canonical || e is Failed,
        Stage::Probing { .. } => e is Present,
        Stage::Generating { .. } => e is Text,
        Stage::Creating { .. } => e is Done || e is Failed || e is WriteFailed,
        Stage::ReadingMode { .. } => e is Mode || e is Failed,
        Stage::Done => false,
    }
}

/// The build of `b` in state `s`, given the event `e`, moves to state `s2`
/// and asks for the work `a`.
pub open spec fn transition(
    b: BuilderModel,
    s: RunModel,
    e: EventModel,
    s2: RunModel,
    a: ActionModel,
) -> bool {
    match s.stage {
        Stage::Ready => match e {
            EventModel::Begin => match b.root {
                RootModel::Fixed(r) => {
                    &&& s2 == RunModel {
                        stage: Stage::CreatingFixedRoot { retried: false },
                        root: r,
                        ..s
                    }
                    &&& a == ActionModel::CreateDir(r)
                },
                RootModel::Random => s2 == s.at(Stage::LocatingTempDir) && a
                    == ActionModel::LocateTempDir,
            },
            _ => false,
        },
        Stage::LocatingTempDir => match e {
            EventModel::TempDir(t) => tries_random_root(RunModel { temp_dir: t, ..s }, 0, s2, a),
            _ => false,
        },
        Stage::CreatingRandomRoot { attempt } => match e {
            EventModel::Done => s2 == s.at(Stage::Canonicalizing) && a == ActionModel::Canonicalize(
                s.root,
            ),
            EventModel::Failed(f) => if f.kind == IoErrorKind::AlreadyExists {
                if attempt + 1 < MAX_RANDOM_DIRECTORY_ATTEMPTS {
                    tries_random_root(s, (attempt + 1) as u32, s2, a)
                } else {
                    fails(
                        s,
                        s2,
                        a,
                        BuildErrorModel::FailedToCreateRootDirectory(
                            s.temp_dir,
                            exhausted_failure(),
                        ),
                    )
                }
            } else {
                fails(s, s2, a, BuildErrorModel::FailedToCreateRootDirectory(s.root, f))
            },
            _ => false,
        },
        Stage::CreatingFixedRoot { retried } => match e {
            EventModel::Done => s2 == s.at(Stage::Canonicalizing) && a == ActionModel::Canonicalize(
                s.root,
            ),
            EventModel::Failed(f) => if f.kind == IoErrorKind::AlreadyExists {
                s2 == s.at(Stage::InspectingRoot) && a == ActionModel::InspectRoot(s.root)
            } else if f.kind == IoErrorKind::NotFound && !retried {
                match parent_path(s.root) {
                    Some(p) => {
                        &&& s2 == RunModel { stage: Stage::CreatingRootParent, aux: p, ..s }
                        &&& a == ActionModel::CreateDirAll(p)
                    },
                    None => s2 == s.at(Stage::CreatingFixedRoot { retried: true }) && a
                        == ActionModel::CreateDir(s.root),
                }
            } else {
                fails(s, s2, a, BuildErrorModel::FailedToCreateRootDirectory(s.root, f))
            },
            _ => false,
        },
        Stage::CreatingRootParent => match e {
            EventModel::Done => s2 == s.at(Stage::CreatingFixedRoot { retried: true }) && a
                == ActionModel::CreateDir(s.root),
            EventModel::Failed(f) => fails(
                s,
                s2,
                a,
                BuildErrorModel::FailedToCreateRootDirectory(s.root, f),
            ),
            _ => false,
        },
        Stage::InspectingRoot => match e {
            EventModel::RootKind { is_symlink, is_dir } => if is_symlink {
                fails(
                    s,
                    s2,
                    a,
                    BuildErrorModel::FailedToCreateRootDirectory(s.root, root_symlink_failure()),
                )
            } else if !is_dir {
                fails(
                    s,
                    s2,
                    a,
                    BuildErrorModel::FailedToCreateRootDirectory(s.root, root_not_dir_failure()),
                )
            } else {
                s2 == s.at(Stage::Canonicalizing) && a == ActionModel::Canonicalize(s.root)
            },
            EventModel::Failed(f) => fails(
                s,
                s2,
                a,
                BuildErrorModel::FailedToCreateRootDirectory(s.root, f),
            ),
            _ => false,
        },
        Stage::Canonicalizing => match e {
            EventModel::Canonical(c) => starts_entry(
                b,
                RunModel { root: c, created: seq![], ..s },
                0,
                s2,
                a,
            ),
            EventModel::Failed(f) => fails(
                s,
                s2,
                a,
                BuildErrorModel::FailedToCreateRootDirectory(s.root, f),
            ),
            _ => false,
        },
        Stage::Probing { index } => match e {
            EventModel::Present(present) => if present {
                fails(s, s2, a, BuildErrorModel::DuplicateEntry(s.current))
            } else {
                match parent_path(s.current) {
                    Some(p) => {
                        &&& s2 == RunModel {
                            stage: Stage::CreatingParent { index },
                            aux: p,
                            ..s
                        }
                        &&& a == ActionModel::CreateDirAll(p)
                    },
                    None => starts_creation(b, s, index as int, s2, a),
                }
            },
            _ => false,
        },
        Stage::CreatingParent { index } => match e {
            EventModel::Done => starts_creation(b, s, index as int, s2, a),
            EventModel::Failed(f) => fails(
                s,
                s2,
                a,
                BuildErrorModel::FailedToCreateDirectory(s.aux, f),
            ),
            _ => false,
        },
        Stage::Generating { index } => match e {
            EventModel::Text(t) => {
                &&& s2 == s.at(Stage::Creating { index })
                &&& a == ActionModel::WriteFile { path: s.current, content: ContentModel::Text(t) }
            },
            _ => false,
        },
        Stage::Creating { index } => match e {
            EventModel::Done => starts_entry(
                b,
                RunModel { created: s.created.push(s.current), ..s },
                index + 1,
                s2,
                a,
            ),
            EventModel::Failed(f) => fails(
                s,
                s2,
                a,
                creation_error(b.entries[index as int].kind, s.current, f, false),
            ),
            EventModel::WriteFailed(f) => fails(
                s,
                s2,
                a,
                creation_error(b.entries[index as int].kind, s.current, f, true),
            ),
            _ => false,
        },
        Stage::ReadingMode { index } => match e {
            EventModel::Mode(m) => {
                let entry = b.entries[index as int];
                &&& s2 == s.at(Stage::SettingMode { index })
                &&& a == ActionModel::SetMode {
                    path: s.created[index as int],
                    mode: entry_mode(entry.mode, entry.readonly, m),
                }
            },
            EventModel::Failed(f) => fails(
                s,
                s2,
                a,
                BuildErrorModel::FailedToSetPermissions(s.created[index as int], f),
            ),
            _ => false,
        },
        Stage::SettingMode { index } => match e {
            EventModel::Done => starts_permissions(b, s, index + 1, s2, a),
            EventModel::Failed(f) => fails(
                s,
                s2,
                a,
                BuildErrorModel::FailedToSetPermissions(s.created[index as int], f),
            ),
            _ => false,
        },
        Stage::Done => false,
    }
}

/// Entry `k` went where it had to go: inside the root, at its cleaned path.
pub open spec fn created_in_place(b: BuilderModel, s: RunModel, k: int) -> bool {
    &&& s.created[k] == entry_target(s.root, b.entries[k])
    &&& has_path_prefix(s.created[k], s.root)
    &&& b.entries[k].path.len() > 0
}

impl RunModel {
    /// What holds of every state of a build of `b`: the entries created so
    /// far are the first ones, each inside the root at its cleaned path, and
    /// the stage fits them.
    pub open spec fn wf(self, b: BuilderModel) -> bool {
        &&& self.created.len() <= b.entries.len()
        &&& forall|k: int| 0 <= k < self.created.len() ==> #[trigger] created_in_place(b, self, k)
        &&& match self.stage {
            Stage::CreatingRandomRoot { attempt } => attempt < MAX_RANDOM_DIRECTORY_ATTEMPTS
                && self.created.len() == 0,
            Stage::Probing { index } | Stage::CreatingParent { index } | Stage::Generating {
                index,
            } | Stage::Creating { index } => {
                &&& index == self.created.len()
                &&& index < b.entries.len()
                &&& self.current == entry_target(self.root, b.entries[index as int])
                &&& has_path_prefix(self.current, self.root)
                &&& b.entries[index as int].path.len() > 0
            },
            Stage::ReadingMode { index } | Stage::SettingMode { index } => {
                &&& self.created.len() == b.entries.len()
                &&& index < b.entries.len()
                &&& b.entries[index as int].has_permissions()
                &&& !b.entries[index as int].kind.is_symlink()
            },
            Stage::Done => true,
            _ => self.created.len() == 0,
        }
    }
}

/// `next_with_permissions` finds the first entry at or after `k` that asks
/// for permissions.
pub proof fn lemma_next_with_permissions(entries: Seq<EntryModel>, k: int)
    requires
        0 <= k <= entries.len(),
    ensures
        k <= next_with_permissions(entries, k) <= entries.len(),
        next_with_permissions(entries, k) < entries.len() ==> entries[next_with_permissions(
            entries,
            k,
        )].has_permissions(),
        forall|j: int|
            k <= j < next_with_permissions(entries, k) ==> !(#[trigger] entries[j]).has_permissions(),
    decreases entries.len() - k,
{
    if k < entries.len() && !entries[k].has_permissions() {
        lemma_next_with_permissions(entries, k + 1);
    }
}


/// The entries created so far are the first ones, each in place.
pub open spec fn entries_in_place(b: BuilderModel, s: RunModel) -> bool {
    &&& s.created.len() <= b.entries.len()
    &&& forall|k: int| 0 <= k < s.created.len() ==> #[trigger] created_in_place(b, s, k)
}

proof fn lemma_same_entries(b: BuilderModel, s: RunModel, s2: RunModel)
    requires
        entries_in_place(b, s),
        s2.created == s.created,
        s2.root == s.root,
    ensures
        entries_in_place(b, s2),
{
    assert forall|k: int| 0 <= k < s2.created.len() implies #[trigger] created_in_place(b, s2, k) by {
        assert(created_in_place(b, s, k));
    }
}

proof fn lemma_starts_permissions_keeps_wf(
    b: BuilderModel,
    s: RunModel,
    k: int,
    s2: RunModel,
    a: ActionModel,
)
    requires
        entries_in_place(b, s),
        s.created.len() == b.entries.len(),
        0 <= k <= b.entries.len(),
        b.entries.len() <= usize::MAX,
        starts_permissions(b, s, k, s2, a),
    ensures
        s2.wf(b),
{
    lemma_next_with_permissions(b.entries, k);
    lemma_same_entries(b, s, s2);
}

proof fn lemma_starts_entry_keeps_wf(b: BuilderModel, s: RunModel, i: int, s2: RunModel, a: ActionModel)
    requires
        entries_in_place(b, s),
        s.created.len() == i,
        b.entries.len() <= usize::MAX,
        starts_entry(b, s, i, s2, a),
    ensures
        s2.wf(b),
{
    if i >= b.entries.len() {
        lemma_starts_permissions_keeps_wf(b, s, 0, s2, a);
    } else {
        lemma_same_entries(b, s, s2);
    }
}

/// Every step of a build keeps what holds of every state (`RunModel::wf`):
/// no entry is ever recorded as created outside the root, nor anywhere but
/// at its cleaned path.
pub proof fn lemma_transition_keeps_wf(
    b: BuilderModel,
    s: RunModel,
    e: EventModel,
    s2: RunModel,
    a: ActionModel,
)
    requires
        s.wf(b),
        b.entries.len() <= usize::MAX,
        transition(b, s, e, s2, a),
    ensures
        s2.wf(b),
{
    assert(entries_in_place(b, s));
    match s.stage {
        Stage::Canonicalizing => {
            if let EventModel::Canonical(c) = e {
                let s1 = RunModel { root: c, created: seq![], ..s };
                lemma_starts_entry_keeps_wf(b, s1, 0, s2, a);
            } else {
                lemma_same_entries(b, s, s2);
            }
        },
        Stage::Creating { index } => {
            if e is Done {
                let s1 = RunModel { created: s.created.push(s.current), ..s };
                assert forall|k: int| 0 <= k < s1.created.len() implies #[trigger] created_in_place(
                    b,
                    s1,
                    k,
                ) by {
                    if k < s.created.len() {
                        assert(created_in_place(b, s, k));
                    }
                }
                lemma_starts_entry_keeps_wf(b, s1, index + 1, s2, a);
            } else {
                lemma_same_entries(b, s, s2);
            }
        },
        Stage::SettingMode { index } => {
            if e is Done {
                lemma_starts_permissions_keeps_wf(b, s, index + 1, s2, a);
            } else {
                lemma_same_entries(b, s, s2);
            }
        },
        _ => {
            if s2.root == s.root {
                lemma_same_entries(b, s, s2);
            } else {
                assert(s2.created.len() == 0);
            }
        },
    }
}

} // verus!
