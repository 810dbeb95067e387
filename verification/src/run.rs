//! A build in progress: the decisions of a build, one step at a time.

use crate::builder::{BuilderModel, EntryBuilder, Kind, Root, TempDirectoryBuilder};
use crate::directory::TempDirectory;
use crate::error::{BuildError, IoErrorKind, IoFailure};
use crate::paths::{clean_path, join_paths, path_parent, path_starts_with, resolve_symlink_target};
use crate::permissions::permission_mode;
use crate::protocol::{
    accepts,
    ActionModel,
    ContentModel,
    created_in_place,
    creation_error,
    entries_in_place,
    EventModel,
    fails,
    lemma_next_with_permissions,
    lemma_transition_keeps_wf,
    MAX_RANDOM_DIRECTORY_ATTEMPTS,
    RunModel,
    Stage,
    starts_creation,
    starts_entry,
    starts_permissions,
    SymlinkFlavor,
    transition,
    tries_random_root,
};
use crate::random::{random_name, seeded_rng};
use vstd::prelude::*;
use vstd::slice::slice_to_vec;

verus! {

/// What a new file holds.
#[derive(Debug)]
pub enum Content {
    Empty,
    Text(String),
    Bytes(Vec<u8>),
}

impl View for Content {
    type V = ContentModel;

    open spec fn view(&self) -> ContentModel {
        match self {
            Content::Empty => ContentModel::Empty,
            Content::Text(t) => ContentModel::Text(t@),
            Content::Bytes(b) => ContentModel::Bytes(b@),
        }
    }
}

/// A piece of file system work that a build asks for (see `ActionModel`).
#[derive(Debug)]
pub enum BuildAction {
    LocateTempDir,
    CreateDir(String),
    CreateDirAll(String),
    InspectRoot(String),
    Canonicalize(String),
    ProbeEntry(String),
    GenerateText { source: usize, root: String },
    WriteFile { path: String, content: Content },
    CopyFile { from: String, to: String },
    CreateSymlink { target: String, link: String, flavor: SymlinkFlavor },
    ReadMode(String),
    SetMode { path: String, mode: u32 },
    Finish(TempDirectory),
    Fail(BuildError),
}

impl View for BuildAction {
    type V = ActionModel;

    open spec fn view(&self) -> ActionModel {
        match self {
            BuildAction::LocateTempDir => ActionModel::LocateTempDir,
            BuildAction::CreateDir(p) => ActionModel::CreateDir(p@),
            BuildAction::CreateDirAll(p) => ActionModel::CreateDirAll(p@),
            BuildAction::InspectRoot(p) => ActionModel::InspectRoot(p@),
            BuildAction::Canonicalize(p) => ActionModel::Canonicalize(p@),
            BuildAction::ProbeEntry(p) => ActionModel::ProbeEntry(p@),
            BuildAction::GenerateText { source, root } => ActionModel::GenerateText {
                source: *source,
                root: root@,
            },
            BuildAction::WriteFile { path, content } => ActionModel::WriteFile {
                path: path@,
                content: content@,
            },
            BuildAction::CopyFile { from, to } => ActionModel::CopyFile { from: from@, to: to@ },
            BuildAction::CreateSymlink { target, link, flavor } => ActionModel::CreateSymlink {
                target: target@,
                link: link@,
                flavor: *flavor,
            },
            BuildAction::ReadMode(p) => ActionModel::ReadMode(p@),
            BuildAction::SetMode { path, mode } => ActionModel::SetMode { path: path@, mode: *mode },
            BuildAction::Finish(d) => ActionModel::Finish(d@),
            BuildAction::Fail(e) => ActionModel::Fail(e@),
        }
    }
}

/// What the file system work produced (see `EventModel`).
#[derive(Debug)]
pub enum BuildEvent {
    Begin,
    Done,
    Failed(IoFailure),
    WriteFailed(IoFailure),
    TempDir(String),
    RootKind { is_symlink: bool, is_dir: bool },
    Canonical(String),
    Present(bool),
    Text(String),
    Mode(u32),
}

impl View for BuildEvent {
    type V = EventModel;

    open spec fn view(&self) -> EventModel {
        match self {
            BuildEvent::Begin => EventModel::Begin,
            BuildEvent::Done => EventModel::Done,
            BuildEvent::Failed(f) => EventModel::Failed(f@),
            BuildEvent::WriteFailed(f) => EventModel::WriteFailed(f@),
            BuildEvent::TempDir(p) => EventModel::TempDir(p@),
            BuildEvent::RootKind { is_symlink, is_dir } => EventModel::RootKind {
                is_symlink: *is_symlink,
                is_dir: *is_dir,
            },
            BuildEvent::Canonical(p) => EventModel::Canonical(p@),
            BuildEvent::Present(b) => EventModel::Present(*b),
            BuildEvent::Text(t) => EventModel::Text(t@),
            BuildEvent::Mode(m) => EventModel::Mode(*m),
        }
    }
}

struct RunState {
    stage: Stage,
    temp_dir: String,
    root: String,
    current: String,
    aux: String,
    created: Vec<String>,
}

impl View for RunState {
    type V = RunModel;

    closed spec fn view(&self) -> RunModel {
        RunModel {
            stage: self.stage,
            temp_dir: self.temp_dir@,
            root: self.root@,
            current: self.current@,
            aux: self.aux@,
            created: self.created@.map_values(|p: String| p@),
        }
    }
}

impl RunState {
    fn initial() -> (r: RunState)
        ensures
            r@ == RunModel::initial(),
    {
        let r = RunState {
            stage: Stage::Ready,
            temp_dir: String::new(),
            root: String::new(),
            current: String::new(),
            aux: String::new(),
            created: Vec::new(),
        };
        assert(r@.created =~= seq![]);
        r
    }
}

fn fail(st: RunState, err: BuildError) -> (r: (RunState, BuildAction))
    ensures
        fails(st@, r.0@, r.1@, err@),
{
    let mut st = st;
    st.stage = Stage::Done;
    (st, BuildAction::Fail(err))
}

fn try_random_root(st: RunState, attempt: u32) -> (r: (RunState, BuildAction))
    ensures
        tries_random_root(st@, attempt, r.0@, r.1@),
{
    match seeded_rng() {
        Ok(mut rng) => {
            let name = random_name(&mut rng);
            let candidate = join_paths(st.temp_dir.as_str(), name.as_str());
            assert(crate::random::is_random_name(name@) && candidate@ == crate::paths::joined(
                st@.temp_dir,
                name@,
            ));
            let mut st = st;
            st.root = candidate;
            st.stage = Stage::CreatingRandomRoot { attempt };
            let action = BuildAction::CreateDir(st.root.clone());
            (st, action)
        },
        Err((code, message)) => {
            let failure = IoFailure { kind: IoErrorKind::Other, code, message };
            let dir = st.temp_dir.clone();
            fail(st, BuildError::FailedToCreateRootDirectory(dir, failure))
        },
    }
}

fn start_permissions(b: &TempDirectoryBuilder, st: RunState, k: usize) -> (r: (
    RunState,
    BuildAction,
))
    requires
        entries_in_place(b@, st@),
        st@.created.len() == b@.entries.len(),
        k <= b@.entries.len(),
    ensures
        starts_permissions(b@, st@, k as int, r.0@, r.1@),
{
    let n = b.entry_count();
    let mut j = k;
    while j < n && b.entry(j).readonly.is_none() && b.entry(j).mode.is_none()
        invariant
            k <= j <= n,
            n == b@.entries.len(),
            crate::protocol::next_with_permissions(b@.entries, k as int)
                == crate::protocol::next_with_permissions(b@.entries, j as int),
        decreases n - j,
    {
        j = j + 1;
    }
    proof {
        lemma_next_with_permissions(b@.entries, j as int);
    }
    let mut st = st;
    if j >= n {
        let dir = TempDirectory::new(st.root.clone(), b.deletes_on_drop());
        st.stage = Stage::Done;
        (st, BuildAction::Finish(dir))
    } else if b.entry(j).kind.is_symlink() {
        let path = st.created[j].clone();
        fail(st, BuildError::PermissionsOnSymlink(path))
    } else {
        let path = st.created[j].clone();
        st.stage = Stage::ReadingMode { index: j };
        (st, BuildAction::ReadMode(path))
    }
}

fn start_entry(b: &TempDirectoryBuilder, st: RunState, i: usize) -> (r: (RunState, BuildAction))
    requires
        entries_in_place(b@, st@),
        st@.created.len() == i,
    ensures
        starts_entry(b@, st@, i as int, r.0@, r.1@),
{
    let n = b.entry_count();
    if i >= n {
        return start_permissions(b, st, 0);
    }
    let e = b.entry(i);
    if e.path.as_str().is_empty() {
        return fail(st, BuildError::EmptyEntryName(i));
    }
    let joined = join_paths(st.root.as_str(), e.path.as_str());
    let target = clean_path(joined.as_str());
    if !path_starts_with(target.as_str(), st.root.as_str()) {
        let path = e.path.clone();
        return fail(st, BuildError::EntryOutsideDirectory(path));
    }
    let mut st = st;
    st.current = target;
    st.stage = Stage::Probing { index: i };
    let action = BuildAction::ProbeEntry(st.current.clone());
    (st, action)
}

fn start_creation(b: &TempDirectoryBuilder, st: RunState, i: usize) -> (r: (RunState, BuildAction))
    requires
        i < b@.entries.len(),
    ensures
        starts_creation(b@, st@, i as int, r.0@, r.1@),
{
    let e = b.entry(i);
    let mut st = st;
    let current = st.current.clone();
    let action = match &e.kind {
        Kind::Directory => BuildAction::CreateDir(current),
        Kind::EmptyFile => BuildAction::WriteFile { path: current, content: Content::Empty },
        Kind::TextFile(t) => BuildAction::WriteFile {
            path: current,
            content: Content::Text(t.clone()),
        },
        Kind::TextFileWith(source) => BuildAction::GenerateText {
            source: *source,
            root: st.root.clone(),
        },
        Kind::BinaryFile(bytes) => BuildAction::WriteFile {
            path: current,
            content: Content::Bytes(slice_to_vec(bytes.as_slice())),
        },
        Kind::FileToCopy(from) => BuildAction::CopyFile { from: from.clone(), to: current },
        Kind::Symlink(t) => BuildAction::CreateSymlink {
            target: resolve_symlink_target(st.root.as_str(), t.as_str()),
            link: current,
            flavor: SymlinkFlavor::Auto,
        },
        Kind::RelativeSymlink(t) => BuildAction::CreateSymlink {
            target: t.clone(),
            link: current,
            flavor: SymlinkFlavor::Auto,
        },
        Kind::SymlinkDir(t) => BuildAction::CreateSymlink {
            target: resolve_symlink_target(st.root.as_str(), t.as_str()),
            link: current,
            flavor: SymlinkFlavor::Dir,
        },
        Kind::SymlinkFile(t) => BuildAction::CreateSymlink {
            target: resolve_symlink_target(st.root.as_str(), t.as_str()),
            link: current,
            flavor: SymlinkFlavor::File,
        },
    };
    st.stage = match &e.kind {
        Kind::TextFileWith(_) => Stage::Generating { index: i },
        _ => Stage::Creating { index: i },
    };
    (st, action)
}

fn creation_failure(kind: &Kind, current: &String, f: IoFailure, writing: bool) -> (err: BuildError)
    ensures
        err@ == creation_error(kind@, current@, f@, writing),
{
    match kind {
        Kind::Directory => BuildError::FailedToCreateDirectory(current.clone(), f),
        Kind::FileToCopy(from) => BuildError::FailedToCopyFile(from.clone(), f),
        Kind::Symlink(_) | Kind::RelativeSymlink(_) | Kind::SymlinkDir(_) | Kind::SymlinkFile(_) => {
            BuildError::FailedToCreateSymlink(current.clone(), f)
        },
        _ => if writing {
            BuildError::FailedToWriteFile(current.clone(), f)
        } else {
            BuildError::FailedToCreateFile(current.clone(), f)
        },
    }
}


/// Records the entry being processed as created, then takes up the next one.
fn finish_entry(b: &TempDirectoryBuilder, st: RunState, i: usize) -> (r: (RunState, BuildAction))
    requires
        st@.wf(b@),
        st@.stage == (Stage::Creating { index: i }),
    ensures
        starts_entry(
            b@,
            RunModel { created: st@.created.push(st@.current), ..st@ },
            i + 1,
            r.0@,
            r.1@,
        ),
{
    let ghost s = st@;
    proof {
        TempDirectoryBuilder::lemma_entries_fit(b);
    }
    let mut st = st;
    let current = st.current.clone();
    st.created.push(current);
    let ghost s1 = RunModel { created: s.created.push(s.current), ..s };
    assert(st@.created =~= s1.created);
    assert(st@ == s1);
    assert forall|k: int| 0 <= k < s1.created.len() implies #[trigger] created_in_place(b@, s1, k) by {
        if k < s.created.len() {
            assert(created_in_place(b@, s, k));
        }
    }
    start_entry(b, st, i + 1)
}

/// One step of the build of `b` in state `st`, given the event `ev`.
fn advance(b: &TempDirectoryBuilder, st: RunState, ev: BuildEvent) -> (r: (RunState, BuildAction))
    requires
        st@.wf(b@),
        accepts(st@.stage, ev@),
    ensures
        transition(b@, st@, ev@, r.0@, r.1@),
{
    let ghost s = st@;
    let mut st = st;
    proof {
        assert(entries_in_place(b@, s));
    }
    match st.stage {
        Stage::Ready => match b.root_kind() {
            Root::Fixed(r) => {
                st.root = r.clone();
                st.stage = Stage::CreatingFixedRoot { retried: false };
                let action = BuildAction::CreateDir(st.root.clone());
                (st, action)
            },
            Root::Random => {
                st.stage = Stage::LocatingTempDir;
                (st, BuildAction::LocateTempDir)
            },
        },
        Stage::LocatingTempDir => match ev {
            BuildEvent::TempDir(t) => {
                st.temp_dir = t;
                try_random_root(st, 0)
            },
            _ => {
                assert(false);
                (st, BuildAction::LocateTempDir)
            },
        },
        Stage::CreatingRandomRoot { attempt } => match ev {
            BuildEvent::Failed(f) => if f.kind == IoErrorKind::AlreadyExists {
                if attempt + 1 < MAX_RANDOM_DIRECTORY_ATTEMPTS {
                    try_random_root(st, attempt + 1)
                } else {
                    let failure = IoFailure::new(
                        IoErrorKind::AlreadyExists,
                        "exhausted attempts to generate an unused random directory name",
                    );
                    let dir = st.temp_dir.clone();
                    fail(st, BuildError::FailedToCreateRootDirectory(dir, failure))
                }
            } else {
                let root = st.root.clone();
                fail(st, BuildError::FailedToCreateRootDirectory(root, f))
            },
            _ => {
                st.stage = Stage::Canonicalizing;
                let action = BuildAction::Canonicalize(st.root.clone());
                (st, action)
            },
        },
        Stage::CreatingFixedRoot { retried } => match ev {
            BuildEvent::Failed(f) => if f.kind == IoErrorKind::AlreadyExists {
                st.stage = Stage::InspectingRoot;
                let action = BuildAction::InspectRoot(st.root.clone());
                (st, action)
            } else if f.kind == IoErrorKind::NotFound && !retried {
                match path_parent(st.root.as_str()) {
                    Some(p) => {
                        st.aux = p;
                        st.stage = Stage::CreatingRootParent;
                        let action = BuildAction::CreateDirAll(st.aux.clone());
                        (st, action)
                    },
                    None => {
                        st.stage = Stage::CreatingFixedRoot { retried: true };
                        let action = BuildAction::CreateDir(st.root.clone());
                        (st, action)
                    },
                }
            } else {
                let root = st.root.clone();
                fail(st, BuildError::FailedToCreateRootDirectory(root, f))
            },
            _ => {
                st.stage = Stage::Canonicalizing;
                let action = BuildAction::Canonicalize(st.root.clone());
                (st, action)
            },
        },
        Stage::CreatingRootParent => match ev {
            BuildEvent::Failed(f) => {
                let root = st.root.clone();
                fail(st, BuildError::FailedToCreateRootDirectory(root, f))
            },
            _ => {
                st.stage = Stage::CreatingFixedRoot { retried: true };
                let action = BuildAction::CreateDir(st.root.clone());
                (st, action)
            },
        },
        Stage::InspectingRoot => match ev {
            BuildEvent::RootKind { is_symlink, is_dir } => if is_symlink {
                let failure = IoFailure::new(IoErrorKind::AlreadyExists, "root path is a symlink");
                let root = st.root.clone();
                fail(st, BuildError::FailedToCreateRootDirectory(root, failure))
            } else if !is_dir {
                let failure = IoFailure::new(
                    IoErrorKind::AlreadyExists,
                    "root path exists and is not a directory",
                );
                let root = st.root.clone();
                fail(st, BuildError::FailedToCreateRootDirectory(root, failure))
            } else {
                st.stage = Stage::Canonicalizing;
                let action = BuildAction::Canonicalize(st.root.clone());
                (st, action)
            },
            BuildEvent::Failed(f) => {
                let root = st.root.clone();
                fail(st, BuildError::FailedToCreateRootDirectory(root, f))
            },
            _ => {
                assert(false);
                (st, BuildAction::LocateTempDir)
            },
        },
        Stage::Canonicalizing => match ev {
            BuildEvent::Canonical(c) => {
                st.root = c;
                st.created = Vec::new();
                assert(st@.created =~= seq![]);
                start_entry(b, st, 0)
            },
            BuildEvent::Failed(f) => {
                let root = st.root.clone();
                fail(st, BuildError::FailedToCreateRootDirectory(root, f))
            },
            _ => {
                assert(false);
                (st, BuildAction::LocateTempDir)
            },
        },
        Stage::Probing { index } => match ev {
            BuildEvent::Present(present) => if present {
                let path = st.current.clone();
                fail(st, BuildError::DuplicateEntry(path))
            } else {
                match path_parent(st.current.as_str()) {
                    Some(p) => {
                        st.aux = p;
                        st.stage = Stage::CreatingParent { index };
                        let action = BuildAction::CreateDirAll(st.aux.clone());
                        (st, action)
                    },
                    None => start_creation(b, st, index),
                }
            },
            _ => {
                assert(false);
                (st, BuildAction::LocateTempDir)
            },
        },
        Stage::CreatingParent { index } => match ev {
            BuildEvent::Failed(f) => {
                let path = st.aux.clone();
                fail(st, BuildError::FailedToCreateDirectory(path, f))
            },
            _ => start_creation(b, st, index),
        },
        Stage::Generating { index } => match ev {
            BuildEvent::Text(t) => {
                st.stage = Stage::Creating { index };
                let action = BuildAction::WriteFile {
                    path: st.current.clone(),
                    content: Content::Text(t),
                };
                (st, action)
            },
            _ => {
                assert(false);
                (st, BuildAction::LocateTempDir)
            },
        },
        Stage::Creating { index } => match ev {
            BuildEvent::Failed(f) => {
                let err = creation_failure(&b.entry(index).kind, &st.current, f, false);
                fail(st, err)
            },
            BuildEvent::WriteFailed(f) => {
                let err = creation_failure(&b.entry(index).kind, &st.current, f, true);
                fail(st, err)
            },
            _ => finish_entry(b, st, index),
        },
        Stage::ReadingMode { index } => match ev {
            BuildEvent::Mode(m) => {
                let e = b.entry(index);
                let mode = permission_mode(e.mode, e.readonly, m);
                let path = st.created[index].clone();
                st.stage = Stage::SettingMode { index };
                (st, BuildAction::SetMode { path, mode })
            },
            BuildEvent::Failed(f) => {
                let path = st.created[index].clone();
                fail(st, BuildError::FailedToSetPermissions(path, f))
            },
            _ => {
                assert(false);
                (st, BuildAction::LocateTempDir)
            },
        },
        Stage::SettingMode { index } => match ev {
            BuildEvent::Failed(f) => {
                let path = st.created[index].clone();
                fail(st, BuildError::FailedToSetPermissions(path, f))
            },
            _ => {
                proof {
                    TempDirectoryBuilder::lemma_entries_fit(b);
                }
                start_permissions(b, st, index + 1)
            },
        },
        Stage::Done => {
            assert(false);
            (st, BuildAction::LocateTempDir)
        },
    }
}

/// A build of a `TempDirectoryBuilder` in progress.
///
/// Each call of `step` takes what the last piece of file system work
/// produced and returns the next piece of work; the build is over when it
/// returns `BuildAction::Finish` or `BuildAction::Fail`.
pub struct BuildRun<'b> {
    builder: &'b TempDirectoryBuilder,
    state: RunState,
}

impl<'b> BuildRun<'b> {
    #[verifier::type_invariant]
    spec fn consistent(&self) -> bool {
        self.state@.wf(self.builder@)
    }

    /// Where the build stands.
    pub closed spec fn model(&self) -> RunModel {
        self.state@
    }

    /// What is being built.
    pub closed spec fn builder_model(&self) -> BuilderModel {
        self.builder@
    }

    /// Whether `event` answers the work that the build waits for.
    pub fn accepts(&self, event: &BuildEvent) -> (r: bool)
        ensures
            r == accepts(self.model().stage, event@),
    {
        match self.state.stage {
            Stage::Ready => matches!(event, BuildEvent::Begin),
            Stage::LocatingTempDir => matches!(event, BuildEvent::TempDir(_)),
            Stage::CreatingRandomRoot { .. }
            | Stage::CreatingFixedRoot { .. }
            | Stage::CreatingRootParent
            | Stage::CreatingParent { .. }
            | Stage::SettingMode { .. } => matches!(event, BuildEvent::Done | BuildEvent::Failed(_)),
            Stage::InspectingRoot => matches!(event, BuildEvent::RootKind { .. } | BuildEvent::Failed(_)),
            Stage::Canonicalizing => matches!(event, BuildEvent::Canonical(_) | BuildEvent::Failed(_)),
            Stage::Probing { .. } => matches!(event, BuildEvent::Present(_)),
            Stage::Generating { .. } => matches!(event, BuildEvent::Text(_)),
            Stage::Creating { .. } => matches!(
                event,
                BuildEvent::Done | BuildEvent::Failed(_) | BuildEvent::WriteFailed(_)
            ),
            Stage::ReadingMode { .. } => matches!(event, BuildEvent::Mode(_) | BuildEvent::Failed(_)),
            Stage::Done => false,
        }
    }

    /// Takes what the last piece of work produced (`BuildEvent::Begin` to
    /// start) and returns the next piece of work.
    pub fn step(&mut self, event: BuildEvent) -> (a: BuildAction)
        requires
            accepts(old(self).model().stage, event@),
        ensures
            transition(old(self).builder_model(), old(self).model(), event@, final(self).model(), a@),
            final(self).builder_model() == old(self).builder_model(),
            final(self).model().wf(final(self).builder_model()),
    {
        proof {
            use_type_invariant(&*self);
        }
        let ghost e = event@;
        let mut st = RunState::initial();
        std::mem::swap(&mut st, &mut self.state);
        let ghost s = st@;
        proof {
            TempDirectoryBuilder::lemma_entries_fit(self.builder);
        }
        let (next, action) = advance(self.builder, st, event);
        proof {
            lemma_transition_keeps_wf(self.builder@, s, e, next@, action@);
        }
        self.state = next;
        action
    }
}

impl TempDirectoryBuilder {
    /// Starts building the tree: the file system work comes from `step`.
    pub fn build<'b>(&'b self) -> (r: BuildRun<'b>)
        ensures
            r.builder_model() == self@,
            r.model() == RunModel::initial(),
    {
        BuildRun { builder: self, state: RunState::initial() }
    }
}

impl EntryBuilder {
    /// Starts building the tree: the file system work comes from `step`.
    pub fn build<'b>(&'b self) -> (r: BuildRun<'b>)
        ensures
            r.builder_model() == self@,
            r.model() == RunModel::initial(),
    {
        self.builder().build()
    }
}

} // verus!
