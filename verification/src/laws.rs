//! What every step of a build guarantees.

use crate::builder::{BuilderModel, KindModel};
use crate::directory::TempDirectoryModel;
use crate::error::BuildErrorModel;
use crate::paths::{cleaned, has_path_prefix, is_absolute_path, joined};
use crate::protocol::{
    ActionModel,
    ContentModel,
    created_in_place,
    entry_target,
    EventModel,
    is_random_child,
    lemma_next_with_permissions,
    lemma_transition_keeps_wf,
    MAX_RANDOM_DIRECTORY_ATTEMPTS,
    RunModel,
    Stage,
    SymlinkFlavor,
    transition,
};
use vstd::prelude::*;

verus! {

/// A build succeeds only once every entry was created, each inside the root
/// at its cleaned path; the directory it gives is the root, deleted on drop
/// as the builder said.
pub proof fn lemma_finish_after_all_entries(
    b: BuilderModel,
    s: RunModel,
    e: EventModel,
    s2: RunModel,
    a: ActionModel,
)
    requires
        s.wf(b),
        b.entries.len() <= usize::MAX,
        transition(b, s, e, s2, a),
        a is Finish,
    ensures
        s2.created.len() == b.entries.len(),
        forall|k: int| 0 <= k < s2.created.len() ==> #[trigger] created_in_place(b, s2, k),
        a == ActionModel::Finish(TempDirectoryModel { path: s2.root, delete_on_drop: b.delete_on_drop }),
{
    lemma_transition_keeps_wf(b, s, e, s2, a);
}

/// An entry is created only right after the place where it goes was found
/// free (and its parent directories created), or after its text was
/// generated; that place is inside the root.
pub proof fn lemma_created_only_after_probe(
    b: BuilderModel,
    s: RunModel,
    e: EventModel,
    s2: RunModel,
    a: ActionModel,
    i: usize,
)
    requires
        s.wf(b),
        b.entries.len() <= usize::MAX,
        transition(b, s, e, s2, a),
        s2.stage == (Stage::Creating { index: i }) || s2.stage == (Stage::Generating { index: i }),
    ensures
        (s.stage == Stage::Probing { index: i } && e == EventModel::Present(false)) || (s.stage
            == Stage::CreatingParent { index: i } && e == EventModel::Done) || s.stage
            == (Stage::Generating { index: i }),
        s2.current == entry_target(s2.root, b.entries[i as int]),
        has_path_prefix(s2.current, s2.root),
{
    lemma_transition_keeps_wf(b, s, e, s2, a);
}

/// A build fails with `DuplicateEntry` only when something was found where
/// the entry being processed goes, and names that place.
pub proof fn lemma_duplicate_only_when_present(
    b: BuilderModel,
    s: RunModel,
    e: EventModel,
    s2: RunModel,
    a: ActionModel,
    p: Seq<char>,
)
    requires
        s.wf(b),
        b.entries.len() <= usize::MAX,
        transition(b, s, e, s2, a),
        a == ActionModel::Fail(BuildErrorModel::DuplicateEntry(p)),
    ensures
        s.stage is Probing,
        e == EventModel::Present(true),
        p == s.current,
        p == entry_target(s.root, b.entries[s.created.len() as int]),
{
    lemma_transition_keeps_wf(b, s, e, s2, a);
}

/// A build fails with `EmptyEntryName(i)` only when entry `i` has an empty
/// path, after every entry before it was created.
pub proof fn lemma_empty_name_error(
    b: BuilderModel,
    s: RunModel,
    e: EventModel,
    s2: RunModel,
    a: ActionModel,
    i: usize,
)
    requires
        s.wf(b),
        b.entries.len() <= usize::MAX,
        transition(b, s, e, s2, a),
        a == ActionModel::Fail(BuildErrorModel::EmptyEntryName(i)),
    ensures
        i < b.entries.len(),
        b.entries[i as int].path.len() == 0,
        s2.created.len() == i,
        forall|k: int| 0 <= k < i ==> #[trigger] created_in_place(b, s2, k),
{
    lemma_transition_keeps_wf(b, s, e, s2, a);
}

/// A build fails with `EntryOutsideDirectory(p)` only when `p` is the path of
/// the next entry to create and its cleaned place lies outside the root.
pub proof fn lemma_outside_error(
    b: BuilderModel,
    s: RunModel,
    e: EventModel,
    s2: RunModel,
    a: ActionModel,
    p: Seq<char>,
)
    requires
        s.wf(b),
        b.entries.len() <= usize::MAX,
        transition(b, s, e, s2, a),
        a == ActionModel::Fail(BuildErrorModel::EntryOutsideDirectory(p)),
    ensures
        s2.created.len() < b.entries.len(),
        p == b.entries[s2.created.len() as int].path,
        p.len() > 0,
        !has_path_prefix(entry_target(s2.root, b.entries[s2.created.len() as int]), s2.root),
{
    lemma_transition_keeps_wf(b, s, e, s2, a);
}

/// A build fails with `PermissionsOnSymlink(p)` only once every entry was
/// created, and `p` is where a symbolic link that asked for permissions went.
pub proof fn lemma_permissions_on_symlink_error(
    b: BuilderModel,
    s: RunModel,
    e: EventModel,
    s2: RunModel,
    a: ActionModel,
    p: Seq<char>,
)
    requires
        s.wf(b),
        b.entries.len() <= usize::MAX,
        transition(b, s, e, s2, a),
        a == ActionModel::Fail(BuildErrorModel::PermissionsOnSymlink(p)),
    ensures
        s2.created.len() == b.entries.len(),
        exists|j: int|
            0 <= j < b.entries.len() && (#[trigger] b.entries[j]).kind.is_symlink()
                && b.entries[j].has_permissions() && p == s2.created[j],
{
    lemma_transition_keeps_wf(b, s, e, s2, a);
    if let Stage::SettingMode { index } = s.stage {
        lemma_next_with_permissions(b.entries, index + 1);
    }
    if let Stage::Creating { index } = s.stage {
        if index + 1 >= b.entries.len() {
            lemma_next_with_permissions(b.entries, 0);
        }
    }
    if s.stage is Canonicalizing && b.entries.len() == 0 {
        lemma_next_with_permissions(b.entries, 0);
    }
}

/// A random root is only ever tried as a random name inside the system's
/// temporary directory, and at most `MAX_RANDOM_DIRECTORY_ATTEMPTS` times.
pub proof fn lemma_random_root_candidate(
    b: BuilderModel,
    s: RunModel,
    e: EventModel,
    s2: RunModel,
    a: ActionModel,
    attempt: u32,
)
    requires
        s.wf(b),
        b.entries.len() <= usize::MAX,
        transition(b, s, e, s2, a),
        s2.stage == (Stage::CreatingRandomRoot { attempt }),
    ensures
        is_random_child(s2.root, s2.temp_dir),
        a == ActionModel::CreateDir(s2.root),
        attempt < MAX_RANDOM_DIRECTORY_ATTEMPTS,
{
    lemma_transition_keeps_wf(b, s, e, s2, a);
}

/// Once the canonical form of the root is known, no step changes the root:
/// the directory that a build gives is the one that the file system
/// reported as the canonical form of the root.
pub proof fn lemma_root_is_the_canonical_one(
    b: BuilderModel,
    s: RunModel,
    e: EventModel,
    s2: RunModel,
    a: ActionModel,
)
    requires
        s.wf(b),
        b.entries.len() <= usize::MAX,
        transition(b, s, e, s2, a),
    ensures
        s.stage is Canonicalizing && e is Canonical ==> s2.root == e->Canonical_0,
        s.stage is Probing || s.stage is CreatingParent || s.stage is Generating || s.stage is Creating
            || s.stage is ReadingMode || s.stage is SettingMode ==> s2.root == s.root,
        a is Finish ==> (s.stage is Canonicalizing && s2.root == e->Canonical_0) || (s2.root
            == s.root && !(s.stage is Canonicalizing)),
{
}

/// Building twice into the same root. Once a build of `b` has finished with
/// a directory, a second build of `b` whose root has the same canonical form
/// probes, for the first entry, the very place where the first build created
/// it; found there (the tree being untouched since), the second build fails
/// with `DuplicateEntry` naming that place.
pub proof fn lemma_second_build_finds_first_entry(
    b: BuilderModel,
    s: RunModel,
    e: EventModel,
    s2: RunModel,
    a: ActionModel,
    t: RunModel,
    t2: RunModel,
    c: ActionModel,
    t3: RunModel,
    c2: ActionModel,
)
    requires
        s.wf(b),
        t.wf(b),
        b.entries.len() <= usize::MAX,
        b.entries.len() > 0,
        transition(b, s, e, s2, a),
        a is Finish,
        t.stage is Canonicalizing,
        transition(b, t, EventModel::Canonical(a->Finish_0.path), t2, c),
        transition(b, t2, EventModel::Present(true), t3, c2),
    ensures
        c == ActionModel::ProbeEntry(s2.created[0]),
        c2 == ActionModel::Fail(BuildErrorModel::DuplicateEntry(s2.created[0])),
        s2.created[0] == entry_target(a->Finish_0.path, b.entries[0]),
{
    lemma_finish_after_all_entries(b, s, e, s2, a);
    assert(created_in_place(b, s2, 0));
}

/// Entries are only probed or created, permissions only taken up, and a
/// build only finishes, once the root was canonicalized: every step that
/// enters an entry or permission stage, or finishes, starts either from the
/// canonicalization of the root, taking the reported canonical form as the
/// root, or from an entry or permission stage, keeping the root. No step
/// from the creation or inspection of the root goes there directly.
pub proof fn lemma_entries_only_after_canonical_root(
    b: BuilderModel,
    s: RunModel,
    e: EventModel,
    s2: RunModel,
    a: ActionModel,
)
    requires
        s.wf(b),
        b.entries.len() <= usize::MAX,
        transition(b, s, e, s2, a),
        s2.stage is Probing || s2.stage is CreatingParent || s2.stage is Generating
            || s2.stage is Creating || s2.stage is ReadingMode || s2.stage is SettingMode
            || a is Finish || a is ProbeEntry,
    ensures
        (s.stage is Canonicalizing && e is Canonical && s2.root == e->Canonical_0) || ((
        s.stage is Probing || s.stage is CreatingParent || s.stage is Generating
            || s.stage is Creating || s.stage is ReadingMode || s.stage is SettingMode)
            && s2.root == s.root),
        !(s.stage is CreatingFixedRoot || s.stage is CreatingRootParent || s.stage is InspectingRoot
            || s.stage is CreatingRandomRoot || s.stage is LocatingTempDir || s.stage is Ready),
{
}

/// The permission bits of an entry are read from that entry itself, and set
/// on that same entry: entering the reading of entry `j`'s bits asks for the
/// bits at the place where entry `j` was created; the bits then set there
/// are those asked for (`set_mode`) or else the ones read, with every write
/// bit cleared (`set_readonly(true)`) or the owner's write bit set
/// (`set_readonly(false)`).
pub proof fn lemma_mode_read_and_set_on_the_entry_itself(
    b: BuilderModel,
    s: RunModel,
    e: EventModel,
    s2: RunModel,
    a: ActionModel,
)
    requires
        s.wf(b),
        b.entries.len() <= usize::MAX,
        transition(b, s, e, s2, a),
    ensures
        s2.stage matches Stage::ReadingMode { index } ==> {
            &&& a == ActionModel::ReadMode(s2.created[index as int])
            &&& s2.created[index as int] == entry_target(s2.root, b.entries[index as int])
            &&& s2.created.len() == b.entries.len()
        },
        s.stage matches Stage::ReadingMode { index } ==> e matches EventModel::Mode(m) ==> {
            let entry = b.entries[index as int];
            let base = match entry.mode {
                Some(x) => x,
                None => m,
            };
            a == ActionModel::SetMode {
                path: s.created[index as int],
                mode: match entry.readonly {
                    Some(true) => base & !0o222u32,
                    Some(false) => base | 0o200u32,
                    None => base,
                },
            }
        },
{
    lemma_transition_keeps_wf(b, s, e, s2, a);
    if let Stage::ReadingMode { index } = s2.stage {
        assert(created_in_place(b, s2, index as int));
        match s.stage {
            Stage::SettingMode { index: k } => lemma_next_with_permissions(b.entries, k + 1),
            _ => lemma_next_with_permissions(b.entries, 0),
        }
    }
}

/// The work that creates entry `i`, for each kind of entry, in terms of the
/// builder alone: it is done at the entry's place (its path joined to the
/// root and cleaned); a generator is handed the root itself; a copied file
/// is read from its source exactly as given; a link added with
/// `add_symlink` (or its file and directory forms) points to its target kept
/// verbatim when absolute and otherwise joined to the root and cleaned,
/// whatever the link's own path; a link added with `add_relative_symlink`
/// points to its target verbatim.
pub proof fn lemma_creation_work(
    b: BuilderModel,
    s: RunModel,
    e: EventModel,
    s2: RunModel,
    a: ActionModel,
    i: usize,
)
    requires
        s.wf(b),
        b.entries.len() <= usize::MAX,
        transition(b, s, e, s2, a),
        s2.stage == (Stage::Creating { index: i }) || s2.stage == (Stage::Generating { index: i }),
    ensures
        i < b.entries.len(),
        s2.root == s.root,
        !(s.stage is Generating) ==> match b.entries[i as int].kind {
            KindModel::Directory => a == ActionModel::CreateDir(
                cleaned(joined(s2.root, b.entries[i as int].path)),
            ),
            KindModel::EmptyFile => a == (ActionModel::WriteFile {
                path: cleaned(joined(s2.root, b.entries[i as int].path)),
                content: ContentModel::Empty,
            }),
            KindModel::TextFile(t) => a == (ActionModel::WriteFile {
                path: cleaned(joined(s2.root, b.entries[i as int].path)),
                content: ContentModel::Text(t),
            }),
            KindModel::TextFileWith(source) => a == (ActionModel::GenerateText {
                source,
                root: s2.root,
            }),
            KindModel::BinaryFile(bytes) => a == (ActionModel::WriteFile {
                path: cleaned(joined(s2.root, b.entries[i as int].path)),
                content: ContentModel::Bytes(bytes),
            }),
            KindModel::FileToCopy(from) => a == (ActionModel::CopyFile {
                from,
                to: cleaned(joined(s2.root, b.entries[i as int].path)),
            }),
            KindModel::Symlink(t) => a == (ActionModel::CreateSymlink {
                target: if is_absolute_path(t) {
                    t
                } else {
                    cleaned(joined(s2.root, t))
                },
                link: cleaned(joined(s2.root, b.entries[i as int].path)),
                flavor: SymlinkFlavor::Auto,
            }),
            KindModel::RelativeSymlink(t) => a == (ActionModel::CreateSymlink {
                target: t,
                link: cleaned(joined(s2.root, b.entries[i as int].path)),
                flavor: SymlinkFlavor::Auto,
            }),
            KindModel::SymlinkDir(t) => a == (ActionModel::CreateSymlink {
                target: if is_absolute_path(t) {
                    t
                } else {
                    cleaned(joined(s2.root, t))
                },
                link: cleaned(joined(s2.root, b.entries[i as int].path)),
                flavor: SymlinkFlavor::Dir,
            }),
            KindModel::SymlinkFile(t) => a == (ActionModel::CreateSymlink {
                target: if is_absolute_path(t) {
                    t
                } else {
                    cleaned(joined(s2.root, t))
                },
                link: cleaned(joined(s2.root, b.entries[i as int].path)),
                flavor: SymlinkFlavor::File,
            }),
        },
        s.stage is Generating ==> {
            &&& e is Text
            &&& a == (ActionModel::WriteFile {
                path: cleaned(joined(s2.root, b.entries[i as int].path)),
                content: ContentModel::Text(e->Text_0),
            })
        },
{
    lemma_transition_keeps_wf(b, s, e, s2, a);
}

} // verus!
