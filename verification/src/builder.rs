//! The description of a tree to create: its root, its entries and what
//! happens to it afterwards.

use vstd::prelude::*;
use vstd::slice::slice_to_vec;

verus! {

/// Where the tree is created.
#[derive(Debug)]
pub enum Root {
    /// A fresh directory with a random name inside the system's temporary
    /// directory.
    Random,
    /// A fixed directory given by the caller.
    Fixed(String),
}

/// What an entry is.
#[derive(Debug)]
pub enum Kind {
    Directory,
    EmptyFile,
    TextFile(String),
    /// A text file whose content the generator with this number computes
    /// from the root path when the tree is built.
    TextFileWith(usize),
    BinaryFile(Vec<u8>),
    FileToCopy(String),
    Symlink(String),
    RelativeSymlink(String),
    SymlinkDir(String),
    SymlinkFile(String),
}

/// An entry, file or directory, to be created.
#[derive(Debug)]
pub struct Entry {
    /// Path of the entry relative to the root folder.
    pub path: String,
    pub kind: Kind,
    /// Whether the entry must be made read-only.
    pub readonly: Option<bool>,
    /// The Unix permission bits to apply to the entry.
    pub mode: Option<u32>,
}

/// Where the tree is created.
pub enum RootModel {
    Random,
    Fixed(Seq<char>),
}

/// What an entry is.
pub enum KindModel {
    Directory,
    EmptyFile,
    TextFile(Seq<char>),
    TextFileWith(usize),
    BinaryFile(Seq<u8>),
    FileToCopy(Seq<char>),
    Symlink(Seq<char>),
    RelativeSymlink(Seq<char>),
    SymlinkDir(Seq<char>),
    SymlinkFile(Seq<char>),
}

/// An entry to be created.
pub struct EntryModel {
    pub path: Seq<char>,
    pub kind: KindModel,
    pub readonly: Option<bool>,
    pub mode: Option<u32>,
}

/// What a builder holds.
pub struct BuilderModel {
    pub root: RootModel,
    pub entries: Seq<EntryModel>,
    pub delete_on_drop: bool,
}

impl KindModel {
    /// Whether the entry is a symbolic link.
    pub open spec fn is_symlink(self) -> bool {
        ||| self is Symlink
        ||| self is RelativeSymlink
        ||| self is SymlinkDir
        ||| self is SymlinkFile
    }
}

impl EntryModel {
    /// A freshly added entry: no permission asked for.
    pub open spec fn fresh(path: Seq<char>, kind: KindModel) -> EntryModel {
        EntryModel { path, kind, readonly: None, mode: None }
    }

    /// Whether permissions were asked for.
    pub open spec fn has_permissions(self) -> bool {
        self.readonly is Some || self.mode is Some
    }
}

impl BuilderModel {
    /// The builder with one more entry at the end.
    pub open spec fn with_entry(self, path: Seq<char>, kind: KindModel) -> BuilderModel {
        BuilderModel { entries: self.entries.push(EntryModel::fresh(path, kind)), ..self }
    }

    /// The builder with its last entry replaced by `e`.
    pub open spec fn with_last(self, e: EntryModel) -> BuilderModel
        recommends
            self.entries.len() > 0,
    {
        BuilderModel { entries: self.entries.update(self.entries.len() - 1, e), ..self }
    }
}

impl View for Root {
    type V = RootModel;

    open spec fn view(&self) -> RootModel {
        match self {
            Root::Random => RootModel::Random,
            Root::Fixed(p) => RootModel::Fixed(p@),
        }
    }
}

impl View for Kind {
    type V = KindModel;

    open spec fn view(&self) -> KindModel {
        match self {
            Kind::Directory => KindModel::Directory,
            Kind::EmptyFile => KindModel::EmptyFile,
            Kind::TextFile(t) => KindModel::TextFile(t@),
            Kind::TextFileWith(s) => KindModel::TextFileWith(*s),
            Kind::BinaryFile(b) => KindModel::BinaryFile(b@),
            Kind::FileToCopy(p) => KindModel::FileToCopy(p@),
            Kind::Symlink(p) => KindModel::Symlink(p@),
            Kind::RelativeSymlink(p) => KindModel::RelativeSymlink(p@),
            Kind::SymlinkDir(p) => KindModel::SymlinkDir(p@),
            Kind::SymlinkFile(p) => KindModel::SymlinkFile(p@),
        }
    }
}

impl Kind {
    /// Whether the entry is a symbolic link.
    pub fn is_symlink(&self) -> (r: bool)
        ensures
            r == self@.is_symlink(),
    {
        match self {
            Kind::Symlink(_) | Kind::RelativeSymlink(_) | Kind::SymlinkDir(_) | Kind::SymlinkFile(_) => true,
            _ => false,
        }
    }
}

impl View for Entry {
    type V = EntryModel;

    open spec fn view(&self) -> EntryModel {
        EntryModel { path: self.path@, kind: self.kind@, readonly: self.readonly, mode: self.mode }
    }
}

/// A temporary directory builder that contains a list of entries to be created.
#[derive(Debug)]
pub struct TempDirectoryBuilder {
    /// Root folder where the tree will be created.
    root: Root,
    /// List of file metadata entries in the tree.
    entries: Vec<Entry>,
    /// Whether the temporary directory created must be deleted when the instance is dropped.
    delete_on_drop: bool,
}

impl View for TempDirectoryBuilder {
    type V = BuilderModel;

    closed spec fn view(&self) -> BuilderModel {
        BuilderModel {
            root: self.root@,
            entries: self.entries@.map_values(|e: Entry| e@),
            delete_on_drop: self.delete_on_drop,
        }
    }
}

impl Default for TempDirectoryBuilder {
    /// An empty builder: random root, no entry, deleted on drop.
    fn default() -> (r: Self)
        ensures
            r@ == (BuilderModel { root: RootModel::Random, entries: seq![], delete_on_drop: true }),
    {
        let r = TempDirectoryBuilder { entries: Vec::new(), root: Root::Random, delete_on_drop: true };
        assert(r@.entries =~= seq![]);
        r
    }
}

/// A builder returned after an entry is added, allowing permissions
/// to be configured before continuing to build the tree.
#[derive(Debug)]
pub struct EntryBuilder {
    builder: TempDirectoryBuilder,
    entry_index: usize,
}

impl View for EntryBuilder {
    type V = BuilderModel;

    closed spec fn view(&self) -> BuilderModel {
        self.builder@
    }
}

impl EntryBuilder {
    #[verifier::type_invariant]
    spec fn last_entry_is_current(&self) -> bool {
        self.entry_index + 1 == self.builder.entries@.len()
    }
}

impl TempDirectoryBuilder {
    /// Sets the root folder where the tree will be created.
    /// By default this is a fresh directory in the system's temporary directory.
    pub fn root_folder(self, dir: &str) -> (r: Self)
        ensures
            r@ == (BuilderModel { root: RootModel::Fixed(dir@), ..self@ }),
    {
        let mut b = self;
        b.root = Root::Fixed(dir.to_owned());
        b
    }

    /// Specifies whether to automatically delete the temporary folder when the
    /// `TempDirectory` instance is dropped. By default this is set to `true`.
    pub fn delete_on_drop(self, delete_on_drop: bool) -> (r: Self)
        ensures
            r@ == (BuilderModel { delete_on_drop, ..self@ }),
    {
        let mut b = self;
        b.delete_on_drop = delete_on_drop;
        b
    }

    fn add(self, path: &str, kind: Kind) -> (r: EntryBuilder)
        ensures
            r@ == self@.with_entry(path@, kind@),
    {
        let mut b = self;
        b.entries.push(Entry { path: path.to_owned(), kind, readonly: None, mode: None });
        let entry_index = b.entries.len() - 1;
        assert(b@.entries =~= self@.entries.push(EntryModel::fresh(path@, kind@)));
        EntryBuilder { builder: b, entry_index }
    }
}


impl EntryBuilder {
    fn last_entry_mut(&mut self) -> (e: &mut Entry)
        ensures
            *e == old(self).builder.entries@[old(self).entry_index as int],
            final(self).builder.entries@ == old(self).builder.entries@.update(
                old(self).entry_index as int,
                *final(e),
            ),
            final(self).builder.root == old(self).builder.root,
            final(self).builder.delete_on_drop == old(self).builder.delete_on_drop,
            final(self).entry_index == old(self).entry_index,
    {
        proof {
            use_type_invariant(&*self);
        }
        &mut self.builder.entries[self.entry_index]
    }

    /// Sets whether the entry just added is read-only.
    pub fn set_readonly(self, readonly: bool) -> (r: Self)
        ensures
            self@.entries.len() > 0,
            r@ == self@.with_last(EntryModel { readonly: Some(readonly), ..self@.entries.last() }),
    {
        proof {
            use_type_invariant(&self);
        }
        let ghost before = self@;
        let mut b = self;
        b.last_entry_mut().readonly = Some(readonly);
        assert(b@.entries =~= before.entries.update(
            before.entries.len() - 1,
            EntryModel { readonly: Some(readonly), ..before.entries.last() },
        ));
        b
    }
}


impl TempDirectoryBuilder {
    /// Adds an empty file.
    /// * `path` - Path of the entry, relative to the root. A path that leads
    ///   outside the root fails the build with `BuildError::EntryOutsideDirectory`.
    pub fn add_empty_file(self, path: &str) -> (r: EntryBuilder)
        ensures
            r@ == self@.with_entry(path@, KindModel::EmptyFile),
    {
        self.add(path, Kind::EmptyFile)
    }

    /// Adds a directory.
    /// * `path` - Path of the entry, relative to the root. A path that leads
    ///   outside the root fails the build with `BuildError::EntryOutsideDirectory`.
    pub fn add_directory(self, path: &str) -> (r: EntryBuilder)
        ensures
            r@ == self@.with_entry(path@, KindModel::Directory),
    {
        self.add(path, Kind::Directory)
    }

    /// Adds a text file with the given content.
    /// * `path` - Path of the entry, relative to the root. A path that leads
    ///   outside the root fails the build with `BuildError::EntryOutsideDirectory`.
    pub fn add_text_file(self, path: &str, text: &str) -> (r: EntryBuilder)
        ensures
            r@ == self@.with_entry(path@, KindModel::TextFile(text@)),
    {
        self.add(path, Kind::TextFile(text.to_owned()))
    }

    /// Adds a binary file with the given bytes.
    /// * `path` - Path of the entry, relative to the root. A path that leads
    ///   outside the root fails the build with `BuildError::EntryOutsideDirectory`.
    pub fn add_binary_file(self, path: &str, content: &[u8]) -> (r: EntryBuilder)
        ensures
            r@ == self@.with_entry(path@, KindModel::BinaryFile(content@)),
    {
        self.add(path, Kind::BinaryFile(slice_to_vec(content)))
    }

    /// Adds a text file whose content is computed from the root path of the
    /// temporary directory when the tree is built, by the generator that the
    /// caller registered under the number `source`.
    /// * `path` - Path of the entry, relative to the root. A path that leads
    ///   outside the root fails the build with `BuildError::EntryOutsideDirectory`.
    pub fn add_text_file_with(self, path: &str, source: usize) -> (r: EntryBuilder)
        ensures
            r@ == self@.with_entry(path@, KindModel::TextFileWith(source)),
    {
        self.add(path, Kind::TextFileWith(source))
    }

    /// Adds a file whose content is copied from `file`; a relative `file` is
    /// resolved against the current working directory.
    /// * `path` - Path of the entry, relative to the root. A path that leads
    ///   outside the root fails the build with `BuildError::EntryOutsideDirectory`.
    pub fn add_file(self, path: &str, file: &str) -> (r: EntryBuilder)
        ensures
            r@ == self@.with_entry(path@, KindModel::FileToCopy(file@)),
    {
        self.add(path, Kind::FileToCopy(file.to_owned()))
    }

    /// Adds a symbolic link. A relative target is resolved against the root of
    /// the temporary directory and written as an absolute path; an absolute
    /// target is written verbatim.
    /// * `path` - Path of the entry, relative to the root. A path that leads
    ///   outside the root fails the build with `BuildError::EntryOutsideDirectory`.
    pub fn add_symlink(self, path: &str, target: &str) -> (r: EntryBuilder)
        ensures
            r@ == self@.with_entry(path@, KindModel::Symlink(target@)),
    {
        self.add(path, Kind::Symlink(target.to_owned()))
    }

    /// Adds a symbolic link whose target is written verbatim, interpreted by
    /// the OS relative to the link's parent directory.
    /// * `path` - Path of the entry, relative to the root. A path that leads
    ///   outside the root fails the build with `BuildError::EntryOutsideDirectory`.
    pub fn add_relative_symlink(self, path: &str, target: &str) -> (r: EntryBuilder)
        ensures
            r@ == self@.with_entry(path@, KindModel::RelativeSymlink(target@)),
    {
        self.add(path, Kind::RelativeSymlink(target.to_owned()))
    }

    /// Adds a symbolic link explicitly created as a directory link, for a
    /// target that does not exist yet (the distinction matters on Windows).
    /// * `path` - Path of the entry, relative to the root. A path that leads
    ///   outside the root fails the build with `BuildError::EntryOutsideDirectory`.
    pub fn add_symlink_dir(self, path: &str, target: &str) -> (r: EntryBuilder)
        ensures
            r@ == self@.with_entry(path@, KindModel::SymlinkDir(target@)),
    {
        self.add(path, Kind::SymlinkDir(target.to_owned()))
    }

    /// Adds a symbolic link explicitly created as a file link, for a target
    /// that does not exist yet (the distinction matters on Windows).
    /// * `path` - Path of the entry, relative to the root. A path that leads
    ///   outside the root fails the build with `BuildError::EntryOutsideDirectory`.
    pub fn add_symlink_file(self, path: &str, target: &str) -> (r: EntryBuilder)
        ensures
            r@ == self@.with_entry(path@, KindModel::SymlinkFile(target@)),
    {
        self.add(path, Kind::SymlinkFile(target.to_owned()))
    }
}

impl EntryBuilder {
    /// Adds an empty file.
    pub fn add_empty_file(self, path: &str) -> (r: Self)
        ensures
            r@ == self@.with_entry(path@, KindModel::EmptyFile),
    {
        self.builder.add_empty_file(path)
    }

    /// Adds a directory.
    pub fn add_directory(self, path: &str) -> (r: Self)
        ensures
            r@ == self@.with_entry(path@, KindModel::Directory),
    {
        self.builder.add_directory(path)
    }

    /// Adds a text file with the given content.
    pub fn add_text_file(self, path: &str, text: &str) -> (r: Self)
        ensures
            r@ == self@.with_entry(path@, KindModel::TextFile(text@)),
    {
        self.builder.add_text_file(path, text)
    }

    /// Adds a binary file with the given bytes.
    pub fn add_binary_file(self, path: &str, content: &[u8]) -> (r: Self)
        ensures
            r@ == self@.with_entry(path@, KindModel::BinaryFile(content@)),
    {
        self.builder.add_binary_file(path, content)
    }

    /// Adds a text file whose content is computed from the root path of the
    /// temporary directory when the tree is built, by the generator that the
    /// caller registered under the number `source`.
    pub fn add_text_file_with(self, path: &str, source: usize) -> (r: Self)
        ensures
            r@ == self@.with_entry(path@, KindModel::TextFileWith(source)),
    {
        self.builder.add_text_file_with(path, source)
    }

    /// Adds a file whose content is copied from `file`; a relative `file` is
    /// resolved against the current working directory.
    pub fn add_file(self, path: &str, file: &str) -> (r: Self)
        ensures
            r@ == self@.with_entry(path@, KindModel::FileToCopy(file@)),
    {
        self.builder.add_file(path, file)
    }

    /// Adds a symbolic link. A relative target is resolved against the root of
    /// the temporary directory and written as an absolute path; an absolute
    /// target is written verbatim.
    pub fn add_symlink(self, path: &str, target: &str) -> (r: Self)
        ensures
            r@ == self@.with_entry(path@, KindModel::Symlink(target@)),
    {
        self.builder.add_symlink(path, target)
    }

    /// Adds a symbolic link whose target is written verbatim, interpreted by
    /// the OS relative to the link's parent directory.
    pub fn add_relative_symlink(self, path: &str, target: &str) -> (r: Self)
        ensures
            r@ == self@.with_entry(path@, KindModel::RelativeSymlink(target@)),
    {
        self.builder.add_relative_symlink(path, target)
    }

    /// Adds a symbolic link explicitly created as a directory link, for a
    /// target that does not exist yet (the distinction matters on Windows).
    pub fn add_symlink_dir(self, path: &str, target: &str) -> (r: Self)
        ensures
            r@ == self@.with_entry(path@, KindModel::SymlinkDir(target@)),
    {
        self.builder.add_symlink_dir(path, target)
    }

    /// Adds a symbolic link explicitly created as a file link, for a target
    /// that does not exist yet (the distinction matters on Windows).
    pub fn add_symlink_file(self, path: &str, target: &str) -> (r: Self)
        ensures
            r@ == self@.with_entry(path@, KindModel::SymlinkFile(target@)),
    {
        self.builder.add_symlink_file(path, target)
    }

    /// Sets the Unix permission bits of the entry just added, e.g. `0o744`.
    pub fn set_mode(self, mode: u32) -> (r: Self)
        ensures
            self@.entries.len() > 0,
            r@ == self@.with_last(EntryModel { mode: Some(mode), ..self@.entries.last() }),
    {
        proof {
            use_type_invariant(&self);
        }
        let ghost before = self@;
        let mut b = self;
        b.last_entry_mut().mode = Some(mode);
        assert(b@.entries =~= before.entries.update(
            before.entries.len() - 1,
            EntryModel { mode: Some(mode), ..before.entries.last() },
        ));
        b
    }

    /// Sets the root folder where the tree will be created.
    pub fn root_folder(self, dir: &str) -> (r: TempDirectoryBuilder)
        ensures
            r@ == (BuilderModel { root: RootModel::Fixed(dir@), ..self@ }),
    {
        self.builder.root_folder(dir)
    }

    /// Specifies whether to automatically delete the temporary folder when the
    /// `TempDirectory` instance is dropped.
    pub fn delete_on_drop(self, delete_on_drop: bool) -> (r: TempDirectoryBuilder)
        ensures
            r@ == (BuilderModel { delete_on_drop, ..self@ }),
    {
        self.builder.delete_on_drop(delete_on_drop)
    }
}


impl TempDirectoryBuilder {
    /// A builder never holds more entries than a `usize` counts.
    pub(crate) proof fn lemma_entries_fit(b: &TempDirectoryBuilder)
        ensures
            b@.entries.len() <= usize::MAX,
    {
        assert(b.entries@.len() == b.entries.len());
    }

    pub(crate) fn entry_count(&self) -> (n: usize)
        ensures
            n == self@.entries.len(),
    {
        self.entries.len()
    }

    pub(crate) fn entry(&self, i: usize) -> (e: &Entry)
        requires
            i < self@.entries.len(),
        ensures
            e@ == self@.entries[i as int],
    {
        &self.entries[i]
    }

    pub(crate) fn root_kind(&self) -> (r: &Root)
        ensures
            r@ == self@.root,
    {
        &self.root
    }

    pub(crate) fn deletes_on_drop(&self) -> (r: bool)
        ensures
            r == self@.delete_on_drop,
    {
        self.delete_on_drop
    }
}

impl EntryBuilder {
    pub(crate) fn builder(&self) -> (b: &TempDirectoryBuilder)
        ensures
            b@ == self@,
    {
        &self.builder
    }
}

} // verus!
