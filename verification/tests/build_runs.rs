use std::collections::{BTreeMap, BTreeSet};
use std::path::{Path, PathBuf};

use temp_dir_builder::permissions::{deletable_step, DeletableStep};
use temp_dir_builder::{
    BuildAction, BuildError, BuildEvent, BuildRun, Content, IoErrorKind, IoFailure, SymlinkFlavor,
    TempDirectory, TempDirectoryBuilder,
};

/// A file system held in memory, answering the work that a build asks for.
struct MemFs {
    temp_dir: String,
    /// Canonical forms: a path starting with the key is reported with the
    /// value in its place.
    aliases: Vec<(String, String)>,
    dirs: BTreeSet<String>,
    files: BTreeMap<String, Vec<u8>>,
    links: BTreeMap<String, String>,
    modes: BTreeMap<String, u32>,
    /// Names of directories whose creation fails with the given failure.
    broken: BTreeMap<String, IoErrorKind>,
    /// Writing into new files fails.
    broken_writes: bool,
    /// Reading permission bits fails.
    broken_modes: bool,
    /// Every name in the temporary directory is taken.
    crowded: bool,
    actions: Vec<String>,
    flavors: Vec<SymlinkFlavor>,
}

fn failure(kind: IoErrorKind) -> IoFailure {
    IoFailure::new(kind, "simulated")
}

fn parent_of(path: &str) -> Option<String> {
    Path::new(path).parent().map(|p| p.to_str().unwrap().to_string())
}

impl MemFs {
    fn new() -> MemFs {
        let mut dirs = BTreeSet::new();
        dirs.insert("/".to_string());
        dirs.insert("/tmp".to_string());
        MemFs {
            temp_dir: "/tmp".to_string(),
            aliases: Vec::new(),
            dirs,
            files: BTreeMap::new(),
            links: BTreeMap::new(),
            modes: BTreeMap::new(),
            broken: BTreeMap::new(),
            broken_writes: false,
            broken_modes: false,
            crowded: false,
            actions: Vec::new(),
            flavors: Vec::new(),
        }
    }

    fn has(&self, path: &str) -> bool {
        self.dirs.contains(path) || self.files.contains_key(path) || self.links.contains_key(path)
    }

    fn is_dir(&self, path: &str) -> bool {
        self.dirs.contains(path)
    }

    fn canonical(&self, path: &str) -> String {
        for (from, to) in &self.aliases {
            if let Some(rest) = path.strip_prefix(from.as_str()) {
                return format!("{}{}", to, rest);
            }
        }
        path.to_string()
    }

    fn create_dir(&mut self, path: &str) -> BuildEvent {
        if self.crowded && parent_of(path).as_deref() == Some(self.temp_dir.as_str()) {
            return BuildEvent::Failed(failure(IoErrorKind::AlreadyExists));
        }
        if let Some(kind) = self.broken.get(path) {
            return BuildEvent::Failed(failure(*kind));
        }
        if self.has(path) {
            return BuildEvent::Failed(failure(IoErrorKind::AlreadyExists));
        }
        match parent_of(path) {
            Some(p) if !p.is_empty() && !self.is_dir(&p) => {
                BuildEvent::Failed(failure(IoErrorKind::NotFound))
            }
            _ => {
                self.dirs.insert(path.to_string());
                BuildEvent::Done
            }
        }
    }

    fn create_dir_all(&mut self, path: &str) -> BuildEvent {
        if path.is_empty() || self.is_dir(path) {
            return BuildEvent::Done;
        }
        if self.has(path) {
            return BuildEvent::Failed(failure(IoErrorKind::Other));
        }
        if let Some(p) = parent_of(path) {
            if let BuildEvent::Failed(f) = self.create_dir_all(&p) {
                return BuildEvent::Failed(f);
            }
        }
        self.create_dir(path)
    }

    fn answer(&mut self, action: &BuildAction, texts: &dyn Fn(usize, &str) -> String) -> BuildEvent {
        self.actions.push(format!("{:?}", action));
        match action {
            BuildAction::LocateTempDir => BuildEvent::TempDir(self.temp_dir.clone()),
            BuildAction::CreateDir(p) => self.create_dir(p),
            BuildAction::CreateDirAll(p) => self.create_dir_all(p),
            BuildAction::InspectRoot(p) => {
                if !self.has(p) {
                    BuildEvent::Failed(failure(IoErrorKind::NotFound))
                } else {
                    BuildEvent::RootKind {
                        is_symlink: self.links.contains_key(p.as_str()),
                        is_dir: self.is_dir(p),
                    }
                }
            }
            BuildAction::Canonicalize(p) => {
                if self.has(p) {
                    BuildEvent::Canonical(self.canonical(p))
                } else {
                    BuildEvent::Failed(failure(IoErrorKind::NotFound))
                }
            }
            BuildAction::ProbeEntry(p) => BuildEvent::Present(self.has(p)),
            BuildAction::GenerateText { source, root } => BuildEvent::Text(texts(*source, root)),
            BuildAction::WriteFile { path, content } => {
                if let Some(kind) = self.broken.get(path) {
                    return BuildEvent::Failed(failure(*kind));
                }
                match parent_of(path) {
                    Some(p) if !self.is_dir(&p) => {
                        return BuildEvent::Failed(failure(IoErrorKind::NotFound));
                    }
                    _ => {}
                }
                let bytes = match content {
                    Content::Empty => Vec::new(),
                    Content::Text(t) => t.as_bytes().to_vec(),
                    Content::Bytes(b) => b.clone(),
                };
                self.files.insert(path.clone(), Vec::new());
                if self.broken_writes {
                    return BuildEvent::WriteFailed(failure(IoErrorKind::Other));
                }
                self.files.insert(path.clone(), bytes);
                BuildEvent::Done
            }
            BuildAction::CopyFile { from, to } => match self.files.get(from).cloned() {
                Some(bytes) => {
                    self.files.insert(to.clone(), bytes);
                    BuildEvent::Done
                }
                None => BuildEvent::Failed(failure(IoErrorKind::NotFound)),
            },
            BuildAction::CreateSymlink { target, link, flavor } => {
                self.flavors.push(*flavor);
                if let Some(kind) = self.broken.get(link) {
                    return BuildEvent::Failed(failure(*kind));
                }
                self.links.insert(link.clone(), target.clone());
                BuildEvent::Done
            }
            BuildAction::ReadMode(p) => {
                if self.broken_modes || !self.has(p) {
                    return BuildEvent::Failed(failure(IoErrorKind::NotFound));
                }
                let default = if self.is_dir(p) { 0o755 } else { 0o644 };
                BuildEvent::Mode(*self.modes.get(p).unwrap_or(&default))
            }
            BuildAction::SetMode { path, mode } => {
                self.modes.insert(path.clone(), *mode);
                BuildEvent::Done
            }
            BuildAction::Finish(_) | BuildAction::Fail(_) => unreachable!(),
        }
    }

    /// The permission bits of an entry (those a new entry gets, where none were set).
    fn mode_of(&self, path: &str) -> u32 {
        let default = if self.is_dir(path) { 0o755 } else { 0o644 };
        *self.modes.get(path).unwrap_or(&default)
    }

    /// Overwrites an existing file, as the owner; refused where the file is read-only.
    fn write(&mut self, path: &str, bytes: &[u8]) -> Result<(), IoErrorKind> {
        if !self.files.contains_key(path) {
            return Err(IoErrorKind::NotFound);
        }
        if self.mode_of(path) & 0o200 == 0 {
            return Err(IoErrorKind::Other);
        }
        self.files.insert(path.to_string(), bytes.to_vec());
        Ok(())
    }

    fn children(&self, dir: &str) -> Vec<String> {
        let all = self.dirs.iter().chain(self.files.keys()).chain(self.links.keys());
        all.filter(|p| parent_of(p).as_deref() == Some(dir)).cloned().collect()
    }

    /// Gives the owner what removing the tree at `path` takes, as a
    /// temporary directory does before it is removed on Unix.
    fn make_deletable(&mut self, path: &str) {
        if !self.has(path) {
            return;
        }
        let is_symlink = self.links.contains_key(path);
        let step = deletable_step(is_symlink, self.is_dir(path), self.mode_of(path), true);
        if let DeletableStep::SetMode { mode, descend } = step {
            self.modes.insert(path.to_string(), mode);
            if descend {
                for child in self.children(path) {
                    self.make_deletable(&child);
                }
            }
        }
    }

    /// Removes the tree at `path` without following links. Emptying a
    /// directory takes the owner's write and search bits on it.
    fn remove_tree(&mut self, path: &str) -> Result<(), IoErrorKind> {
        if self.is_dir(path) {
            let children = self.children(path);
            if !children.is_empty() && self.mode_of(path) & 0o300 != 0o300 {
                return Err(IoErrorKind::Other);
            }
            for child in children {
                self.remove_tree(&child)?;
            }
            self.dirs.remove(path);
        } else {
            self.files.remove(path);
            self.links.remove(path);
        }
        self.modes.remove(path);
        Ok(())
    }

    /// What dropping a temporary directory does.
    fn drop_dir(&mut self, dir: TempDirectory) {
        if dir.deletes_on_drop() {
            self.make_deletable(dir.path());
            let _ = self.remove_tree(dir.path());
        }
    }

    /// Runs a build against this file system, with `texts` as the text generators.
    fn run_with(
        &mut self,
        mut run: BuildRun<'_>,
        texts: &dyn Fn(usize, &str) -> String,
    ) -> Result<TempDirectory, BuildError> {
        let mut event = BuildEvent::Begin;
        loop {
            assert!(run.accepts(&event));
            let action = run.step(event);
            match action {
                BuildAction::Finish(dir) => return Ok(dir),
                BuildAction::Fail(err) => return Err(err),
                other => event = self.answer(&other, texts),
            }
        }
    }

    /// Runs a build against this file system.
    fn run(&mut self, run: BuildRun<'_>) -> Result<TempDirectory, BuildError> {
        self.run_with(run, &no_text)
    }
}

fn no_text(_: usize, _: &str) -> String {
    String::new()
}

fn accepts_path(path: impl AsRef<Path>) -> PathBuf {
    path.as_ref().to_path_buf()
}

#[test]
fn test_join() {
    let mut fs = MemFs::new();
    let temp_dir = fs.run(TempDirectoryBuilder::default().build()).unwrap();

    assert_eq!(Path::new(&temp_dir.join("a/b")), Path::new(temp_dir.path()).join("a/b"));
}

#[test]
fn test_to_path_buf() {
    let mut fs = MemFs::new();
    let temp_dir = fs.run(TempDirectoryBuilder::default().build()).unwrap();

    assert_eq!(temp_dir.to_path_buf(), temp_dir.path());
}

#[test]
fn test_as_ref_path() {
    let mut fs = MemFs::new();
    let temp_dir = fs.run(TempDirectoryBuilder::default().build()).unwrap();

    assert_eq!(accepts_path(&temp_dir), Path::new(temp_dir.path()));
}

#[test]
fn test_temp_dir() {
    let mut fs = MemFs::new();
    let temp_dir = fs.run(TempDirectoryBuilder::default().build()).unwrap();

    assert!(fs.has(temp_dir.path()));
    assert!(fs.is_dir(temp_dir.path()));
}

#[test]
fn test_random_root_is_canonical() {
    let mut fs = MemFs::new();
    fs.aliases.push(("/tmp".to_string(), "/private/tmp".to_string()));
    fs.dirs.insert("/private".to_string());
    fs.dirs.insert("/private/tmp".to_string());
    let builder = TempDirectoryBuilder::default().add_empty_file("foo");
    let temp_dir = fs.run(builder.build()).unwrap();

    assert_eq!(temp_dir.path(), fs.canonical(temp_dir.path()));
    assert!(fs.has(&temp_dir.join("foo")));
}

#[test]
fn test_add_text_file_with_duplicate_entry() {
    let builder = TempDirectoryBuilder::default()
        .add_text_file_with("foo", 0)
        .add_text_file_with("foo", 1);
    let error = MemFs::new().run(builder.build()).unwrap_err();

    assert!(matches!(error, BuildError::DuplicateEntry(_)));
}

#[test]
fn test_add_text_file_with_outside_directory() {
    let builder = TempDirectoryBuilder::default().add_text_file_with("../foo", 0);
    let error = MemFs::new().run(builder.build()).unwrap_err();

    assert!(matches!(error, BuildError::EntryOutsideDirectory(_)));
}

#[test]
fn test_add_directory() {
    let entry_name = "empty_directory";
    let mut fs = MemFs::new();
    let builder = TempDirectoryBuilder::default().add_directory(entry_name);
    let temp_dir = fs.run(builder.build()).unwrap();
    let entry_path = temp_dir.join(entry_name);

    assert!(fs.has(&entry_path));
    assert!(fs.is_dir(&entry_path));
}

#[test]
fn test_duplicated_entries() {
    let builder = TempDirectoryBuilder::default()
        .add_empty_file("foo")
        .add_empty_file("foo");
    let error = MemFs::new().run(builder.build()).unwrap_err();

    assert!(matches!(error, BuildError::DuplicateEntry(..)));
}

#[test]
fn test_entry_outside_directory() {
    let builder = TempDirectoryBuilder::default().add_empty_file("../foo");
    let error = MemFs::new().run(builder.build()).unwrap_err();

    assert!(matches!(error, BuildError::EntryOutsideDirectory(..)));
}

#[test]
fn test_empty_entry_name() {
    let builder = TempDirectoryBuilder::default().add_empty_file("");
    let error = MemFs::new().run(builder.build()).unwrap_err();

    assert!(matches!(error, BuildError::EmptyEntryName(0)));
}

#[test]
fn test_add_symlink_with_permissions_fails() {
    let builder = TempDirectoryBuilder::default()
        .add_symlink("link", "data")
        .set_readonly(true);
    let error = MemFs::new().run(builder.build()).unwrap_err();

    assert!(matches!(error, BuildError::PermissionsOnSymlink(_)));
}

fn actions_named(fs: &MemFs, prefix: &str) -> Vec<String> {
    fs.actions.iter().filter(|a| a.starts_with(prefix)).cloned().collect()
}

fn fixed_fs() -> MemFs {
    let mut fs = MemFs::new();
    fs.dirs.insert("/srv".to_string());
    fs
}

#[test]
fn default_builder_deletes_on_drop_and_flag_is_kept() {
    let kept = MemFs::new().run(TempDirectoryBuilder::default().build()).unwrap();
    assert!(kept.deletes_on_drop());

    let builder = TempDirectoryBuilder::default().add_directory("d").delete_on_drop(false);
    let temp_dir = MemFs::new().run(builder.build()).unwrap();
    assert!(!temp_dir.deletes_on_drop());
}

#[test]
fn random_root_is_five_alphanumerics_in_temp_dir() {
    let mut fs = MemFs::new();
    let temp_dir = fs.run(TempDirectoryBuilder::default().build()).unwrap();
    let name = temp_dir.path().strip_prefix("/tmp/").unwrap();

    assert_eq!(name.len(), 5);
    assert!(name.chars().all(|c| c.is_ascii_alphanumeric()));
    assert!(fs.is_dir(temp_dir.path()));
}

#[test]
fn random_root_gives_up_after_one_hundred_names() {
    let mut fs = MemFs::new();
    fs.crowded = true;
    let error = fs.run(TempDirectoryBuilder::default().build()).unwrap_err();

    assert_eq!(actions_named(&fs, "CreateDir(").len(), 100);
    match error {
        BuildError::FailedToCreateRootDirectory(dir, failure) => {
            assert_eq!(dir, "/tmp");
            assert_eq!(failure.kind, IoErrorKind::AlreadyExists);
            assert_eq!(
                failure.message,
                "exhausted attempts to generate an unused random directory name"
            );
        }
        other => panic!("unexpected error {:?}", other),
    }
}

#[test]
fn fixed_root_is_created_with_its_parents() {
    let mut fs = MemFs::new();
    let builder = TempDirectoryBuilder::default().root_folder("/data/a/b").add_empty_file("x");
    let temp_dir = fs.run(builder.build()).unwrap();

    assert_eq!(temp_dir.path(), "/data/a/b");
    assert!(fs.is_dir("/data/a"));
    assert!(fs.files.contains_key("/data/a/b/x"));
    assert_eq!(actions_named(&fs, "CreateDirAll(").first().unwrap(), "CreateDirAll(\"/data/a\")");
}

#[test]
fn fixed_root_may_already_exist() {
    let mut fs = fixed_fs();
    let builder = TempDirectoryBuilder::default().root_folder("/srv").add_empty_file("x");
    let temp_dir = fs.run(builder.build()).unwrap();

    assert_eq!(temp_dir.path(), "/srv");
    assert!(fs.files.contains_key("/srv/x"));
}

#[test]
fn fixed_root_that_is_a_file_is_refused() {
    let mut fs = fixed_fs();
    fs.files.insert("/srv/file".to_string(), Vec::new());
    let error = fs.run(TempDirectoryBuilder::default().root_folder("/srv/file").build()).unwrap_err();

    match error {
        BuildError::FailedToCreateRootDirectory(root, failure) => {
            assert_eq!(root, "/srv/file");
            assert_eq!(failure.message, "root path exists and is not a directory");
        }
        other => panic!("unexpected error {:?}", other),
    }
}

#[test]
fn fixed_root_that_is_a_link_is_refused() {
    let mut fs = fixed_fs();
    fs.links.insert("/srv/link".to_string(), "/tmp".to_string());
    let error = fs.run(TempDirectoryBuilder::default().root_folder("/srv/link").build()).unwrap_err();

    match error {
        BuildError::FailedToCreateRootDirectory(root, failure) => {
            assert_eq!(root, "/srv/link");
            assert_eq!(failure.message, "root path is a symlink");
        }
        other => panic!("unexpected error {:?}", other),
    }
}

#[test]
fn fixed_root_failure_is_reported() {
    let mut fs = fixed_fs();
    fs.broken.insert("/srv/r".to_string(), IoErrorKind::Other);
    let error = fs.run(TempDirectoryBuilder::default().root_folder("/srv/r").build()).unwrap_err();

    assert!(matches!(error, BuildError::FailedToCreateRootDirectory(ref r, ref f)
        if r == "/srv/r" && f.kind == IoErrorKind::Other));
}

#[test]
fn entry_paths_are_cleaned() {
    let mut fs = fixed_fs();
    let builder = TempDirectoryBuilder::default().root_folder("/srv").add_empty_file("a/./b/../c");
    fs.run(builder.build()).unwrap();

    assert!(fs.files.contains_key("/srv/a/c"));
    assert!(!fs.has("/srv/a/b"));
}

#[test]
fn absolute_entry_outside_root_is_refused() {
    let builder = TempDirectoryBuilder::default().add_empty_file("/etc/passwd");
    let error = MemFs::new().run(builder.build()).unwrap_err();

    assert!(matches!(error, BuildError::EntryOutsideDirectory(ref p) if p == "/etc/passwd"));
}

#[test]
fn absolute_entry_inside_root_is_accepted() {
    let mut fs = fixed_fs();
    let builder = TempDirectoryBuilder::default().root_folder("/srv").add_empty_file("/srv/x");
    fs.run(builder.build()).unwrap();

    assert!(fs.files.contains_key("/srv/x"));
}

#[test]
fn entry_escaping_through_dots_is_refused() {
    let builder = TempDirectoryBuilder::default().add_directory("a/../../b");
    let error = MemFs::new().run(builder.build()).unwrap_err();

    assert!(matches!(error, BuildError::EntryOutsideDirectory(ref p) if p == "a/../../b"));
}

#[test]
fn entry_at_the_root_itself_is_a_duplicate() {
    let mut fs = fixed_fs();
    let builder = TempDirectoryBuilder::default().root_folder("/srv").add_directory(".");
    let error = fs.run(builder.build()).unwrap_err();

    assert!(matches!(error, BuildError::DuplicateEntry(ref p) if p == "/srv"));
}

#[test]
fn empty_name_is_reported_with_its_index() {
    let mut fs = fixed_fs();
    let builder = TempDirectoryBuilder::default()
        .root_folder("/srv")
        .add_empty_file("a")
        .add_empty_file("");
    let error = fs.run(builder.build()).unwrap_err();

    assert!(matches!(error, BuildError::EmptyEntryName(1)));
    assert!(fs.files.contains_key("/srv/a"));
}

#[test]
fn implicit_parent_makes_a_later_directory_a_duplicate() {
    let mut fs = fixed_fs();
    let builder = TempDirectoryBuilder::default()
        .root_folder("/srv")
        .add_text_file("a/b", "x")
        .add_directory("a");
    let error = fs.run(builder.build()).unwrap_err();

    assert!(matches!(error, BuildError::DuplicateEntry(ref p) if p == "/srv/a"));
}

#[test]
fn permissions_come_after_every_entry() {
    let mut fs = fixed_fs();
    let builder = TempDirectoryBuilder::default()
        .root_folder("/srv")
        .add_directory("dir")
        .set_readonly(true)
        .add_text_file("dir/foo.txt", "foo");
    fs.run(builder.build()).unwrap();

    let last_write = fs.actions.iter().rposition(|a| a.starts_with("WriteFile")).unwrap();
    let first_mode = fs.actions.iter().position(|a| a.starts_with("ReadMode")).unwrap();
    assert!(last_write < first_mode);
    assert_eq!(fs.modes["/srv/dir"], 0o555);
}

#[test]
fn failures_of_entries_are_reported() {
    let mut fs = fixed_fs();
    fs.broken_writes = true;
    let builder = TempDirectoryBuilder::default().root_folder("/srv").add_text_file("t", "x");
    let error = fs.run(builder.build()).unwrap_err();
    assert!(matches!(error, BuildError::FailedToWriteFile(ref p, _) if p == "/srv/t"));

    let mut fs = fixed_fs();
    fs.broken.insert("/srv/t".to_string(), IoErrorKind::Other);
    let builder = TempDirectoryBuilder::default().root_folder("/srv").add_text_file("t", "x");
    let error = fs.run(builder.build()).unwrap_err();
    assert!(matches!(error, BuildError::FailedToCreateFile(ref p, _) if p == "/srv/t"));

    let mut fs = fixed_fs();
    fs.files.insert("/srv/f".to_string(), Vec::new());
    let builder = TempDirectoryBuilder::default().root_folder("/srv").add_empty_file("f/g/h");
    let error = fs.run(builder.build()).unwrap_err();
    assert!(matches!(error, BuildError::FailedToCreateDirectory(ref p, _) if p == "/srv/f/g"));

    let mut fs = fixed_fs();
    fs.broken.insert("/srv/d".to_string(), IoErrorKind::Other);
    let builder = TempDirectoryBuilder::default().root_folder("/srv").add_directory("d");
    let error = fs.run(builder.build()).unwrap_err();
    assert!(matches!(error, BuildError::FailedToCreateDirectory(ref p, _) if p == "/srv/d"));

    let mut fs = fixed_fs();
    fs.broken.insert("/srv/l".to_string(), IoErrorKind::Other);
    let builder = TempDirectoryBuilder::default().root_folder("/srv").add_symlink("l", "x");
    let error = fs.run(builder.build()).unwrap_err();
    assert!(matches!(error, BuildError::FailedToCreateSymlink(ref p, _) if p == "/srv/l"));

    let mut fs = fixed_fs();
    fs.broken_modes = true;
    let builder = TempDirectoryBuilder::default()
        .root_folder("/srv")
        .add_empty_file("m")
        .set_mode(0o600);
    let error = fs.run(builder.build()).unwrap_err();
    assert!(matches!(error, BuildError::FailedToSetPermissions(ref p, _) if p == "/srv/m"));
}

#[test]
fn a_run_accepts_only_the_answer_it_waits_for() {
    let builder = TempDirectoryBuilder::default();
    let mut run = builder.build();
    assert!(run.accepts(&BuildEvent::Begin));
    assert!(!run.accepts(&BuildEvent::Done));

    let action = run.step(BuildEvent::Begin);
    assert!(matches!(action, BuildAction::LocateTempDir));
    assert!(run.accepts(&BuildEvent::TempDir("/tmp".to_string())));
    assert!(!run.accepts(&BuildEvent::Begin));
}

#[test]
fn test_add_text_file() {
    let expected_content = "bar";
    let entry_name = "foo.txt";
    let mut fs = MemFs::new();
    let builder = TempDirectoryBuilder::default().add_text_file(entry_name, expected_content);
    let temp_dir = fs.run(builder.build()).unwrap();
    let entry_path = temp_dir.join(entry_name);

    assert!(fs.has(&entry_path));
    assert_eq!(fs.files[&entry_path], expected_content.as_bytes().to_vec());
}

#[test]
fn test_add_text_file_with() {
    let entry_name = "foo.txt";
    let mut fs = MemFs::new();
    let builder = TempDirectoryBuilder::default().add_text_file_with(entry_name, 0);
    let texts = |_: usize, root: &str| format!("root is {}", root);
    let temp_dir = fs.run_with(builder.build(), &texts).unwrap();
    let entry_path = temp_dir.join(entry_name);

    assert_eq!(fs.files[&entry_path], format!("root is {}", temp_dir.path()).into_bytes());
}

#[test]
fn test_add_binary_file() {
    let expected_content = [98u8, 97u8, 114u8];
    let entry_name = "foo.txt";
    let mut fs = MemFs::new();
    let builder = TempDirectoryBuilder::default().add_binary_file(entry_name, &expected_content);
    let temp_dir = fs.run(builder.build()).unwrap();
    let entry_path = temp_dir.join(entry_name);

    assert!(fs.has(&entry_path));
    assert_eq!(fs.files[&entry_path], expected_content.to_vec());
}

#[test]
fn test_add_empty_file() {
    let entry_name = "empty_file.txt";
    let mut fs = MemFs::new();
    let builder = TempDirectoryBuilder::default().add_empty_file(entry_name);
    let temp_dir = fs.run(builder.build()).unwrap();
    let entry_path = temp_dir.join(entry_name);

    assert!(fs.has(&entry_path));
    assert_eq!(fs.files[&entry_path].len(), 0);
}

#[test]
fn test_add_file() {
    let entry_name = "test.rs";
    let source_file_path = "/src/lib.rs";
    let mut fs = MemFs::new();
    fs.files.insert(source_file_path.to_string(), b"pub mod builder;".to_vec());
    let builder = TempDirectoryBuilder::default().add_file(entry_name, source_file_path);
    let temp_dir = fs.run(builder.build()).unwrap();
    let entry_path = temp_dir.join(entry_name);

    assert!(fs.files.contains_key(&entry_path));
    assert_eq!(fs.files[&entry_path], fs.files[source_file_path]);
}

#[test]
fn test_entry_outside_temp_dir() {
    let fs = MemFs::new();
    let path_outside_temp_dir = Path::new(&fs.temp_dir).join("outside");
    let builder = TempDirectoryBuilder::default().add_empty_file(path_outside_temp_dir.to_str().unwrap());
    let error = MemFs::new().run(builder.build()).unwrap_err();

    assert!(matches!(error, BuildError::EntryOutsideDirectory(_)));
}

#[test]
fn test_source_file_does_not_exists() {
    let source_file_path = Path::new("/tmp").join("not existing file");
    let builder = TempDirectoryBuilder::default().add_file("foo", source_file_path.to_str().unwrap());
    let error = MemFs::new().run(builder.build()).unwrap_err();

    assert!(matches!(error, BuildError::FailedToCopyFile(..)));
}

#[test]
fn test_set_readonly_file() {
    let mut fs = MemFs::new();
    let builder = TempDirectoryBuilder::default()
        .add_text_file("readonly.txt", "foo")
        .set_readonly(true)
        .add_text_file("writable.txt", "bar")
        .set_readonly(false)
        .add_text_file("default.txt", "baz");
    let temp_dir = fs.run(builder.build()).unwrap();
    let mode = |name: &str| *fs.modes.get(&temp_dir.join(name)).unwrap_or(&0o644);

    assert_eq!(mode("readonly.txt") & 0o222, 0);
    assert_ne!(mode("writable.txt") & 0o200, 0);
    assert_ne!(mode("default.txt") & 0o200, 0);
    assert!(fs.write(&temp_dir.join("readonly.txt"), b"changed").is_err());
    assert!(fs.write(&temp_dir.join("writable.txt"), b"changed").is_ok());
}

#[test]
fn test_set_mode() {
    let mut fs = MemFs::new();
    let builder = TempDirectoryBuilder::default()
        .add_text_file("script.sh", "#!/bin/sh")
        .set_mode(0o744)
        .add_directory("dir")
        .set_mode(0o500)
        .add_empty_file("dir/foo.txt");
    let temp_dir = fs.run(builder.build()).unwrap();

    assert_eq!(fs.modes[&temp_dir.join("script.sh")] & 0o777, 0o744);
    assert_eq!(fs.modes[&temp_dir.join("dir")] & 0o777, 0o500);
    assert!(fs.has(&temp_dir.join("dir/foo.txt")));

    let root = temp_dir.to_path_buf();

    fs.drop_dir(temp_dir);

    assert!(!fs.has(&root));
}

#[test]
fn test_set_mode_then_readonly() {
    let mut fs = MemFs::new();
    let builder = TempDirectoryBuilder::default()
        .add_empty_file("foo")
        .set_mode(0o766)
        .set_readonly(true);
    let temp_dir = fs.run(builder.build()).unwrap();

    assert_eq!(fs.modes[&temp_dir.join("foo")] & 0o777, 0o544);
}

#[test]
fn test_add_symlink_relative_target_resolves_to_absolute() {
    let mut fs = MemFs::new();
    let builder = TempDirectoryBuilder::default()
        .add_text_file("data/file.txt", "content")
        .add_symlink("link_to_data", "data");
    let temp_dir = fs.run(builder.build()).unwrap();
    let link_path = temp_dir.join("link_to_data");

    assert_eq!(fs.links[&link_path], temp_dir.join("data"));
}

#[test]
fn test_add_relative_symlink() {
    let mut fs = MemFs::new();
    let builder = TempDirectoryBuilder::default()
        .add_text_file("data", "content")
        .add_directory("dir")
        .add_relative_symlink("dir/link", "../data");
    let temp_dir = fs.run(builder.build()).unwrap();
    let link_path = temp_dir.join("dir/link");

    assert_eq!(fs.links[&link_path], "../data");
    let resolved = path_clean::clean(Path::new(&link_path).parent().unwrap().join("../data"));
    assert_eq!(resolved, Path::new(&temp_dir.join("data")));
    assert!(fs.files.contains_key(resolved.to_str().unwrap()));
}

#[test]
fn test_add_symlink_dangling_target() {
    let mut fs = MemFs::new();
    let builder = TempDirectoryBuilder::default().add_symlink("link", "missing");
    let temp_dir = fs.run(builder.build()).unwrap();
    let link_path = temp_dir.join("link");

    assert!(fs.links.contains_key(&link_path));
    assert!(!fs.has(&fs.links[&link_path]));
}

#[test]
fn test_dangling_symlink_is_a_duplicate_entry() {
    let mut fs = MemFs::new();
    let builder = TempDirectoryBuilder::default()
        .add_symlink("link", "missing")
        .delete_on_drop(false);
    let temp_dir = fs.run(builder.build()).unwrap();
    let root = temp_dir.to_path_buf();

    let builder = TempDirectoryBuilder::default()
        .root_folder(&root)
        .add_symlink("link", "other-missing");
    let error = fs.run(builder.build()).unwrap_err();

    assert!(matches!(error, BuildError::DuplicateEntry(_)));
}

#[test]
fn symlinks_resolve_and_keep_their_flavor() {
    let mut fs = fixed_fs();
    let builder = TempDirectoryBuilder::default()
        .root_folder("/srv")
        .add_symlink("link_to_file", "data/./file.txt")
        .add_symlink("absolute", "/etc/hosts")
        .add_symlink_dir("ldir", "missing/../d")
        .add_symlink_file("lfile", "f");
    fs.run(builder.build()).unwrap();

    assert_eq!(fs.links["/srv/link_to_file"], "/srv/data/file.txt");
    assert_eq!(fs.links["/srv/absolute"], "/etc/hosts");
    assert_eq!(fs.links["/srv/ldir"], "/srv/d");
    assert_eq!(fs.links["/srv/lfile"], "/srv/f");
    let flavors: Vec<SymlinkFlavor> = fs.flavors.clone();
    assert_eq!(
        flavors,
        vec![SymlinkFlavor::Auto, SymlinkFlavor::Auto, SymlinkFlavor::Dir, SymlinkFlavor::File]
    );
}

#[test]
fn generated_text_gets_its_source_number() {
    let mut fs = fixed_fs();
    let builder = TempDirectoryBuilder::default()
        .root_folder("/srv")
        .add_text_file_with("config.toml", 7);
    let texts = |source: usize, root: &str| format!("{} data_dir = {}/data", source, root);
    fs.run_with(builder.build(), &texts).unwrap();

    assert_eq!(fs.files["/srv/config.toml"], b"7 data_dir = /srv/data".to_vec());
}

#[test]
fn join_agrees_with_std_path_join() {
    let mut fs = fixed_fs();
    let temp_dir = fs.run(TempDirectoryBuilder::default().root_folder("/srv").build()).unwrap();
    for path in ["a/b", "/etc", "", "../b", "x/"] {
        assert_eq!(Path::new(&temp_dir.join(path)), Path::new("/srv").join(path));
    }
    assert_eq!(temp_dir.join("a/b"), "/srv/a/b");
    assert_eq!(temp_dir.join("/etc"), "/etc");
}

#[test]
fn test_temp_dir_is_dropped() {
    let mut fs = MemFs::new();
    let temp_dir = fs.run(TempDirectoryBuilder::default().build()).unwrap();

    let temp_dir_path = temp_dir.to_path_buf();

    assert!(fs.has(&temp_dir_path));
    assert!(fs.is_dir(&temp_dir_path));

    fs.drop_dir(temp_dir);

    assert!(!fs.has(&temp_dir_path));
}

#[test]
fn test_set_readonly_directory() {
    let mut fs = MemFs::new();
    let builder = TempDirectoryBuilder::default()
        .add_directory("dir")
        .set_readonly(true)
        .add_text_file("dir/foo.txt", "foo");
    let temp_dir = fs.run(builder.build()).unwrap();

    let dir_path = temp_dir.join("dir");

    assert_eq!(fs.mode_of(&dir_path) & 0o222, 0);
    assert_eq!(fs.files[&temp_dir.join("dir/foo.txt")], b"foo".to_vec());
}

#[test]
fn test_readonly_entries_are_deleted_on_drop() {
    let mut fs = MemFs::new();
    let builder = TempDirectoryBuilder::default()
        .add_directory("dir")
        .set_readonly(true)
        .add_text_file("dir/foo.txt", "foo")
        .set_readonly(true)
        .add_directory("dir/nested")
        .set_readonly(true)
        .add_empty_file("dir/nested/bar.txt")
        .set_readonly(true);
    let temp_dir = fs.run(builder.build()).unwrap();
    let root = temp_dir.to_path_buf();

    fs.drop_dir(temp_dir);

    assert!(!fs.has(&root));
    assert!(!fs.has(&format!("{}/dir/nested/bar.txt", root)));
}

#[test]
fn readonly_directories_stop_removal_without_the_deletable_pass() {
    let mut fs = MemFs::new();
    let builder = TempDirectoryBuilder::default()
        .add_directory("dir")
        .set_readonly(true)
        .add_empty_file("dir/foo.txt");
    let temp_dir = fs.run(builder.build()).unwrap();

    assert!(fs.remove_tree(temp_dir.path()).is_err());
    assert!(fs.has(&temp_dir.join("dir/foo.txt")));
}

#[test]
fn test_dropping_symlink_does_not_affect_readonly_target() {
    let mut fs = MemFs::new();
    let target_dir = fs
        .run(TempDirectoryBuilder::default().add_text_file("readonly.txt", "foo").set_readonly(true).build())
        .unwrap();
    let readonly_file_path = target_dir.join("readonly.txt");

    let temp_dir = fs
        .run(TempDirectoryBuilder::default().add_symlink("link", target_dir.path()).build())
        .unwrap();

    fs.drop_dir(temp_dir);

    assert!(fs.has(&readonly_file_path));
    assert_eq!(fs.mode_of(&readonly_file_path) & 0o222, 0);
    assert!(fs.has(target_dir.path()));
}

#[test]
fn test_add_symlink_absolute_target_outside_root_is_not_removed() {
    let mut fs = MemFs::new();
    let outside = fs
        .run(TempDirectoryBuilder::default().add_text_file("precious.txt", "precious data").build())
        .unwrap();
    let target_path = outside.join("precious.txt");

    let temp_dir = fs.run(TempDirectoryBuilder::default().add_symlink("link", &target_path).build()).unwrap();

    assert_eq!(fs.links[&temp_dir.join("link")], target_path);

    fs.drop_dir(temp_dir);

    assert!(fs.has(&target_path));
}

#[test]
fn test_add_text_file_with_borrowed_local() {
    let entry_name = "foo.txt";
    let template = String::from("root is");
    let mut fs = MemFs::new();
    let builder = TempDirectoryBuilder::default().add_text_file_with(entry_name, 0);
    let texts = |_: usize, root: &str| format!("{template} {}", root);
    let temp_dir = fs.run_with(builder.build(), &texts).unwrap();
    let entry_path = temp_dir.join(entry_name);

    assert_eq!(fs.files[&entry_path], format!("{template} {}", temp_dir.path()).into_bytes());
}

#[test]
fn test_add_text_file_with_set_mode() {
    let entry_name = "hook.sh";
    let mut fs = MemFs::new();
    let builder = TempDirectoryBuilder::default().add_text_file_with(entry_name, 0).set_mode(0o755);
    let texts = |_: usize, root: &str| format!("#!/bin/sh\necho executed > {:?}\n", Path::new(root).join("marker"));
    let temp_dir = fs.run_with(builder.build(), &texts).unwrap();
    let entry_path = temp_dir.join(entry_name);

    assert_eq!(fs.mode_of(&entry_path) & 0o777, 0o755);
    assert!(fs.files[&entry_path].starts_with(b"#!/bin/sh"));
}

#[test]
fn dropping_a_kept_directory_leaves_it() {
    let mut fs = MemFs::new();
    let temp_dir = fs.run(TempDirectoryBuilder::default().delete_on_drop(false).build()).unwrap();
    let root = temp_dir.to_path_buf();

    fs.drop_dir(temp_dir);

    assert!(fs.has(&root));
}

#[test]
fn a_second_build_into_the_same_root_names_the_first_entry() {
    let mut fs = fixed_fs();
    let builder = TempDirectoryBuilder::default()
        .root_folder("/srv")
        .add_empty_file("a/./b")
        .add_directory("c");
    let first = fs.run(builder.build()).unwrap();
    assert_eq!(first.path(), "/srv");

    let error = fs.run(builder.build()).unwrap_err();

    match error {
        BuildError::DuplicateEntry(p) => assert_eq!(p, "/srv/a/b"),
        other => panic!("unexpected error {:?}", other),
    }
}

#[test]
fn random_roots_are_five_letters_or_digits_in_the_temporary_directory() {
    let mut fs = MemFs::new();
    let temp_dir = fs.run(TempDirectoryBuilder::default().build()).unwrap();
    let path = Path::new(temp_dir.path());

    assert_eq!(path.parent(), Some(Path::new("/tmp")));
    let name = path.file_name().unwrap().to_str().unwrap();
    assert_eq!(name.len(), 5);
    assert!(name.chars().all(|c| c.is_ascii_alphanumeric()));
}
