# temp_dir_builder

Builds trees of files, directories and symbolic links inside a temporary
directory, typically for tests that need a file system in a known state.

## Layout

- `src/` is the verified library (Verus).
  - `builder.rs`: `TempDirectoryBuilder` and `EntryBuilder`, which describe
    the tree: its root (random or fixed), its entries and their permissions.
  - `protocol.rs`: a build as a state machine. The relation `transition`
    states, for each state and each outcome of file system work, the next
    state and the next piece of work; `RunModel::wf` is what holds of every
    state, and `lemma_transition_keeps_wf` proves that every step keeps it.
  - `run.rs`: `BuildRun`, the executable state machine, proved to follow
    `transition`.
  - `laws.rs`: what every step guarantees (no entry outside the root, errors
    only where they are due, success only once every entry exists, a second
    build into the same root stopped at the first entry).
  - `paths.rs`, `permissions.rs`, `random.rs`: path joining and symbolic link
    targets, permission bits (and what is done to each entry of a tree before
    it is removed), random directory names drawn from a seeded generator.
  - `directory.rs`, `error.rs`: `TempDirectory` and `BuildError`.
- `app/` performs the file system work that a `BuildRun` asks for, offers
  builders that take paths and text generators, and removes a
  `TempDirectory` when it is dropped, walking the tree and doing to each
  entry what `deletable_step` decides.
- `tests/` drives builds against an in-memory file system.
