//! Unix permission bits of the entries.

use vstd::prelude::*;

verus! {

/// All write bits: owner, group and others.
pub const WRITE_BITS: u32 = 0o222;

/// The owner's write bit.
pub const OWNER_WRITE: u32 = 0o200;

/// The owner's read, write and execute bits.
pub const OWNER_ALL: u32 = 0o700;

/// `mode` made read-only (every write bit cleared) or writable (the owner's
/// write bit set).
pub open spec fn readonly_mode(mode: u32, readonly: bool) -> u32 {
    if readonly {
        mode & !WRITE_BITS
    } else {
        mode | OWNER_WRITE
    }
}

/// The mode an entry ends up with, given the raw bits it asked for (`mode`),
/// the read-only flag it asked for, and the mode the file system reported:
/// the raw bits replace the reported mode, then the flag is applied.
pub open spec fn entry_mode(mode: Option<u32>, readonly: Option<bool>, current: u32) -> u32 {
    let base = match mode {
        Some(m) => m,
        None => current,
    };
    match readonly {
        Some(r) => readonly_mode(base, r),
        None => base,
    }
}

/// Applies the read-only flag to `mode`. Read-only clears every write bit
/// and keeps the others; writable sets the owner's write bit and keeps the
/// others.
pub fn set_readonly(mode: u32, readonly: bool) -> (r: u32)
    ensures
        r == readonly_mode(mode, readonly),
        readonly ==> r & WRITE_BITS == 0,
        !readonly ==> r & OWNER_WRITE == OWNER_WRITE,
        readonly ==> r & !WRITE_BITS == mode & !WRITE_BITS,
        !readonly ==> r & !OWNER_WRITE == mode & !OWNER_WRITE,
{
    if readonly {
        let r = mode & !WRITE_BITS;
        assert(r & 0o222u32 == 0 && r & !0o222u32 == mode & !0o222u32) by (bit_vector)
            requires
                r == mode & !0o222u32,
        ;
        r
    } else {
        let r = mode | OWNER_WRITE;
        assert(r & 0o200u32 == 0o200u32 && r & !0o200u32 == mode & !0o200u32) by (bit_vector)
            requires
                r == mode | 0o200u32,
        ;
        r
    }
}

/// The mode to give an entry (see `entry_mode`).
pub fn permission_mode(mode: Option<u32>, readonly: Option<bool>, current: u32) -> (r: u32)
    ensures
        r == entry_mode(mode, readonly, current),
{
    let base = match mode {
        Some(m) => m,
        None => current,
    };
    match readonly {
        Some(ro) => set_readonly(base, ro),
        None => base,
    }
}

/// The mode that lets the owner read, write and enter a directory before it
/// is removed: the owner's bits are all set, every other bit is kept.
pub fn deletable_mode(mode: u32) -> (r: u32)
    ensures
        r == mode | OWNER_ALL,
        r & OWNER_ALL == OWNER_ALL,
        r & !OWNER_ALL == mode & !OWNER_ALL,
{
    let r = mode | OWNER_ALL;
    assert(r & 0o700u32 == 0o700u32 && r & !0o700u32 == mode & !0o700u32) by (bit_vector)
        requires
            r == mode | 0o700u32,
    ;
    r
}

/// What is done to one entry of a tree that is about to be removed, so that
/// read-only entries do not stop the removal.
#[derive(Clone, Copy, Debug, PartialEq, Eq, Structural)]
pub enum DeletableStep {
    /// The entry is left as it is.
    Leave,
    /// The entry gets the permission bits `mode`; when `descend` holds, each
    /// entry inside it is taken up in turn.
    SetMode { mode: u32, descend: bool },
}

/// The step for one entry, given whether it is a symbolic link (never
/// followed, never changed), whether it is a directory, its current
/// permission bits, and whether the system has Unix permission bits.
///
/// On Unix only directories are changed: the owner may then read, write and
/// enter them, which is all that removing their contents takes. Elsewhere
/// every entry is made writable, and directories are descended into.
pub fn deletable_step(is_symlink: bool, is_dir: bool, mode: u32, unix: bool) -> (r: DeletableStep)
    ensures
        is_symlink ==> r == DeletableStep::Leave,
        !is_symlink && unix && is_dir ==> r == (DeletableStep::SetMode {
            mode: mode | OWNER_ALL,
            descend: true,
        }),
        !is_symlink && unix && !is_dir ==> r == DeletableStep::Leave,
        !is_symlink && !unix ==> r == (DeletableStep::SetMode {
            mode: readonly_mode(mode, false),
            descend: is_dir,
        }),
        r matches DeletableStep::SetMode { descend, .. } ==> descend == is_dir,
{
    if is_symlink {
        DeletableStep::Leave
    } else if unix {
        if is_dir {
            DeletableStep::SetMode { mode: deletable_mode(mode), descend: true }
        } else {
            DeletableStep::Leave
        }
    } else {
        DeletableStep::SetMode { mode: set_readonly(mode, false), descend: is_dir }
    }
}

} // verus!
