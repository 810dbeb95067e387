//! Lexical path operations on paths held as strings. Joining, absoluteness,
//! prefixes and parents are those of `std::path::Path` on the platform the
//! library is built for; cleaning is that of `path_clean`.

use std::path::Path;
use vstd::prelude::*;
use vstd::string::StrSliceExecFns;
use vstd::string::StringExecFns;

verus! {

/// Whether a path is absolute, as `std::path::Path::is_absolute` decides it.
pub uninterp spec fn is_absolute_path(p: Seq<char>) -> bool;

/// `base` joined with `p`, as `std::path::Path::join` computes it.
pub uninterp spec fn joined(base: Seq<char>, p: Seq<char>) -> Seq<char>;

/// Where a symbolic link added with `add_symlink` points: an absolute target
/// is kept verbatim, a relative one is resolved against `root` and cleaned.
pub open spec fn resolved_target(root: Seq<char>, target: Seq<char>) -> Seq<char> {
    if is_absolute_path(target) {
        target
    } else {
        cleaned(joined(root, target))
    }
}

/// Every `/` replaced by `\`, every other character kept.
pub open spec fn with_backslashes(p: Seq<char>) -> Seq<char> {
    p.map_values(|c: char| if c == '/' { '\\' } else { c })
}

/// The lexically cleaned form of a path, as `path_clean::clean` computes it.
pub uninterp spec fn cleaned(path: Seq<char>) -> Seq<char>;

/// Whether `base` is a prefix of `path` in whole components, as
/// `std::path::Path::starts_with` decides it.
pub uninterp spec fn has_path_prefix(path: Seq<char>, base: Seq<char>) -> bool;

/// The path without its final component, as `std::path::Path::parent`
/// computes it (`None` for a root, or for the empty path).
pub uninterp spec fn parent_path(path: Seq<char>) -> Option<Seq<char>>;

/// Calls `path_clean::clean`: multiple separators are reduced, `.` components
/// dropped and `..` components folded into their parent, lexically. The
/// contract names the result, which depends on `path` alone, and states that
/// an absolute path stays absolute: its prefix and root components are never
/// removed (a `..` right after the root is dropped instead).
#[verifier::external_body]
pub(crate) fn clean_path(path: &str) -> (r: String)
    ensures
        r@ == cleaned(path@),
        is_absolute_path(path@) ==> is_absolute_path(r@),
{
    path_clean::clean(path).to_string_lossy().into_owned()
}

/// Calls `std::path::Path::starts_with`: whether `base` is a prefix of `path`
/// in whole components. The contract only names the result.
#[verifier::external_body]
pub(crate) fn path_starts_with(path: &str, base: &str) -> (r: bool)
    ensures
        r == has_path_prefix(path@, base@),
{
    Path::new(path).starts_with(base)
}

/// Calls `std::path::Path::parent`: the path without its final component.
/// The contract only names the result.
#[verifier::external_body]
pub(crate) fn path_parent(path: &str) -> (r: Option<String>)
    ensures
        match r {
            Some(q) => parent_path(path@) == Some(q@),
            None => parent_path(path@) is None,
        },
{
    match Path::new(path).parent() {
        Some(q) => Some(q.to_string_lossy().into_owned()),
        None => None,
    }
}

/// Calls `std::path::Path::is_absolute`. The contract only names the result.
#[verifier::external_body]
pub(crate) fn is_absolute(p: &str) -> (r: bool)
    ensures
        r == is_absolute_path(p@),
{
    Path::new(p).is_absolute()
}

/// Calls `std::path::Path::join`. The contract names the result and states
/// what its documentation gives: an absolute `p` replaces `base`.
#[verifier::external_body]
pub(crate) fn join_paths(base: &str, p: &str) -> (r: String)
    ensures
        r@ == joined(base@, p@),
        is_absolute_path(p@) ==> r@ == p@,
{
    Path::new(base).join(p).to_string_lossy().into_owned()
}

/// Where a symbolic link added with `add_symlink` points, for a temporary
/// directory rooted at `root`.
///
/// The result is absolute whenever the target is, or its join with the root
/// is; an absolute result is its own resolution against any root.
pub fn resolve_symlink_target(root: &str, target: &str) -> (r: String)
    ensures
        r@ == resolved_target(root@, target@),
        is_absolute_path(target@) || is_absolute_path(joined(root@, target@)) ==> is_absolute_path(
            r@,
        ),
        is_absolute_path(r@) ==> forall|other: Seq<char>| resolved_target(other, r@) == r@,
{
    if is_absolute(target) {
        target.to_owned()
    } else {
        let joined = join_paths(root, target);
        clean_path(joined.as_str())
    }
}

/// The path whose kind decides, on systems that tell file links from
/// directory links, how a link at `link` to `target` is made: the target
/// taken from the directory that holds the link, or the target itself where
/// the link has no parent.
pub fn link_target_location(link: &str, target: &str) -> (r: String)
    ensures
        r@ == match parent_path(link@) {
            Some(dir) => joined(dir, target@),
            None => target@,
        },
{
    match path_parent(link) {
        Some(dir) => join_paths(dir.as_str(), target),
        None => target.to_owned(),
    }
}

/// The form in which Windows stores a link target: its kernel only accepts
/// `\` as a separator there.
pub fn windows_reparse_target(target: &str) -> (r: String)
    ensures
        r@ == with_backslashes(target@),
        r@.len() == target@.len(),
        forall|i: int| 0 <= i < r@.len() ==> r@[i] != '/',
{
    let n = target.unicode_len();
    let mut out = String::new();
    let mut i: usize = 0;
    while i < n
        invariant
            i <= n,
            n == target@.len(),
            out@ == with_backslashes(target@.subrange(0, i as int)),
        decreases n - i,
    {
        let c = target.get_char(i);
        proof {
            reveal_strlit("\\");
        }
        if c == '/' {
            out.append("\\");
        } else {
            out.append(target.substring_char(i, i + 1));
        }
        assert(target@.subrange(0, i + 1) =~= target@.subrange(0, i as int).push(c));
        assert(with_backslashes(target@.subrange(0, i + 1)) =~= with_backslashes(
            target@.subrange(0, i as int),
        ).push(if c == '/' { '\\' } else { c }));
        i = i + 1;
    }
    assert(target@.subrange(0, n as int) =~= target@);
    out
}

} // verus!
