//! The sandbox guard: containment of one canonical path under another.
//!
//! The guard never touches the file system. It is handed the outcome of
//! canonicalizing each path (a [`Resolution`]) and decides purely over those
//! strings. A naive prefix test on *unresolved* paths is trivially bypassed
//! by symlinks or `..` segments; the contract of [`is_path_safe`] therefore
//! speaks only of the resolved forms.

use vstd::prelude::*;
use crate::errors::ErrorKind;
use crate::errors::FsError;
use crate::errors::access_denied_msg;
use crate::errors::is_error;
use crate::errors::root_unresolvable_msg;
use crate::errors::target_unresolved_msg;
use crate::errors::root_unresolvable;
use crate::errors::target_unresolved;

verus! {

/// Containment for canonical, separator-normalized absolute paths:
/// `target` equals `base`, or extends it at a component boundary.
///
/// Canonical paths never end in `/` except a file-system root itself; the
/// trailing-slash disjunct makes every absolute path count as contained
/// under such a root, as component-wise prefix comparison does.
pub open spec fn contained_in(base: Seq<char>, target: Seq<char>) -> bool {
    ||| target == base
    ||| (target.len() > base.len() && target.subrange(0, base.len() as int) == base && (
    target[base.len() as int] == '/' || (base.len() > 0 && base[base.len() - 1] == '/')))
}

/// Law: the root itself, and every path of the form `root + "/" + rest`,
/// are contained in the root.
pub proof fn lemma_root_and_descendants_contained(root: Seq<char>, rest: Seq<char>)
    ensures
        contained_in(root, root),
        contained_in(root, root + seq!['/'] + rest),
{
    let target = root + seq!['/'] + rest;
    assert(target.subrange(0, root.len() as int) =~= root);
    assert(target[root.len() as int] == '/');
}

/// Law: a path that merely extends the root's last component — a sibling
/// whose name shares the root's text as a prefix — is not contained.
/// (A canonical root does not end in `/` unless it is a file-system root;
/// the precondition excludes that one.)
pub proof fn lemma_sibling_prefix_not_contained(root: Seq<char>, rest: Seq<char>)
    requires
        rest.len() > 0,
        rest[0] != '/',
        root.len() == 0 || root[root.len() - 1] != '/',
    ensures
        !contained_in(root, root + rest),
{
    let target = root + rest;
    assert(target.len() > root.len());
    assert(target[root.len() as int] == rest[0]);
}

/// Law: only the root itself and true descendants are contained. Whenever
/// the guard accepts a path other than the root, that path is the root
/// followed by `/` and a remainder.
pub proof fn lemma_contained_is_descendant(root: Seq<char>, target: Seq<char>)
    requires
        root.len() == 0 || root[root.len() - 1] != '/',
        contained_in(root, target),
        target != root,
    ensures
        target.len() > root.len(),
        target.subrange(0, root.len() as int) == root,
        target[root.len() as int] == '/',
        target == root + seq!['/'] + target.subrange(root.len() as int + 1, target.len() as int),
{
    assert(target =~= root + seq!['/'] + target.subrange(root.len() as int + 1, target.len() as int));
}

/// Whether `target` is contained in `base`, both taken as canonical path
/// strings.
pub fn path_starts_within(base: &str, target: &str) -> (r: bool)
    ensures
        r == contained_in(base@, target@),
{
    let base_len = base.unicode_len();
    let target_len = target.unicode_len();
    if target_len < base_len {
        return false;
    }
    let mut i: usize = 0;
    while i < base_len
        invariant
            0 <= i <= base_len,
            base_len == base@.len(),
            target_len == target@.len(),
            base_len <= target_len,
            forall|j: int| 0 <= j < i ==> base@[j] == target@[j],
        decreases base_len - i,
    {
        if base.get_char(i) != target.get_char(i) {
            proof {
                if target@.len() > base@.len() && target@.subrange(0, base@.len() as int)
                    == base@ {
                    assert(target@.subrange(0, base@.len() as int)[i as int] == target@[i as int]);
                }
            }
            return false;
        }
        i = i + 1;
    }
    if target_len == base_len {
        proof {
            assert(base@ =~= target@);
        }
        return true;
    }
    proof {
        assert(target@.subrange(0, base@.len() as int) =~= base@);
    }
    if target.get_char(base_len) == '/' {
        return true;
    }
    if base_len > 0 && base.get_char(base_len - 1) == '/' {
        return true;
    }
    false
}

/// The outcome of asking the operating system for the canonical
/// (symlink-free, absolute) form of a path.
#[derive(Clone, Debug)]
pub enum Resolution {
    /// The canonical form.
    Resolved { path: String },
    /// Canonicalization failed; the OS error description.
    Unresolved { detail: String },
}

/// The guard's verdict on one candidate, given the resolution of the
/// sandbox root (`base`) and of the candidate (`target`).
///
/// An unresolvable root is a configuration error; an unresolvable candidate
/// does not exist. When both resolve, the verdict is containment of the
/// canonical strings — never of the raw candidate.
pub fn is_path_safe(base: &Resolution, target_raw: &str, target: &Resolution) -> (r: Result<
    bool,
    FsError,
>)
    ensures
        base matches Resolution::Unresolved { detail } ==> (r matches Err(e) && is_error(
            e,
            ErrorKind::Config,
            root_unresolvable_msg(detail@),
        )),
        base is Resolved && target is Unresolved ==> (r matches Err(e) && is_error(
            e,
            ErrorKind::NotFound,
            target_unresolved_msg(target_raw@),
        )),
        base matches Resolution::Resolved { path: b } ==> target matches Resolution::Resolved {
            path: t,
        } ==> r == Ok::<bool, FsError>(contained_in(b@, t@)),
{
    match base {
        Resolution::Unresolved { detail } => Err(root_unresolvable(detail.as_str())),
        Resolution::Resolved { path: base_path } => match target {
            Resolution::Unresolved { detail: _ } => Err(target_unresolved(target_raw)),
            Resolution::Resolved { path: target_path } => Ok(
                path_starts_within(base_path.as_str(), target_path.as_str()),
            ),
        },
    }
}

/// The sandbox root for a working directory: its fixed `.taskgrid`
/// subdirectory.
pub fn sandbox_root_of(working_dir: &str) -> (r: String)
    ensures
        r@ == working_dir@ + "/.taskgrid"@,
{
    let root = String::from_str(working_dir);
    root.concat("/.taskgrid")
}

/// Holds when the guard, given these two resolutions, admits the candidate.
pub open spec fn guard_admits(base: Resolution, target: Resolution) -> bool {
    &&& base matches Resolution::Resolved { path: b }
    &&& target matches Resolution::Resolved { path: t }
    &&& contained_in(b@, t@)
}

/// Law: the guard admits a candidate only by its canonical location. A
/// candidate whose canonical form lies outside the canonical root — a
/// symlink placed inside the sandbox but resolving out of it — is never
/// admitted, no matter what raw text named it; neither is a candidate or
/// root that did not resolve at all.
pub proof fn lemma_outside_resolution_never_admitted(base: Resolution, target: Resolution)
    requires
        base matches Resolution::Resolved { path: b } ==> target matches Resolution::Resolved {
            path: t,
        } ==> !contained_in(b@, t@),
    ensures
        !guard_admits(base, target),
{
}

/// Holds when the guard, given these two resolutions, rejects the candidate
/// with exactly the error `e`.
pub open spec fn guard_rejects(
    base: Resolution,
    target_raw: Seq<char>,
    target: Resolution,
    e: FsError,
) -> bool {
    match base {
        Resolution::Unresolved { detail } => is_error(
            e,
            ErrorKind::Config,
            root_unresolvable_msg(detail@),
        ),
        Resolution::Resolved { path: b } => match target {
            Resolution::Unresolved { detail: _ } => is_error(
                e,
                ErrorKind::NotFound,
                target_unresolved_msg(target_raw),
            ),
            Resolution::Resolved { path: t } => !contained_in(b@, t@) && is_error(
                e,
                ErrorKind::AccessDenied,
                access_denied_msg(),
            ),
        },
    }
}

} // verus!
