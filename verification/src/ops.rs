//! Per-operation policy: validate a candidate path, then say which single
//! OS action may follow.
//!
//! Each `plan_*` function is the decision half of one operation. The
//! unverified shell first gathers the facts an operation needs — whether a
//! path exists, the canonical form of a path or of its nearest existing
//! ancestor — then calls the planner, and only performs the OS action the
//! planner allowed. Validation therefore happens strictly before any
//! mutation.

use vstd::prelude::*;
use crate::errors::ErrorKind;
use crate::errors::FsError;
use crate::errors::at_root_msg;
use crate::errors::dir_missing_msg;
use crate::errors::file_missing_msg;
use crate::errors::is_error;
use crate::errors::no_parent_msg;
use crate::errors::access_denied;
use crate::errors::dir_missing;
use crate::errors::file_missing;
use crate::errors::invalid_at_root;
use crate::errors::invalid_no_parent;
use crate::guard::Resolution;
use crate::guard::guard_admits;
use crate::guard::guard_rejects;
use crate::guard::is_path_safe;

verus! {

/// What a directory-creation request still has to do.
#[derive(Clone, Copy, Debug, PartialEq, Eq, Structural)]
pub enum MkdirAction {
    /// The directory already exists inside the sandbox; creating it again
    /// is a no-op.
    Noop,
    /// The directory may be created.
    Create,
}

/// Decide a read. `file_exists` is whether the candidate exists; `root`
/// and `target` are the resolutions of the sandbox root and the candidate.
///
/// A missing file is reported before the guard ever runs; an existing file
/// is read exactly when the guard admits it.
pub fn plan_read(file_path: &str, file_exists: bool, root: &Resolution, target: &Resolution) -> (r:
    Result<(), FsError>)
    ensures
        !file_exists ==> (r matches Err(e) && is_error(
            e,
            ErrorKind::NotFound,
            file_missing_msg(file_path@),
        )),
        file_exists ==> match r {
            Ok(_) => guard_admits(*root, *target),
            Err(e) => guard_rejects(*root, file_path@, *target, e),
        },
{
    if !file_exists {
        return Err(file_missing(file_path));
    }
    match is_path_safe(root, file_path, target) {
        Err(e) => Err(e),
        Ok(false) => Err(access_denied()),
        Ok(true) => Ok(()),
    }
}

/// Decide a single-file deletion: the same policy as a read. The shell
/// removes one file on `Ok`; directories are not this operation's business.
pub fn plan_delete(
    file_path: &str,
    file_exists: bool,
    root: &Resolution,
    target: &Resolution,
) -> (r: Result<(), FsError>)
    ensures
        !file_exists ==> (r matches Err(e) && is_error(
            e,
            ErrorKind::NotFound,
            file_missing_msg(file_path@),
        )),
        file_exists ==> match r {
            Ok(_) => guard_admits(*root, *target),
            Err(e) => guard_rejects(*root, file_path@, *target, e),
        },
{
    if !file_exists {
        return Err(file_missing(file_path));
    }
    match is_path_safe(root, file_path, target) {
        Err(e) => Err(e),
        Ok(false) => Err(access_denied()),
        Ok(true) => Ok(()),
    }
}

/// Decide a non-recursive directory listing. A directory that exists but
/// lies outside the sandbox is rejected with the access-denied error, even
/// though it would be readable.
pub fn plan_list(dir_path: &str, dir_exists: bool, root: &Resolution, target: &Resolution) -> (r:
    Result<(), FsError>)
    ensures
        !dir_exists ==> (r matches Err(e) && is_error(
            e,
            ErrorKind::NotFound,
            dir_missing_msg(dir_path@),
        )),
        dir_exists ==> match r {
            Ok(_) => guard_admits(*root, *target),
            Err(e) => guard_rejects(*root, dir_path@, *target, e),
        },
{
    if !dir_exists {
        return Err(dir_missing(dir_path));
    }
    match is_path_safe(root, dir_path, target) {
        Err(e) => Err(e),
        Ok(false) => Err(access_denied()),
        Ok(true) => Ok(()),
    }
}

/// Decide a write. An existing target is guarded directly. A target that
/// does not yet exist cannot be canonicalized, so the guard runs on
/// `ancestor`: the resolution of the nearest existing ancestor of the
/// target's parent. On `Ok` the shell creates the missing parent
/// directories and writes the full contents, overwriting.
///
/// `parent` is the target's parent component, `None` when the target has
/// none (a bare root): such a target is never a writable file.
pub fn plan_write(
    file_path: &str,
    file_exists: bool,
    root: &Resolution,
    target: &Resolution,
    parent: Option<&str>,
    ancestor: &Resolution,
) -> (r: Result<(), FsError>)
    ensures
        file_exists ==> match r {
            Ok(_) => guard_admits(*root, *target),
            Err(e) => guard_rejects(*root, file_path@, *target, e),
        },
        !file_exists && parent is None ==> (r matches Err(e) && is_error(
            e,
            ErrorKind::InvalidPath,
            no_parent_msg(),
        )),
        parent matches Some(p) ==> !file_exists ==> match r {
            Ok(_) => guard_admits(*root, *ancestor),
            Err(e) => guard_rejects(*root, p@, *ancestor, e),
        },
{
    if file_exists {
        return match is_path_safe(root, file_path, target) {
            Err(e) => Err(e),
            Ok(false) => Err(access_denied()),
            Ok(true) => Ok(()),
        };
    }
    match parent {
        None => Err(invalid_no_parent()),
        Some(parent_path) => match is_path_safe(root, parent_path, ancestor) {
            Err(e) => Err(e),
            Ok(false) => Err(access_denied()),
            Ok(true) => Ok(()),
        },
    }
}

/// Decide a directory creation.
///
/// A candidate with no parent component at all is anchoring at a
/// file-system root and is invalid outright, before anything is probed.
/// An existing directory inside the sandbox is a success with nothing left
/// to do, so the operation is idempotent. Otherwise the parent component
/// must be non-empty and exist, and the guard runs on its resolution.
pub fn plan_mkdir(
    dir_path: &str,
    dir_exists: bool,
    root: &Resolution,
    target: &Resolution,
    parent: Option<&str>,
    parent_exists: bool,
    parent_res: &Resolution,
) -> (r: Result<MkdirAction, FsError>)
    ensures
        parent is None ==> (r matches Err(e) && is_error(
            e,
            ErrorKind::InvalidPath,
            no_parent_msg(),
        )),
        parent is Some && dir_exists ==> match r {
            Ok(a) => a == MkdirAction::Noop && guard_admits(*root, *target),
            Err(e) => guard_rejects(*root, dir_path@, *target, e),
        },
        parent matches Some(p) ==> !dir_exists ==> p@.len() == 0 ==> (r matches Err(e) && is_error(
            e,
            ErrorKind::InvalidPath,
            at_root_msg(),
        )),
        parent matches Some(p) ==> !dir_exists && p@.len() > 0 && !parent_exists ==> (
        r matches Err(e) && is_error(e, ErrorKind::NotFound, dir_missing_msg(p@))),
        parent matches Some(p) ==> !dir_exists && p@.len() > 0 && parent_exists ==> match r {
            Ok(a) => a == MkdirAction::Create && guard_admits(*root, *parent_res),
            Err(e) => guard_rejects(*root, p@, *parent_res, e),
        },
{
    let parent_path = match parent {
        None => {
            return Err(invalid_no_parent());
        },
        Some(parent_path) => parent_path,
    };
    if dir_exists {
        return match is_path_safe(root, dir_path, target) {
            Err(e) => Err(e),
            Ok(false) => Err(access_denied()),
            Ok(true) => Ok(MkdirAction::Noop),
        };
    }
    if parent_path.is_empty() {
        return Err(invalid_at_root());
    }
    if !parent_exists {
        return Err(dir_missing(parent_path));
    }
    match is_path_safe(root, parent_path, parent_res) {
        Err(e) => Err(e),
        Ok(false) => Err(access_denied()),
        Ok(true) => Ok(MkdirAction::Create),
    }
}

/// Liveness probe for the shell's caller; always true.
pub fn backend_ready() -> (r: bool)
    ensures
        r,
{
    true
}

} // verus!
