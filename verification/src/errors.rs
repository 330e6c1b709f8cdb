//! Tagged errors with the exact human-readable messages the operations emit.
//!
//! Callers that pattern-match on message prefixes depend on the texts below,
//! so every constructor pins the full message in its contract.

use vstd::prelude::*;

verus! {

/// The kind of a failure, for callers that match structurally.
#[derive(Clone, Copy, Debug, PartialEq, Eq, Structural)]
pub enum ErrorKind {
    /// A path that had to exist is absent.
    NotFound,
    /// The containment check failed.
    AccessDenied,
    /// The path has no usable parent component.
    InvalidPath,
    /// The sandbox root itself could not be resolved.
    Config,
    /// An OS call failed for a reason other than containment.
    Io,
}

/// A failed operation: a tag for structural matching plus the message text.
#[derive(Clone, Debug, PartialEq, Eq)]
pub struct FsError {
    pub kind: ErrorKind,
    pub message: String,
}

/// Holds when `e` carries exactly the given kind and message.
pub open spec fn is_error(e: FsError, kind: ErrorKind, msg: Seq<char>) -> bool {
    e.kind == kind && e.message@ == msg
}

pub open spec fn file_missing_msg(path: Seq<char>) -> Seq<char> {
    "File does not exist: "@ + path
}

pub open spec fn dir_missing_msg(path: Seq<char>) -> Seq<char> {
    "Directory does not exist: "@ + path
}

pub open spec fn target_unresolved_msg(path: Seq<char>) -> Seq<char> {
    "Target path does not exist: "@ + path
}

pub open spec fn access_denied_msg() -> Seq<char> {
    "Access denied: Path is outside .taskgrid folder"@
}

pub open spec fn no_parent_msg() -> Seq<char> {
    "Invalid path: no parent directory"@
}

pub open spec fn at_root_msg() -> Seq<char> {
    "Invalid path: cannot create directory at root"@
}

pub open spec fn root_unresolvable_msg(detail: Seq<char>) -> Seq<char> {
    "Failed to canonicalize base path: "@ + detail
}

pub open spec fn read_failed_msg(detail: Seq<char>) -> Seq<char> {
    "Failed to read file: "@ + detail
}

pub open spec fn write_failed_msg(detail: Seq<char>) -> Seq<char> {
    "Failed to write file: "@ + detail
}

pub open spec fn list_failed_msg(detail: Seq<char>) -> Seq<char> {
    "Failed to list directory: "@ + detail
}

pub open spec fn delete_failed_msg(detail: Seq<char>) -> Seq<char> {
    "Failed to delete file: "@ + detail
}

pub open spec fn create_dir_failed_msg(detail: Seq<char>) -> Seq<char> {
    "Failed to create directory: "@ + detail
}

fn with_prefix(prefix: &str, detail: &str) -> (r: String)
    ensures
        r@ == prefix@ + detail@,
{
    let head = String::from_str(prefix);
    head.concat(detail)
}

pub fn file_missing(path: &str) -> (e: FsError)
    ensures
        is_error(e, ErrorKind::NotFound, file_missing_msg(path@)),
{
    FsError { kind: ErrorKind::NotFound, message: with_prefix("File does not exist: ", path) }
}

pub fn dir_missing(path: &str) -> (e: FsError)
    ensures
        is_error(e, ErrorKind::NotFound, dir_missing_msg(path@)),
{
    FsError { kind: ErrorKind::NotFound, message: with_prefix("Directory does not exist: ", path) }
}

pub fn target_unresolved(path: &str) -> (e: FsError)
    ensures
        is_error(e, ErrorKind::NotFound, target_unresolved_msg(path@)),
{
    FsError {
        kind: ErrorKind::NotFound,
        message: with_prefix("Target path does not exist: ", path),
    }
}

pub fn access_denied() -> (e: FsError)
    ensures
        is_error(e, ErrorKind::AccessDenied, access_denied_msg()),
{
    FsError {
        kind: ErrorKind::AccessDenied,
        message: String::from_str("Access denied: Path is outside .taskgrid folder"),
    }
}

pub fn invalid_no_parent() -> (e: FsError)
    ensures
        is_error(e, ErrorKind::InvalidPath, no_parent_msg()),
{
    FsError {
        kind: ErrorKind::InvalidPath,
        message: String::from_str("Invalid path: no parent directory"),
    }
}

pub fn invalid_at_root() -> (e: FsError)
    ensures
        is_error(e, ErrorKind::InvalidPath, at_root_msg()),
{
    FsError {
        kind: ErrorKind::InvalidPath,
        message: String::from_str("Invalid path: cannot create directory at root"),
    }
}

pub fn root_unresolvable(detail: &str) -> (e: FsError)
    ensures
        is_error(e, ErrorKind::Config, root_unresolvable_msg(detail@)),
{
    FsError {
        kind: ErrorKind::Config,
        message: with_prefix("Failed to canonicalize base path: ", detail),
    }
}

pub fn read_failed(detail: &str) -> (e: FsError)
    ensures
        is_error(e, ErrorKind::Io, read_failed_msg(detail@)),
{
    FsError { kind: ErrorKind::Io, message: with_prefix("Failed to read file: ", detail) }
}

pub fn write_failed(detail: &str) -> (e: FsError)
    ensures
        is_error(e, ErrorKind::Io, write_failed_msg(detail@)),
{
    FsError { kind: ErrorKind::Io, message: with_prefix("Failed to write file: ", detail) }
}

pub fn list_failed(detail: &str) -> (e: FsError)
    ensures
        is_error(e, ErrorKind::Io, list_failed_msg(detail@)),
{
    FsError { kind: ErrorKind::Io, message: with_prefix("Failed to list directory: ", detail) }
}

pub fn delete_failed(detail: &str) -> (e: FsError)
    ensures
        is_error(e, ErrorKind::Io, delete_failed_msg(detail@)),
{
    FsError { kind: ErrorKind::Io, message: with_prefix("Failed to delete file: ", detail) }
}

pub fn create_dir_failed(detail: &str) -> (e: FsError)
    ensures
        is_error(e, ErrorKind::Io, create_dir_failed_msg(detail@)),
{
    FsError { kind: ErrorKind::Io, message: with_prefix("Failed to create directory: ", detail) }
}

} // verus!
