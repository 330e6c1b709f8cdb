//! A sandbox guard for file-system operations.
//!
//! Every operation offered to an untrusted caller is confined to a single
//! sandbox directory. The guard itself is pure: it decides over canonical
//! path strings and pre-gathered facts about the file system, while an
//! unverified shell performs the probing (existence checks, symlink
//! resolution) and the final OS actions.

pub mod errors;
pub mod guard;
pub mod ops;
