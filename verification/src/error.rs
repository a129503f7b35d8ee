//! The failures that callers are told about.

use vstd::prelude::*;

verus! {

/// Why a read-only summary of the repository could not be produced.
#[derive(Debug, Clone, Copy, PartialEq, Eq, Structural)]
pub enum AccessError {
    /// The engine failed while it enumerated references, or a reference has
    /// a name that is not text.
    EnumerationFailed,
    /// HEAD cannot be resolved to a named reference.
    HeadUnresolved,
}

/// Why the credential resolver produced no credential.
#[derive(Debug, Clone, Copy, PartialEq, Eq, Structural)]
pub enum CredentialError {
    /// Key-pair authentication is not among the accepted mechanisms.
    AuthUnavailable,
    /// The remote supplied no username.
    NoUsername,
}

/// Why a pull stopped.
#[derive(Debug)]
pub enum SyncError {
    /// The repository knows no remote of the given name.
    RemoteNotFound,
    /// The transfer failed; the engine's own error is carried along.
    FetchFailed(git2::Error),
    /// The histories diverged and the merge left conflicts for the user.
    MergeConflict,
    /// The engine failed while it read or changed the repository.
    MergeFailed,
}

} // verus!
