//! The error taxonomy: every failure is a kind together with a
//! human-readable detail string.

use vstd::prelude::*;

verus! {

/// What went wrong, as a closed set of kinds.
#[derive(Clone, Copy, Debug, PartialEq, Eq, Structural)]
pub enum ErrorKind {
    /// No installation of the tool is discoverable anywhere.
    NotFound,
    /// The operating system refused to create the child process.
    SpawnFailed,
    /// A session is already active; at most one may run at a time.
    AlreadyRunning,
    /// The process ran but exited with a failure status, or a validation
    /// probe returned non-zero.
    ExecutionFailed,
    /// The persisted configuration document exists but fails to parse.
    ConfigCorrupt,
    /// Writing the configuration or the chosen binary path failed.
    PersistFailed,
}

/// An error of this library: a kind plus a detail string for the user.
#[derive(Clone, Debug)]
pub struct GeminiError {
    pub kind: ErrorKind,
    pub detail: String,
}

impl GeminiError {
    pub fn new(kind: ErrorKind, detail: String) -> (r: GeminiError)
        ensures
            r.kind == kind,
            r.detail@ == detail@,
    {
        GeminiError { kind, detail }
    }

    /// The human-readable message carried by the error.
    pub fn message(&self) -> (r: String)
        ensures
            r@ == self.detail@,
    {
        self.detail.clone()
    }
}

} // verus!
