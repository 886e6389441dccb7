//! The ways a run can fail.

use vstd::prelude::*;

verus! {

/// A fatal condition of a run.
#[derive(Debug, Clone, PartialEq, Eq)]
pub enum KickerError {
    /// No configuration was found.
    ConfigMissing,
    /// The configuration does not fit the schema.
    ConfigMalformed,
    /// A repository location carries no revision fragment.
    InvalidRevision,
    /// Clone or checkout failed after the working copy was rebuilt.
    SyncFailed,
    /// An invoked program exited unsuccessfully.
    CommandFailed,
    /// An expected build output is absent; it holds the path looked for.
    ArtifactMissing(String),
    /// A build path that has not been written yet.
    NotImplemented,
}

impl KickerError {
    /// A copy of this error.
    pub fn clone_error(&self) -> (r: KickerError)
        ensures
            r == *self,
    {
        match self {
            KickerError::ConfigMissing => KickerError::ConfigMissing,
            KickerError::ConfigMalformed => KickerError::ConfigMalformed,
            KickerError::InvalidRevision => KickerError::InvalidRevision,
            KickerError::SyncFailed => KickerError::SyncFailed,
            KickerError::CommandFailed => KickerError::CommandFailed,
            KickerError::ArtifactMissing(p) => KickerError::ArtifactMissing(p.clone()),
            KickerError::NotImplemented => KickerError::NotImplemented,
        }
    }
}

} // verus!
