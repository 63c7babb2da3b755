//! The failure taxonomy of this layer: local I/O, backend transport, quota
//! or policy rejection, and operations unavailable on the running platform.

use vstd::prelude::*;

verus! {

/// What went wrong, by broad class.
#[derive(Clone, Copy, Debug, PartialEq, Eq, Structural)]
pub enum StorageErrorKind {
    /// A local file could not be opened or fully read.
    Io,
    /// The storage backend rejected or failed the operation.
    Backend,
    /// The upload would exceed the configured quota or policy.
    Quota,
    /// The operation is not available on the running platform.
    Unimplemented,
}

/// A typed failure result: every operation of this layer either succeeds
/// completely or propagates one of these to its immediate caller.
#[derive(Debug)]
pub struct StorageError {
    pub kind: StorageErrorKind,
    pub msg: String,
}

impl Clone for StorageError {
    /// The clone carries the same kind and message.
    fn clone(&self) -> (r: Self)
        ensures
            r.kind == self.kind,
            r.msg@ == self.msg@,
    {
        StorageError { kind: self.kind, msg: self.msg.clone() }
    }
}

impl StorageError {
    /// Builds an error of the given kind carrying a human-readable message.
    pub fn new(kind: StorageErrorKind, msg: &str) -> (r: Self)
        ensures
            r.kind == kind,
            r.msg@ == msg@,
    {
        StorageError { kind, msg: msg.to_owned() }
    }
}

} // verus!
