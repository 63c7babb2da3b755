//! The capability contracts a concrete backend must satisfy: object
//! storage proper, and the quota plan consulted before an upload is
//! admitted. No backend is implemented here; callers receive an
//! implementation from elsewhere and must treat every operation as
//! independently callable, with no ordering imposed by this layer.

use vstd::prelude::*;

use crate::error::StorageError;
use crate::identity::{ObjectIdentity, ObjectValue};
use crate::object::StorageObject;

verus! {

/// Provides a service for object storage.
///
/// The four operations are independent: this layer neither serializes nor
/// retries them, and each fails with a typed error on backend rejection
/// or transport failure.
pub trait ObjectStorageService: Send + Sync + 'static {
    /// Resolves a storage identity to a backend-addressable URL; fails
    /// when the identity is malformed or unauthorized.
    fn get_object_url(&self, object_id: ObjectIdentity) -> Result<String, StorageError>;

    /// Uploads the payload to the given URL; fails on transport, quota,
    /// or backend rejection. Retry policy is the caller's or the
    /// backend's responsibility.
    fn put_object(&self, url: String, object_value: ObjectValue) -> Result<(), StorageError>;

    /// Removes the object at the given URL; fails when it is missing or
    /// unauthorized. Whether deleting a missing object succeeds is
    /// backend-defined.
    fn delete_object(&self, url: String) -> Result<(), StorageError>;

    /// Fetches the payload and its MIME classification from the given
    /// URL; fails when the object is missing or on transport error.
    fn get_object(&self, url: String) -> Result<ObjectValue, StorageError>;
}

/// The quota plan consulted before an upload: raw usage numbers, and an
/// authoritative admission check. An implementer must keep the two
/// consistent — nothing here prevents a manual check from drifting from
/// `check_upload_object`.
pub trait FileStoragePlan: Send + Sync + 'static {
    /// The current total usage of the caller's scope, in bytes.
    fn storage_size(&self) -> Result<u64, StorageError>;

    /// The per-file ceiling, in bytes.
    fn maximum_file_size(&self) -> Result<u64, StorageError>;

    /// The admission check: fails when the object would exceed the
    /// configured limits.
    fn check_upload_object(&self, object: &StorageObject) -> Result<(), StorageError>;
}

} // verus!
