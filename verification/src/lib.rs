//! A thin abstraction boundary for remote object storage: content-addressed
//! identity derivation for local payloads, a file-or-bytes payload union with
//! MIME resolution, and the capability contracts a storage backend and a
//! quota plan checker must satisfy.

pub mod decimal;
pub mod error;
pub mod identity;
pub mod object;
pub mod outside;
pub mod path_ext;
pub mod service;

pub use decimal::decimal_string;
pub use error::{StorageError, StorageErrorKind};
pub use identity::{object_from_content, ObjectIdentity, ObjectValue};
pub use object::{ObjectValueSupabase, StorageObject};
pub use service::{FileStoragePlan, ObjectStorageService};
