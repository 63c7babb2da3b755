//! A named object to hand to a storage backend, with its payload either
//! still on disk or already in memory.

use vstd::prelude::*;

use crate::outside::{bytes_len, bytes_view, guess_mime_string, mime_guess_of};

verus! {

/// The payload of a [`StorageObject`]: exactly one of the two
/// representations is active.
pub enum ObjectValueSupabase {
    /// The payload lives on disk and is resolved lazily from this path.
    File { file_path: String },
    /// The payload is in memory, with a caller-declared MIME string.
    Bytes { bytes: bytes::Bytes, mime: String },
}

impl ObjectValueSupabase {
    /// The MIME classification this payload reports: the table lookup on
    /// the path for a `File`, the declared string as it stands for
    /// `Bytes` — the two can disagree in format (guessed against
    /// declared), and callers must not assume consistency.
    pub open spec fn spec_mime_type(&self) -> Seq<char> {
        match self {
            ObjectValueSupabase::File { file_path } => mime_guess_of(file_path@),
            ObjectValueSupabase::Bytes { mime, .. } => mime@,
        }
    }

    /// Returns the MIME type of the payload: inferred from the path's
    /// extension for a `File`, the declared string for `Bytes`.
    pub fn mime_type(&self) -> (r: String)
        ensures
            r@ == self.spec_mime_type(),
    {
        match self {
            ObjectValueSupabase::File { file_path } => guess_mime_string(file_path.as_str()),
            ObjectValueSupabase::Bytes { mime, .. } => mime.clone(),
        }
    }
}

/// A named object to upload to a backend.
pub struct StorageObject {
    pub workspace_id: String,
    pub file_name: String,
    pub value: ObjectValueSupabase,
}

impl StorageObject {
    /// The payload size when it is held in memory; `None` when it lives
    /// on disk and its size must come from the file's metadata.
    pub open spec fn spec_in_memory_size(&self) -> Option<u64> {
        match self.value {
            ObjectValueSupabase::File { .. } => None,
            ObjectValueSupabase::Bytes { bytes, .. } => Some(bytes_view(bytes).len() as u64),
        }
    }

    /// Creates a `StorageObject` whose payload is resolved lazily from a
    /// file on disk.
    pub fn from_file(workspace_id: &str, file_name: &str, file_path: &str) -> (r: Self)
        ensures
            r.workspace_id@ == workspace_id@,
            r.file_name@ == file_name@,
            r.value matches ObjectValueSupabase::File { file_path: p } && p@ == file_path@,
    {
        Self {
            workspace_id: workspace_id.to_owned(),
            file_name: file_name.to_owned(),
            value: ObjectValueSupabase::File { file_path: file_path.to_owned() },
        }
    }

    /// Creates a `StorageObject` whose payload is already in memory, with
    /// an explicit, caller-declared MIME string.
    pub fn from_bytes(workspace_id: &str, file_name: &str, bytes: bytes::Bytes, mime: String) -> (r:
        Self)
        ensures
            r.workspace_id@ == workspace_id@,
            r.file_name@ == file_name@,
            r.value matches ObjectValueSupabase::Bytes { bytes: b, mime: m } && bytes_view(b)
                == bytes_view(bytes) && m@ == mime@,
    {
        Self {
            workspace_id: workspace_id.to_owned(),
            file_name: file_name.to_owned(),
            value: ObjectValueSupabase::Bytes { bytes, mime },
        }
    }

    /// The size of an in-memory payload, in bytes; `None` when the
    /// payload lives on disk, in which case the size is the on-disk
    /// length read from the file's metadata.
    pub fn in_memory_size(&self) -> (r: Option<u64>)
        ensures
            r == self.spec_in_memory_size(),
    {
        match &self.value {
            ObjectValueSupabase::File { .. } => None,
            ObjectValueSupabase::Bytes { bytes, .. } => Some(bytes_len(bytes) as u64),
        }
    }
}

} // verus!
