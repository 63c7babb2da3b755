//! Content-addressed identity derivation: given a workspace, a source path
//! and the payload bytes, produce the immutable `(ObjectIdentity,
//! ObjectValue)` pair that a storage backend is handed.

use vstd::prelude::*;

use crate::decimal::{decimal_of, decimal_string};
use crate::outside::{
    bytes_from_vec, bytes_view, fxhash_content, fxhash_of, guess_mime_string, mime_guess_of,
};
use crate::path_ext::{extension_of, path_extension};

verus! {

/// Identifies a stored object: the workspace that scopes it, a
/// content-derived identifier, and the extension of the source path
/// (empty when there is none). Constructed once per upload attempt and
/// immutable thereafter.
pub struct ObjectIdentity {
    pub workspace_id: String,
    pub file_id: String,
    pub ext: String,
}

/// The payload paired with an identity: the raw bytes, cheaply shareable
/// across readers, and the MIME classification inferred from the source
/// path. Immutable once created.
pub struct ObjectValue {
    pub raw: bytes::Bytes,
    pub mime: String,
}

impl Clone for ObjectValue {
    /// The clone shares the payload bytes and copies the MIME text.
    fn clone(&self) -> (r: Self)
        ensures
            bytes_view(r.raw) == bytes_view(self.raw),
            r.mime@ == self.mime@,
    {
        ObjectValue { raw: self.raw.clone(), mime: self.mime.clone() }
    }
}

/// The identifier derived for a payload: the decimal form of the content
/// hash. A function of the bytes alone — neither the workspace nor the
/// source path enters it.
pub open spec fn file_id_of(content: Seq<u8>) -> Seq<char> {
    decimal_of(fxhash_of(content) as nat)
}

/// Derives the identity and value of a payload read from
/// `local_file_path`: the extension comes from the path, the MIME
/// classification from the path's extension, and the identifier from the
/// bytes alone.
pub fn object_from_content(workspace_id: &str, local_file_path: &str, content: Vec<u8>) -> (r: (
    ObjectIdentity,
    ObjectValue,
))
    ensures
        r.0.workspace_id@ == workspace_id@,
        r.0.file_id@ == file_id_of(content@),
        r.0.ext@ == path_extension(local_file_path@),
        bytes_view(r.1.raw) == content@,
        r.1.mime@ == mime_guess_of(local_file_path@),
{
    let ext = extension_of(local_file_path);
    let mime = guess_mime_string(local_file_path);
    let hash: usize = fxhash_content(&content);
    let file_id = decimal_string(hash);
    let raw = bytes_from_vec(content);
    (ObjectIdentity { workspace_id: workspace_id.to_owned(), file_id, ext }, ObjectValue {
        raw,
        mime,
    })
}

/// The identifier depends on the payload's byte content alone: two
/// derivations from equal bytes agree on `file_id`, whatever paths or
/// workspaces supplied them — only the carried extension can differ.
pub proof fn lemma_file_id_content_only(content_a: Seq<u8>, content_b: Seq<u8>)
    requires
        content_a == content_b,
    ensures
        file_id_of(content_a) == file_id_of(content_b),
{
}

} // verus!
