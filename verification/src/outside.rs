//! The boundary to the outside crates this library leans on: the shared
//! `bytes::Bytes` payload buffer, the FxHash content hash, and the
//! extension-to-MIME lookup of `mime_guess`. Everything here is taken on
//! trust; each item's contract states only what the crate's own source or
//! documentation shows.

use vstd::prelude::*;

verus! {

/// Declares `bytes::Bytes`, the reference-counted immutable byte buffer,
/// so that it can stand in the library's signatures and fields.
#[verifier::external_type_specification]
#[verifier::external_body]
pub struct ExBytes(bytes::Bytes);

/// The byte content that a `bytes::Bytes` buffer holds.
pub uninterp spec fn bytes_view(b: bytes::Bytes) -> Seq<u8>;

/// Relies on `From<Vec<u8>> for bytes::Bytes`: the buffer takes over the
/// vector's bytes unchanged.
#[verifier::external_body]
pub(crate) fn bytes_from_vec(v: Vec<u8>) -> (r: bytes::Bytes)
    ensures
        bytes_view(r) == v@,
{
    bytes::Bytes::from(v)
}

/// Relies on `bytes::Bytes::len`: the number of bytes the buffer holds.
#[verifier::external_body]
pub(crate) fn bytes_len(b: &bytes::Bytes) -> (r: usize)
    ensures
        r == bytes_view(*b).len(),
{
    b.len()
}

/// Relies on `Clone for bytes::Bytes`: cloning shares the same region of
/// memory, so the clone holds the same bytes.
pub assume_specification[ <bytes::Bytes as Clone>::clone ](b: &bytes::Bytes) -> (r:
    bytes::Bytes)
    ensures
        bytes_view(r) == bytes_view(*b),
;

/// The FxHash value of a byte sequence. FxHash is unseeded, so the hash
/// depends on the bytes alone.
pub uninterp spec fn fxhash_of(content: Seq<u8>) -> usize;

/// Relies on `fxhash::hash`: an unseeded hash of the vector's byte content.
#[verifier::external_body]
pub(crate) fn fxhash_content(content: &Vec<u8>) -> (r: usize)
    ensures
        r == fxhash_of(content@),
{
    fxhash::hash(content)
}

/// The MIME type that `mime_guess` associates with a path, written as text;
/// `application/octet-stream` when the path's extension has no known
/// association. The lookup table is fixed, so the result depends on the
/// path alone.
pub uninterp spec fn mime_guess_of(path: Seq<char>) -> Seq<char>;

/// Relies on `mime_guess::from_path` and `MimeGuess::first_or_octet_stream`:
/// a lookup of the path's extension in a fixed table, falling back to
/// `application/octet-stream`.
#[verifier::external_body]
pub(crate) fn guess_mime_string(path: &str) -> (r: String)
    ensures
        r@ == mime_guess_of(path@),
{
    mime_guess::from_path(path).first_or_octet_stream().to_string()
}

} // verus!
