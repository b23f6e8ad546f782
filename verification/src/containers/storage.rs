//! Where uploads and blobs are kept in the blob store.

use vstd::prelude::*;
use vstd::string::*;

use crate::text::{decimal, join3, lemma_usize_text_of_decimal, usize_to_decimal};

verus! {

/// The key of the chunk of an upload that starts at `offset`.
pub open spec fn chunk_key_text(upload_id: Seq<char>, offset: usize) -> Seq<char> {
    "artifacts/oci/uploads/"@ + upload_id + "/chunks/"@ + decimal(offset as nat)
}

/// The key of the blob with the given digest.
pub open spec fn blob_key_text(digest: Seq<char>) -> Seq<char> {
    "artifacts/oci/blobs/"@ + digest
}

/// The key of the chunk of an upload that starts at `chunk_offset`.
pub fn chunk_key(upload_id: &str, chunk_offset: usize) -> (r: String)
    ensures
        r@ == chunk_key_text(upload_id@, chunk_offset),
{
    let offset = usize_to_decimal(chunk_offset);
    let head = join3("artifacts/oci/uploads/", upload_id, "/chunks/");
    head.concat(offset.as_str())
}

/// The key of the blob with the given digest.
pub fn blob_key(digest: &str) -> (r: String)
    ensures
        r@ == blob_key_text(digest@),
{
    String::from_str("artifacts/oci/blobs/").concat(digest)
}

/// The chunks of an upload are kept under distinct keys: two offsets give
/// the same key only when they are equal.
pub proof fn lemma_chunk_keys_distinct(upload_id: Seq<char>, a: usize, b: usize)
    requires
        chunk_key_text(upload_id, a) == chunk_key_text(upload_id, b),
    ensures
        a == b,
{
    let head = "artifacts/oci/uploads/"@ + upload_id + "/chunks/"@;
    let ka = chunk_key_text(upload_id, a);
    let kb = chunk_key_text(upload_id, b);
    assert(ka.subrange(head.len() as int, ka.len() as int) =~= decimal(a as nat));
    assert(kb.subrange(head.len() as int, kb.len() as int) =~= decimal(b as nat));
    lemma_usize_text_of_decimal(a);
    lemma_usize_text_of_decimal(b);
}

} // verus!
