//! The hash of a blob, and the content identifier that it is part of.

use vstd::prelude::*;

verus! {

/// How many bytes the content identifier of a blob has.
pub const BLOB_CID_LENGTH: usize = 36;

/// The bytes that the content identifier of a blob begins with: version,
/// codec, hash function and length of the hash.
pub open spec fn blob_cid_prefix() -> Seq<u8> {
    seq![0x01u8, 0x55u8, 0x1eu8, 0x20u8]
}

/// Whether a content identifier is that of a blob.
pub open spec fn is_blob_cid(cid: Seq<u8>) -> bool {
    cid.len() == BLOB_CID_LENGTH && cid.subrange(0, 4) == blob_cid_prefix()
}

/// The hash in the content identifier of a blob.
pub open spec fn blob_hash(cid: Seq<u8>) -> Seq<u8> {
    cid.subrange(4, 36)
}

/// What is wrong with a content identifier that is not that of a blob.
pub open spec fn blob_cid_error(cid: Seq<u8>) -> Seq<char> {
    if cid.len() != BLOB_CID_LENGTH {
        "invalid cid length, expected 36, got "@ + crate::text::decimal(cid.len())
    } else {
        "invalid cid prefix"@
    }
}

/// Calls `Hash::from_cid_bytes` of the `iroh-bytes` crate. It takes 36 bytes
/// that begin with the prefix of a blob, and gives the 32 bytes that follow.
/// Other bytes it refuses, with an error that is handed on in words.
#[verifier::external_body]
pub(crate) fn hash_from_cid(cid: &[u8]) -> (hash: Result<Vec<u8>, String>)
    ensures
        match hash {
            Ok(hash) => is_blob_cid(cid@) && hash@ == blob_hash(cid@),
            Err(message) => !is_blob_cid(cid@) && message@ == blob_cid_error(cid@),
        },
{
    match iroh_bytes::Hash::from_cid_bytes(cid) {
        Ok(hash) => Ok(hash.as_bytes().to_vec()),
        Err(error) => Err(error.to_string()),
    }
}

/// Whether two hashes are the same.
pub fn same_hash(left: &Vec<u8>, right: &Vec<u8>) -> (same: bool)
    ensures
        same == (left@ == right@),
{
    if left.len() != right.len() {
        return false;
    }
    let mut i: usize = 0;
    while i < left.len()
        invariant
            left.len() == right.len(),
            i <= left.len(),
            forall|k: int| 0 <= k < i ==> left@[k] == right@[k],
        decreases left.len() - i,
    {
        if left[i] != right[i] {
            return false;
        }
        i = i + 1;
    }
    assert(left@ =~= right@);
    true
}

/// Content identifiers of blobs with the same hash are the same.
pub proof fn law_blobs_are_told_apart_by_hash(left: Seq<u8>, right: Seq<u8>)
    requires
        is_blob_cid(left),
        is_blob_cid(right),
        blob_hash(left) == blob_hash(right),
    ensures
        left == right,
{
    assert(left =~= left.subrange(0, 4) + blob_hash(left));
    assert(right =~= right.subrange(0, 4) + blob_hash(right));
}

/// The content identifier of a blob is the prefix of such identifiers followed
/// by the hash, which is all the rest of it.
pub proof fn law_blob_cid_is_prefix_and_hash(cid: Seq<u8>)
    ensures
        is_blob_cid(cid) ==> cid == seq![0x01u8, 0x55u8, 0x1eu8, 0x20u8] + blob_hash(cid),
        is_blob_cid(cid) ==> blob_hash(cid).len() == 32,
        cid.len() == 36 && cid.subrange(0, 4) == seq![0x01u8, 0x55u8, 0x1eu8, 0x20u8]
            ==> is_blob_cid(cid),
{
    if is_blob_cid(cid) {
        assert(cid =~= cid.subrange(0, 4) + blob_hash(cid));
    }
}

} // verus!
