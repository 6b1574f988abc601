//! Where things are kept: the key of an object's record in the metadata
//! store, and the place of its blob in the sharded blob tree.
//!
//! A blob lives in the directory named by the first two hexadecimal digits of
//! its content hash, in a file named by the object's key. The directory is
//! addressed by content, the file by key.

use crate::text::{hex_digit, is_hex_digit, join3};
use vstd::prelude::*;
use vstd::string::*;

verus! {

/// The place of a blob: a shard directory and a file name in it.
#[derive(Debug, PartialEq, Eq)]
pub struct BlobLocation {
    pub shard: String,
    pub key: String,
}

/// What a `BlobLocation` holds.
pub struct BlobAddress {
    pub shard: Seq<char>,
    pub key: Seq<char>,
}

impl View for BlobLocation {
    type V = BlobAddress;

    open spec fn view(&self) -> BlobAddress {
        BlobAddress { shard: self.shard@, key: self.key@ }
    }
}

/// Whether a shard can be taken from `hash`: it has at least two characters
/// and the first two are hexadecimal digits.
pub open spec fn has_shard(hash: Seq<char>) -> bool {
    hash.len() >= 2 && is_hex_digit(hash[0]) && is_hex_digit(hash[1])
}

/// The shard of a content hash: its first two characters.
pub open spec fn shard_of(hash: Seq<char>) -> Seq<char>
    recommends
        has_shard(hash),
{
    hash.subrange(0, 2)
}

/// The place of the blob of the object `key` whose content hash is `hash`.
pub open spec fn blob_address(hash: Seq<char>, key: Seq<char>) -> BlobAddress
    recommends
        has_shard(hash),
{
    BlobAddress { shard: shard_of(hash), key }
}

/// The key of the record of object `key` in `bucket`: `bucket/key`.
pub open spec fn object_key_of(bucket: Seq<char>, key: Seq<char>) -> Seq<char> {
    bucket + "/"@ + key
}

/// The path of a blob below the data root: `data/<shard>/<key>`.
pub open spec fn relative_path_of(at: BlobAddress) -> Seq<char> {
    "data/"@ + at.shard + "/"@ + at.key
}

/// The shard of `hash`, where it has one.
pub fn shard(hash: &str) -> (r: Option<String>)
    ensures
        match r {
            Some(s) => has_shard(hash@) && s@ == shard_of(hash@),
            None => !has_shard(hash@),
        },
{
    if hash.unicode_len() < 2 {
        return None;
    }
    if !hex_digit(hash.get_char(0)) || !hex_digit(hash.get_char(1)) {
        return None;
    }
    Some(String::from_str(hash.substring_char(0, 2)))
}

/// The place of the blob of the object `key` whose content hash is `hash`,
/// where the hash has a shard.
pub fn locate(hash: &str, key: &str) -> (r: Option<BlobLocation>)
    ensures
        match r {
            Some(at) => has_shard(hash@) && at@ == blob_address(hash@, key@),
            None => !has_shard(hash@),
        },
{
    match shard(hash) {
        Some(s) => Some(BlobLocation { shard: s, key: String::from_str(key) }),
        None => None,
    }
}

/// The key of the record of object `key` in `bucket`.
pub fn object_key(bucket: &str, key: &str) -> (r: String)
    ensures
        r@ == object_key_of(bucket@, key@),
{
    join3(bucket, "/", key)
}

impl BlobLocation {
    /// The path of the blob below the data root.
    pub fn relative_path(&self) -> (r: String)
        ensures
            r@ == relative_path_of(self@),
    {
        String::from_str("data/").concat(self.shard.as_str()).concat("/").concat(
            self.key.as_str(),
        )
    }
}

/// Whether a bucket name is free of the `/` that joins bucket and key.
pub open spec fn plain(bucket: Seq<char>) -> bool {
    forall|i: int| 0 <= i < bucket.len() ==> bucket[i] != '/'
}

/// The record key of an object is never the name of its own bucket, nor any
/// plain name.
pub proof fn lemma_object_key_differs(bucket: Seq<char>, key: Seq<char>)
    ensures
        object_key_of(bucket, key) != bucket,
        !plain(object_key_of(bucket, key)),
{
    reveal_strlit("/");
    assert(object_key_of(bucket, key).len() == bucket.len() + 1 + key.len());
    assert(object_key_of(bucket, key)[bucket.len() as int] == '/');
}

} // verus!
