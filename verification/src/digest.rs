//! Content hashes: the SHA-256 digest of a payload, written as lower-case
//! hexadecimal text.

use crate::text::{is_hex_digit, lower, lower_text};
use vstd::prelude::*;
use vstd::string::*;

verus! {

/// The SHA-256 digest of `data`, as computed by the `sha2` crate.
pub uninterp spec fn sha256(data: Seq<u8>) -> Seq<u8>;

/// The lower-case hexadecimal digit for `n`, `0 <= n < 16`.
pub open spec fn hex_char(n: int) -> char {
    if n < 10 {
        ((48 + n) as u8) as char
    } else {
        ((87 + n) as u8) as char
    }
}

/// Two lower-case hexadecimal digits per byte, high nibble first.
pub open spec fn hex_text(data: Seq<u8>) -> Seq<char> {
    Seq::new(
        2 * data.len(),
        |i: int|
            if i % 2 == 0 {
                hex_char(data[i / 2] as int / 16)
            } else {
                hex_char(data[i / 2] as int % 16)
            },
    )
}

/// The SHA-256 digest of `data` as 32 bytes. It is `sha256(data)`, which the
/// `sha2` crate always makes 32 bytes long; the other branch only gives the
/// digest its length where no call has been made.
pub open spec fn digest_of(data: Seq<u8>) -> Seq<u8> {
    if sha256(data).len() == 32 {
        sha256(data)
    } else {
        Seq::new(32, |i: int| 0u8)
    }
}

/// The content hash of a payload: the hexadecimal text of its SHA-256 digest.
pub open spec fn content_hash_of(body: Seq<u8>) -> Seq<char> {
    hex_text(digest_of(body))
}

/// Calls `sha2::Sha256::digest` and copies the digest out. Trusted: the
/// result is the crate's SHA-256 of the input, and is 32 bytes long, as the
/// crate fixes the output size of `Sha256`.
#[verifier::external_body]
fn sha256_digest(data: &[u8]) -> (r: Vec<u8>)
    ensures
        r@ == sha256(data@),
        r@.len() == 32,
{
    <sha2::Sha256 as sha2::Digest>::digest(data).to_vec()
}

/// Calls `hex::encode`. Trusted: the crate maps every byte to two characters
/// of `0123456789abcdef`, the high nibble first.
#[verifier::external_body]
fn hex_encode(data: &[u8]) -> (r: String)
    ensures
        r@ == hex_text(data@),
{
    hex::encode(data)
}

/// Every hexadecimal text is made of lower-case hexadecimal digits, two per
/// byte.
pub proof fn lemma_hex_text(data: Seq<u8>)
    ensures
        hex_text(data).len() == 2 * data.len(),
        forall|i: int|
            0 <= i < hex_text(data).len() ==> is_hex_digit(
                #[trigger] hex_text(data)[i],
            ) && lower(hex_text(data)[i]) == hex_text(data)[i],
        lower_text(hex_text(data)) == hex_text(data),
{
    assert forall|i: int| 0 <= i < hex_text(data).len() implies is_hex_digit(
        #[trigger] hex_text(data)[i],
    ) && lower(hex_text(data)[i]) == hex_text(data)[i] by {
        let b = data[i / 2] as int;
        assert(0 <= b / 16 < 16);
        assert(0 <= b % 16 < 16);
    }
    assert(lower_text(hex_text(data)) =~= hex_text(data));
}

/// A content hash is 64 lower-case hexadecimal digits.
pub proof fn lemma_content_hash(body: Seq<u8>)
    ensures
        content_hash_of(body).len() == 64,
        forall|i: int|
            0 <= i < 64 ==> is_hex_digit(#[trigger] content_hash_of(body)[i]),
        lower_text(content_hash_of(body)) == content_hash_of(body),
{
    lemma_hex_text(digest_of(body));
}

/// The content hash of `body`.
pub fn content_hash(body: &[u8]) -> (r: String)
    ensures
        r@ == content_hash_of(body@),
        r@.len() == 64,
{
    let digest = sha256_digest(body);
    let text = hex_encode(digest.as_slice());
    proof {
        lemma_content_hash(body@);
    }
    text
}

} // verus!
