//! SHA-256 commitments: hashing a secret and comparing it with a stored
//! lowercase-hex hashlock.

use vstd::prelude::*;
use vstd::utf8::encode_utf8;

verus! {

/// The SHA-256 digest of a byte string.
pub uninterp spec fn sha256_digest(data: Seq<u8>) -> Seq<u8>;

/// The lowercase hexadecimal digit for a value below sixteen.
pub open spec fn hex_digit(nibble: int) -> char {
    seq!['0', '1', '2', '3', '4', '5', '6', '7', '8', '9', 'a', 'b', 'c', 'd', 'e', 'f'][nibble]
}

/// Lowercase hexadecimal text of a byte string: two digits per byte, the
/// high half first.
pub open spec fn hex_text(bytes: Seq<u8>) -> Seq<char> {
    Seq::new(
        2 * bytes.len(),
        |i: int|
            if i % 2 == 0 {
                hex_digit(bytes[i / 2] as int / 16)
            } else {
                hex_digit(bytes[i / 2] as int % 16)
            },
    )
}

/// The commitment that a secret opens: the hex text of the digest of its
/// UTF-8 bytes.
pub open spec fn commitment_of(secret: Seq<char>) -> Seq<char> {
    hex_text(sha256_digest(encode_utf8(secret)))
}

/// Calls `near_sdk::env::sha256`, which off-chain computes the digest with
/// the SHA-256 implementation it links. Trusted: the result is the SHA-256
/// digest of `data`, and it is 32 bytes long.
#[verifier::external_body]
pub(crate) fn sha256(data: &[u8]) -> (digest: Vec<u8>)
    ensures
        digest@ == sha256_digest(data@),
        digest@.len() == 32,
{
    near_sdk::env::sha256(data)
}

/// Calls `hex::encode`. Trusted: the result holds two lowercase hexadecimal
/// digits for each byte of `bytes`, in order, the high half of a byte first.
#[verifier::external_body]
pub(crate) fn hex_encode(bytes: &[u8]) -> (text: String)
    ensures
        text@ == hex_text(bytes@),
{
    hex::encode(bytes)
}

/// Whether `digest`, written as lowercase hex, is exactly `hashlock`.
pub fn digest_matches(digest: &[u8], hashlock: &String) -> (matches: bool)
    ensures
        matches == (hex_text(digest@) == hashlock@),
{
    let text = hex_encode(digest);
    text == *hashlock
}

/// The hashlock that commits to `secret`.
pub fn commitment(secret: &String) -> (hashlock: String)
    ensures
        hashlock@ == commitment_of(secret@),
        hashlock@.len() == 64,
{
    let digest = sha256(secret.as_str().as_bytes());
    hex_encode(digest.as_slice())
}

/// Whether `secret` opens `hashlock`.
pub fn verify_secret(secret: &String, hashlock: &String) -> (opens: bool)
    ensures
        opens == (commitment_of(secret@) == hashlock@),
{
    let digest = sha256(secret.as_str().as_bytes());
    digest_matches(digest.as_slice(), hashlock)
}

} // verus!
