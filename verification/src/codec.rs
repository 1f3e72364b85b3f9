//! Hashing and base64 transport of the public digest.
//!
//! The prover reports the SHA-256 of the normalized preimage, base64-encoded;
//! the verifier decodes that string and hashes it once more, so both sides
//! arrive at the same double digest.

use vstd::prelude::*;
use sha2::{Digest, Sha256};
use crate::hash::{normalized, normalize_preimage};

verus! {

/// The SHA-256 digest of a byte sequence.
pub uninterp spec fn sha256_of(bytes: Seq<u8>) -> Seq<u8>;

/// The base64 encoding of a byte sequence, in the standard alphabet with
/// padding.
pub uninterp spec fn base64_of(bytes: Seq<u8>) -> Seq<char>;

/// The base64 decoding of a string, in the standard alphabet: the decoded
/// bytes, or nothing when the string is not valid base64.
pub uninterp spec fn base64_decode_of(s: Seq<char>) -> Option<Seq<u8>>;

/// Relies on sha2's Sha256: the digest is 32 bytes and depends on the input
/// bytes alone.
#[verifier::external_body]
pub fn sha256_digest(data: &Vec<u8>) -> (r: Vec<u8>)
    ensures
        r@ == sha256_of(data@),
        r@.len() == 32,
{
    Sha256::digest(data.as_slice()).to_vec()
}

/// Relies on base64::encode: the standard-alphabet, padded encoding, a
/// function of the input bytes alone; decoding the encoding gives the input
/// back.
#[verifier::external_body]
pub fn base64_encode(data: &Vec<u8>) -> (r: String)
    ensures
        r@ == base64_of(data@),
        base64_decode_of(r@) == Some(data@),
{
    base64::encode(data.as_slice())
}

/// Relies on base64::decode: standard-alphabet decoding, a function of the
/// input alone; it returns bytes exactly when the input is valid base64.
#[verifier::external_body]
pub fn base64_decode(s: &str) -> (r: Option<Vec<u8>>)
    ensures
        r is Some <==> base64_decode_of(s@) is Some,
        r matches Some(v) ==> base64_decode_of(s@) == Some(v@),
{
    match base64::decode(s) {
        Ok(v) => Some(v),
        Err(_) => None,
    }
}

/// The digest a prover publishes for a preimage: the SHA-256 of its
/// normalized form, base64-encoded. Truncation to 80 bytes and zero-filling
/// up to 80 bytes are both reflected here, and the published string decodes
/// back to that single hash — what the verifier starts from.
pub fn preimage_digest(input: &Vec<u8>) -> (r: String)
    ensures
        r@ == base64_of(sha256_of(normalized(input@))),
        base64_decode_of(r@) == Some(sha256_of(normalized(input@))),
{
    let p = normalize_preimage(input);
    let d = sha256_digest(&p);
    base64_encode(&d)
}

} // verus!
