//! The verifier's side of the proof scheme.
//!
//! Proofs and keys are opaque scheme values, carried as deserialized blobs;
//! what this module verifies is the reconstruction of the public-input
//! vector that prover and verifier must compute identically — a single field
//! element for the cube relation, the packed double digest for the hash
//! relation — before handing it to the scheme's verification routine.

use vstd::prelude::*;
use pairing::bls12_381::{Bls12, Fr};
use bellman::groth16;
use crate::bits::{bits_le_of_bytes, bytes_to_bits_le, le_bits_value};
use crate::codec::{sha256_of, base64_decode_of, sha256_digest, base64_decode};
use crate::field::{fr_value, get_constant};

verus! {

/// A proof produced by the scheme, deserialized from its persisted form.
/// Opaque: only the scheme reads it.
#[verifier::external_body]
pub struct SchemeProof {
    inner: groth16::Proof<Bls12>,
}

/// A verifying key produced by trusted setup, deserialized from its
/// persisted form. Opaque: only the scheme reads it.
#[verifier::external_body]
pub struct SchemeVerifyingKey {
    inner: groth16::VerifyingKey<Bls12>,
}

/// A verifying key in the scheme's prepared form, ready for verification.
#[verifier::external_body]
pub struct SchemePreparedKey {
    inner: groth16::PreparedVerifyingKey<Bls12>,
}

/// Why verification could not be attempted. A proof that is merely invalid
/// is not an error: verification then returns false.
#[derive(Clone, Copy, PartialEq, Eq, Structural, Debug)]
pub enum VerifyError {
    /// The public statement string is not valid base64.
    InvalidDigestEncoding,
    /// The proof scheme rejected the shape of its inputs.
    ProofSystem,
}

/// Relies on groth16::Proof::read: deserializes a persisted proof, checking
/// that its group elements are valid; a corrupt blob is refused.
#[verifier::external_body]
pub fn proof_from_bytes(bytes: &Vec<u8>) -> (r: Option<SchemeProof>) {
    match groth16::Proof::read(bytes.as_slice()) {
        Ok(inner) => Some(SchemeProof { inner }),
        Err(_) => None,
    }
}

/// Relies on groth16::VerifyingKey::read: deserializes a persisted verifying
/// key; a corrupt blob is refused.
#[verifier::external_body]
pub fn verifying_key_from_bytes(bytes: &Vec<u8>) -> (r: Option<SchemeVerifyingKey>) {
    match groth16::VerifyingKey::read(bytes.as_slice()) {
        Ok(inner) => Some(SchemeVerifyingKey { inner }),
        Err(_) => None,
    }
}

/// The prepared form of a verifying key: preparation is a deterministic
/// projection, a function of the key alone.
pub uninterp spec fn prepared_of(vk: SchemeVerifyingKey) -> SchemePreparedKey;

/// The number of group elements in a prepared key's input-commitment vector.
/// Verification demands exactly one fewer public inputs than this.
pub uninterp spec fn scheme_input_count(pvk: SchemePreparedKey) -> nat;

/// The scheme's verdict on a proof: whether the pairing equation holds for
/// the prepared key, the proof, and the given public-input values. A
/// deterministic function of the three — verification draws no randomness.
pub uninterp spec fn scheme_accepts(
    pvk: SchemePreparedKey,
    proof: SchemeProof,
    inputs: Seq<nat>,
) -> bool;

/// Relies on groth16::prepare_verifying_key: a deterministic projection of
/// the verifying key into the form verification consumes.
#[verifier::external_body]
pub fn prepare_key(vk: &SchemeVerifyingKey) -> (r: SchemePreparedKey)
    ensures
        r == prepared_of(*vk),
{
    SchemePreparedKey { inner: groth16::prepare_verifying_key(&vk.inner) }
}

/// The number of field elements needed to pack the given number of bits, 254
/// to an element.
pub open spec fn packed_count(nbits: nat) -> nat {
    (nbits + 253) / 254
}

/// The bits packed into field element `j`: the `j`-th group of 254,
/// little-endian.
pub open spec fn packed_chunk(bits: Seq<bool>, j: int) -> Seq<bool> {
    bits.subrange(
        254 * j,
        if 254 * (j + 1) <= bits.len() {
            254 * (j + 1)
        } else {
            bits.len() as int
        },
    )
}

/// Relies on bellman's multipack::compute_multipacking: packs the bits into
/// field elements, 254 bits to an element, least significant first; each
/// element's value is the value of its bits, which lies below the field
/// order.
#[verifier::external_body]
fn multipack_bits(bits: &Vec<bool>) -> (r: Vec<Fr>)
    ensures
        r@.len() == packed_count(bits@.len()),
        forall|j: int| 0 <= j < r@.len() ==> fr_value(r@[j]) == le_bits_value(packed_chunk(bits@, j)),
        forall|j: int| 0 <= j < r@.len() ==> fr_value(r@[j]) < crate::field::fr_modulus(),
{
    bellman::gadgets::multipack::compute_multipacking::<Bls12>(bits.as_slice())
}

/// Relies on groth16::verify_proof: it errors exactly when the input vector
/// does not fit the key's input-commitment vector, and otherwise returns the
/// scheme's verdict, a deterministic function of the prepared key, the proof
/// and the input values. It does not panic on keys and proofs the scheme
/// itself deserialized.
#[verifier::external_body]
fn groth16_verify(pvk: &SchemePreparedKey, proof: &SchemeProof, inputs: &Vec<Fr>) -> (r: Result<
    bool,
    VerifyError,
>)
    ensures
        r is Err <==> inputs@.len() + 1 != scheme_input_count(*pvk),
        r matches Err(e) ==> e == VerifyError::ProofSystem,
        r matches Ok(b) ==> b == scheme_accepts(
            *pvk,
            *proof,
            inputs@.map_values(|x: Fr| fr_value(x)),
        ),
{
    match groth16::verify_proof(&pvk.inner, &proof.inner, inputs.as_slice()) {
        Ok(b) => Ok(b),
        Err(_) => Err(VerifyError::ProofSystem),
    }
}

/// Reconstructs the hash relation's public inputs from the published digest
/// string: the decoded bytes are hashed once more and the resulting double
/// digest's bits are packed into field elements. Fails exactly when the
/// string is not valid base64.
pub fn hash_public_inputs(digest_b64: &str) -> (r: Result<Vec<Fr>, VerifyError>)
    ensures
        r is Err <==> base64_decode_of(digest_b64@) is None,
        r matches Err(e) ==> e == VerifyError::InvalidDigestEncoding,
        r matches Ok(v) ==> (base64_decode_of(digest_b64@) matches Some(d) && {
            let bits = bits_le_of_bytes(sha256_of(d));
            &&& v@.len() == packed_count(bits.len())
            &&& forall|j: int| 0 <= j < v@.len() ==> fr_value(v@[j]) == le_bits_value(
                packed_chunk(bits, j),
            )
        }),
{
    match base64_decode(digest_b64) {
        None => Err(VerifyError::InvalidDigestEncoding),
        Some(decoded) => {
            let digest = sha256_digest(&decoded);
            let bits = bytes_to_bits_le(&digest);
            Ok(multipack_bits(&bits))
        },
    }
}

/// The public-input values of the hash relation for a given double digest's
/// bits: the value of each packed group of 254.
pub open spec fn packed_values(bits: Seq<bool>) -> Seq<nat> {
    Seq::new(packed_count(bits.len()), |j: int| le_bits_value(packed_chunk(bits, j)))
}

/// Verifies a hash-relation proof against a published digest string. The
/// statement string carries the base64 of the preimage's single SHA-256;
/// verification hashes the decoded bytes once more, so both sides agree on
/// the double digest. A decode error arises exactly when the string is not
/// valid base64; on a decodable statement the result is the scheme's verdict
/// on the packed double digest — a boolean, never an error, whenever the
/// packed inputs fit the key. A cryptographically invalid proof is thus
/// `Ok(false)`, not an error.
pub fn verify_hash_proof(digest_b64: &str, proof: &SchemeProof, vk: &SchemeVerifyingKey) -> (r:
    Result<bool, VerifyError>)
    ensures
        r == Err::<bool, VerifyError>(VerifyError::InvalidDigestEncoding) <==> base64_decode_of(
            digest_b64@,
        ) is None,
        base64_decode_of(digest_b64@) matches Some(d) ==> {
            let bits = bits_le_of_bytes(sha256_of(d));
            &&& (r is Err <==> packed_count(bits.len()) + 1 != scheme_input_count(
                prepared_of(*vk),
            ))
            &&& (r matches Ok(b) ==> b == scheme_accepts(
                prepared_of(*vk),
                *proof,
                packed_values(bits),
            ))
        },
{
    let inputs = match hash_public_inputs(digest_b64) {
        Err(e) => {
            return Err(e);
        },
        Ok(v) => v,
    };
    let pvk = prepare_key(vk);
    let r = groth16_verify(&pvk, proof, &inputs);
    proof {
        let d = base64_decode_of(digest_b64@)->Some_0;
        let bits = bits_le_of_bytes(sha256_of(d));
        assert(inputs@.map_values(|x: Fr| fr_value(x)) =~= packed_values(bits));
    }
    r
}

/// Verifies a cube-relation proof against the public value `y`: the single
/// public input is the field element of value `y`, and the result is the
/// scheme's verdict on it — a boolean, never an error, whenever one public
/// input fits the key. A cryptographically invalid proof is thus
/// `Ok(false)`, not an error.
pub fn verify_cube_proof(y: u64, proof: &SchemeProof, vk: &SchemeVerifyingKey) -> (r: Result<
    bool,
    VerifyError,
>)
    ensures
        r is Err <==> scheme_input_count(prepared_of(*vk)) != 2,
        r matches Err(e) ==> e == VerifyError::ProofSystem,
        r matches Ok(b) ==> b == scheme_accepts(prepared_of(*vk), *proof, seq![y as nat]),
{
    let mut inputs: Vec<Fr> = Vec::new();
    inputs.push(get_constant(y));
    let pvk = prepare_key(vk);
    let r = groth16_verify(&pvk, proof, &inputs);
    proof {
        assert(inputs@.map_values(|x: Fr| fr_value(x)) =~= seq![y as nat]);
    }
    r
}

} // verus!
