//! Derivation of a kitty's DNA: the 128-bit Blake2 hash of the encoded
//! inputs of its birth.

use vstd::bytes::spec_u32_to_le_bytes;
use vstd::prelude::*;

verus! {

/// An account, by the 32 bytes that identify it.
pub type AccountId = [u8; 32];

/// The 128-bit Blake2b hash of `data`, as `sp_io::hashing::blake2_128`
/// computes it. The digest is a function of the hashed bytes alone.
pub uninterp spec fn spec_blake2_128(data: Seq<u8>) -> Seq<u8>;

/// The encoding of an optional index: the byte 0 when there is none, else
/// the byte 1 and the index in little-endian order.
pub open spec fn spec_encode_index(index: Option<u32>) -> Seq<u8> {
    match index {
        Some(i) => seq![1u8] + spec_u32_to_le_bytes(i),
        None => seq![0u8],
    }
}

/// The bytes that are hashed for a kitty created from fresh entropy: the
/// seed, the creator and the optional index of the call, each encoded and
/// laid end to end.
pub open spec fn spec_birth_payload(
    seed: Seq<u8>,
    sender: Seq<u8>,
    extrinsic_index: Option<u32>,
) -> Seq<u8> {
    seed + sender + spec_encode_index(extrinsic_index)
}

/// The bytes that are hashed for a bred kitty: the DNA of both parents and
/// the child's identifier in little-endian order.
pub open spec fn spec_baby_payload(dna_a: Seq<u8>, dna_b: Seq<u8>, kitty_id: u32) -> Seq<u8> {
    dna_a + dna_b + spec_u32_to_le_bytes(kitty_id)
}

/// The DNA of a kitty created from fresh entropy.
pub open spec fn spec_random_dna(
    seed: Seq<u8>,
    sender: Seq<u8>,
    extrinsic_index: Option<u32>,
) -> Seq<u8> {
    spec_blake2_128(spec_birth_payload(seed, sender, extrinsic_index))
}

/// The DNA of the kitty `kitty_id` bred from parents with DNA `dna_a` and
/// `dna_b`.
pub open spec fn spec_baby_dna(dna_a: Seq<u8>, dna_b: Seq<u8>, kitty_id: u32) -> Seq<u8> {
    spec_blake2_128(spec_baby_payload(dna_a, dna_b, kitty_id))
}

/// Calls `sp_io::hashing::blake2_128`. Trusted: the result is the Blake2b
/// digest of exactly the bytes given, and nothing else enters it.
#[verifier::external_body]
fn blake2_128(data: &[u8]) -> (digest: [u8; 16])
    ensures
        digest@ == spec_blake2_128(data@),
{
    sp_io::hashing::blake2_128(data)
}

/// Calls `parity_scale_codec::Encode::encode` on the tuple of the seed, the
/// creator and the call's index. Trusted: a tuple encodes as its members'
/// encodings end to end, a byte array as its bytes, a reference as what it
/// points to, and an `Option<u32>` as one tag byte followed, when present,
/// by the four little-endian bytes of the value.
#[verifier::external_body]
fn encode_birth_payload(
    seed: &[u8; 32],
    sender: &AccountId,
    extrinsic_index: Option<u32>,
) -> (payload: Vec<u8>)
    ensures
        payload@ == spec_birth_payload(seed@, sender@, extrinsic_index),
{
    parity_scale_codec::Encode::encode(&(seed, sender, extrinsic_index))
}

/// Calls `parity_scale_codec::Encode::encode` on the tuple of both parents'
/// DNA and the child's identifier. Trusted: a tuple encodes as its members'
/// encodings end to end, a byte array as its bytes, and a `u32` as its four
/// little-endian bytes.
#[verifier::external_body]
fn encode_baby_payload(dna_a: &[u8; 16], dna_b: &[u8; 16], kitty_id: u32) -> (payload: Vec<u8>)
    ensures
        payload@ == spec_baby_payload(dna_a@, dna_b@, kitty_id),
{
    parity_scale_codec::Encode::encode(&(*dna_a, *dna_b, kitty_id))
}

/// Derives the DNA of a kitty created from fresh entropy: the hash of the
/// encoded seed, creator and call index.
pub fn random_dna(seed: &[u8; 32], sender: &AccountId, extrinsic_index: Option<u32>) -> (dna: [
    u8;
    16
])
    ensures
        dna@ == spec_random_dna(seed@, sender@, extrinsic_index),
{
    let payload = encode_birth_payload(seed, sender, extrinsic_index);
    blake2_128(payload.as_slice())
}

/// Derives the DNA of a bred kitty: the hash of both parents' DNA and the
/// child's identifier, so that two children of the same parents differ.
pub fn baby_dna(dna_a: &[u8; 16], dna_b: &[u8; 16], kitty_id: u32) -> (dna: [u8; 16])
    ensures
        dna@ == spec_baby_dna(dna_a@, dna_b@, kitty_id),
{
    let payload = encode_baby_payload(dna_a, dna_b, kitty_id);
    blake2_128(payload.as_slice())
}

} // verus!
