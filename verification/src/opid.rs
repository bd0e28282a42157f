//! Idempotent operation-identifier derivation: one pay attempt maps to one
//! deterministic 32-byte identifier, the digest of the payment hash and the
//! attempt index. Retrying the same attempt therefore addresses the same
//! operation instead of creating a second one.

use vstd::prelude::*;
use vstd::bytes::{lemma_auto_spec_u16_to_from_le_bytes, spec_u16_from_le_bytes, spec_u16_to_le_bytes, u16_to_le_bytes};
use crate::types::{OperationId, PaymentHash};

verus! {

/// What the SHA-256 digest of a byte string is. The digest is a function of
/// the input alone, so naming it is sound; its value is not stated here.
pub uninterp spec fn sha256_of(data: Seq<u8>) -> Seq<u8>;

/// Relies on bitcoin_hashes::sha256::Hash::hash, then to_byte_array: the
/// SHA-256 digest of the input, always 32 bytes.
#[verifier::external_body]
fn sha256_digest(data: &Vec<u8>) -> (r: Vec<u8>)
    ensures
        r@ == sha256_of(data@),
        r@.len() == 32,
{
    bitcoin_hashes::sha256::Hash::hash(data.as_slice()).to_byte_array().to_vec()
}

/// The bytes fed to the digest for one pay attempt: the 32-byte payment
/// hash followed by the attempt index as two little-endian bytes.
pub open spec fn attempt_bytes(hash: Seq<u8>, attempt: u16) -> Seq<u8> {
    hash + spec_u16_to_le_bytes(attempt)
}

/// The identifier of one pay attempt on one payment hash.
pub open spec fn pay_operation_id_of(hash: Seq<u8>, attempt: u16) -> Seq<u8> {
    sha256_of(attempt_bytes(hash, attempt))
}

/// Derives the deterministic identifier of one pay attempt: the digest of
/// the payment hash concatenated with the little-endian attempt index.
pub fn derive_pay_operation_id(hash: &PaymentHash, attempt: u16) -> (r: OperationId)
    requires
        hash.wf(),
    ensures
        r.wf(),
        r@ == pay_operation_id_of(hash@, attempt),
{
    let mut data: Vec<u8> = Vec::new();
    let mut i: usize = 0;
    while i < hash.bytes.len()
        invariant
            i <= hash@.len(),
            data@ == hash@.take(i as int),
        decreases hash@.len() - i,
    {
        data.push(hash.bytes[i]);
        proof {
            assert(data@ =~= hash@.take(i + 1));
        }
        i = i + 1;
    }
    proof {
        assert(data@ =~= hash@);
    }
    let mut tail = u16_to_le_bytes(attempt);
    data.append(&mut tail);
    let digest = sha256_digest(&data);
    OperationId { bytes: digest }
}

/// Law: the identifier derivation is pure. Any two derivations from the
/// same payment hash and the same attempt index yield the same identifier.
pub proof fn lemma_pay_operation_id_deterministic(
    hash: Seq<u8>,
    attempt: u16,
    r1: Seq<u8>,
    r2: Seq<u8>,
)
    requires
        r1 == pay_operation_id_of(hash, attempt),
        r2 == pay_operation_id_of(hash, attempt),
    ensures
        r1 == r2,
{
}

/// Law: distinct attempts feed distinct inputs to the digest. If either the
/// payment hash or the attempt index differs, so do the hashed bytes; that
/// the identifiers themselves then differ rests on the digest's collision
/// resistance, which is assumed of the hash function and not stated here.
pub proof fn lemma_attempt_bytes_injective(h1: Seq<u8>, a1: u16, h2: Seq<u8>, a2: u16)
    requires
        h1.len() == 32,
        h2.len() == 32,
        attempt_bytes(h1, a1) == attempt_bytes(h2, a2),
    ensures
        h1 == h2,
        a1 == a2,
{
    lemma_auto_spec_u16_to_from_le_bytes();
    assert(h1 =~= attempt_bytes(h1, a1).take(32));
    assert(h2 =~= attempt_bytes(h2, a2).take(32));
    assert(spec_u16_to_le_bytes(a1) =~= attempt_bytes(h1, a1).skip(32));
    assert(spec_u16_to_le_bytes(a2) =~= attempt_bytes(h2, a2).skip(32));
    assert(spec_u16_from_le_bytes(spec_u16_to_le_bytes(a1)) == a1);
    assert(spec_u16_from_le_bytes(spec_u16_to_le_bytes(a2)) == a2);
}

} // verus!
