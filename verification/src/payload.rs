//! The signing payload.
//!
//! What gets signed is the concatenation of the call bytes, the extension
//! body bytes, and the additional signed data — except that a payload
//! longer than 256 bytes is first reduced to its 32-byte hash, as
//! compatible nodes do before checking the signature.

use vstd::prelude::*;
use crate::scale::append_bytes;

verus! {

/// The 32-byte digest of the `blake2b` hash, 256-bit form, of a byte
/// string: a pure function of the input.
pub uninterp spec fn blake2b256_of(data: Seq<u8>) -> Seq<u8>;

/// Relies on `blake2::Blake2b` with 32-byte output: a digest that depends
/// on the input bytes alone.
#[verifier::external_body]
fn blake2b_256(data: &Vec<u8>) -> (r: Vec<u8>)
    ensures
        r@ == blake2b256_of(data@),
        r@.len() == 32,
{
    let mut h: blake2::Blake2b<blake2::digest::consts::U32> = blake2::digest::Digest::new();
    blake2::digest::Digest::update(&mut h, data.as_slice());
    blake2::digest::Digest::finalize(h).to_vec()
}

/// The bytes that are signed for a transaction: call, extension body and
/// additional data concatenated; hashed down to 32 bytes when longer than
/// 256.
pub open spec fn spec_signing_payload(call: Seq<u8>, extra: Seq<u8>, additional: Seq<u8>) -> Seq<
    u8,
> {
    let full = call + extra + additional;
    if full.len() > 256 {
        blake2b256_of(full)
    } else {
        full
    }
}

/// Builds the signing payload: pure concatenation, with the oversize
/// hashing fallback.
pub fn build_payload(call: &Vec<u8>, extra: &Vec<u8>, additional: &Vec<u8>) -> (r: Vec<u8>)
    requires
        call@.len() + extra@.len() + additional@.len() < usize::MAX,
    ensures
        r@ == spec_signing_payload(call@, extra@, additional@),
{
    let mut full: Vec<u8> = Vec::new();
    append_bytes(&mut full, call);
    append_bytes(&mut full, extra);
    append_bytes(&mut full, additional);
    if full.len() > 256 {
        blake2b_256(&full)
    } else {
        full
    }
}

/// Building a signing payload is pure and deterministic: equal call,
/// extension and additional bytes yield equal payload bytes.
pub proof fn lemma_payload_deterministic(
    c1: Seq<u8>,
    e1: Seq<u8>,
    a1: Seq<u8>,
    c2: Seq<u8>,
    e2: Seq<u8>,
    a2: Seq<u8>,
)
    requires
        c1 == c2,
        e1 == e2,
        a1 == a2,
    ensures
        spec_signing_payload(c1, e1, a1) == spec_signing_payload(c2, e2, a2),
{
}

} // verus!
