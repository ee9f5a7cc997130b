//! Signing.
//!
//! Transactions are signed with the chain's Schnorr-style scheme over a
//! fixed signing context. The scheme is randomized: two signatures over
//! the same payload may differ, but every signature this module produces
//! verifies under the keypair's public key. Keys are handled as 32-byte
//! seeds; the crate never stores expanded secrets.

use vstd::prelude::*;

verus! {

/// The public key derived from a 32-byte seed: a function of the seed
/// alone.
pub uninterp spec fn schnorr_public_of(seed: Seq<u8>) -> Seq<u8>;

/// Whether a signature verifies under a public key for a context and
/// message: a function of its four inputs alone.
pub uninterp spec fn schnorr_verifies(
    public: Seq<u8>,
    ctx: Seq<u8>,
    msg: Seq<u8>,
    sig: Seq<u8>,
) -> bool;

/// The signing context under which this library signs and verifies: the
/// ASCII bytes of `substrate`.
pub open spec fn spec_signing_context() -> Seq<u8> {
    seq![115u8, 117u8, 98u8, 115u8, 116u8, 114u8, 97u8, 116u8, 101u8]
}

/// Exec mirror of [`spec_signing_context`].
fn signing_context() -> (r: Vec<u8>)
    ensures
        r@ == spec_signing_context(),
{
    let mut r: Vec<u8> = Vec::new();
    r.push(115);
    r.push(117);
    r.push(98);
    r.push(115);
    r.push(116);
    r.push(114);
    r.push(97);
    r.push(116);
    r.push(101);
    proof {
        assert(r@ =~= spec_signing_context());
    }
    r
}

/// Relies on `schnorrkel::MiniSecretKey::from_bytes` and
/// `expand_to_keypair` (Ed25519 expansion): the 32-byte public key is a
/// function of the 32-byte seed alone.
#[verifier::external_body]
fn sr25519_public(seed: &Vec<u8>) -> (r: Vec<u8>)
    requires
        seed@.len() == 32,
    ensures
        r@ == schnorr_public_of(seed@),
        r@.len() == 32,
{
    let kp = schnorrkel::MiniSecretKey::from_bytes(seed.as_slice())
        .unwrap()
        .expand_to_keypair(schnorrkel::ExpansionMode::Ed25519);
    kp.public.to_bytes().to_vec()
}

/// Relies on `schnorrkel::Keypair::sign_simple`: a randomized 64-byte
/// signature; whatever randomness is drawn, the signature verifies under
/// the keypair's public key for the same context and message.
#[verifier::external_body]
fn sr25519_sign(seed: &Vec<u8>, ctx: &Vec<u8>, msg: &Vec<u8>) -> (r: Vec<u8>)
    requires
        seed@.len() == 32,
    ensures
        r@.len() == 64,
        schnorr_verifies(schnorr_public_of(seed@), ctx@, msg@, r@),
{
    let kp = schnorrkel::MiniSecretKey::from_bytes(seed.as_slice())
        .unwrap()
        .expand_to_keypair(schnorrkel::ExpansionMode::Ed25519);
    kp.sign_simple(ctx.as_slice(), msg.as_slice()).to_bytes().to_vec()
}

/// Relies on `schnorrkel::PublicKey::verify_simple` (with the byte
/// decoders of key and signature): deterministic in its inputs; malformed
/// keys or signatures simply fail to verify.
#[verifier::external_body]
fn sr25519_verify(public: &Vec<u8>, ctx: &Vec<u8>, msg: &Vec<u8>, sig: &Vec<u8>) -> (r: bool)
    ensures
        r == schnorr_verifies(public@, ctx@, msg@, sig@),
{
    match (
        schnorrkel::PublicKey::from_bytes(public.as_slice()),
        schnorrkel::Signature::from_bytes(sig.as_slice()),
    ) {
        (Ok(p), Ok(s)) => p.verify_simple(ctx.as_slice(), msg.as_slice(), &s).is_ok(),
        _ => false,
    }
}

/// The public key belonging to a signing seed.
pub fn public_from_seed(seed: &Vec<u8>) -> (r: Vec<u8>)
    requires
        seed@.len() == 32,
    ensures
        r@ == schnorr_public_of(seed@),
        r@.len() == 32,
{
    sr25519_public(seed)
}

/// Signs a payload under the library's signing context.
///
/// Signing never fails for a well-formed seed; the signature is 64 bytes
/// and verifies under the seed's public key.
pub fn sign_payload(seed: &Vec<u8>, msg: &Vec<u8>) -> (r: Vec<u8>)
    requires
        seed@.len() == 32,
    ensures
        r@.len() == 64,
        schnorr_verifies(schnorr_public_of(seed@), spec_signing_context(), msg@, r@),
{
    let ctx = signing_context();
    sr25519_sign(seed, &ctx, msg)
}

/// Checks a signature over a payload under the library's signing context.
pub fn verify_payload(public: &Vec<u8>, msg: &Vec<u8>, sig: &Vec<u8>) -> (r: bool)
    ensures
        r == schnorr_verifies(public@, spec_signing_context(), msg@, sig@),
{
    let ctx = signing_context();
    sr25519_verify(public, &ctx, msg, sig)
}

} // verus!
