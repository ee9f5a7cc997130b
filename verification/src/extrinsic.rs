//! The signed transaction envelope.
//!
//! A signed extrinsic holds the call, the sender, the signature over the
//! signing payload, and the extension body. Its wire form is the inner
//! bytes — version tag, sender id, tagged signature, extension body, call
//! — behind a compact length prefix. The chain state needed to build one
//! (genesis hash, best block, runtime versions, block-hash retention) is
//! handed in as plain values read once from the chain client.

use vstd::prelude::*;
use crate::calls::{Call, spec_call_wf, spec_call_bytes, encode_call, lemma_call_bytes_len};
use crate::era::{Era, spec_era_mortal, spec_period_of, mortality_period, era_mortal};
use crate::extensions::{
    SignedExtensions, AdditionalData, spec_extensions_wf, spec_extra_bytes,
    spec_additional_bytes, encode_extra, encode_additional, lemma_extra_bytes_len,
};
use crate::payload::{spec_signing_payload, build_payload};
use crate::signer::{
    schnorr_public_of, schnorr_verifies, spec_signing_context, public_from_seed, sign_payload,
};
use crate::scale::{
    spec_u32_le, spec_compact_u32, scale_compact_u32, append_bytes,
    lemma_compact_u32_prefix_free,
};

verus! {

/// Chain state read once from the client before building transactions:
/// hashes anchoring the signature, runtime version numbers, and the
/// block-hash retention count that fixes the mortality period.
pub struct ChainContext {
    /// Hash of block zero; its existence is a precondition of any usable
    /// chain.
    pub genesis_hash: Vec<u8>,
    /// Hash of the current best block, the mortality anchor.
    pub best_hash: Vec<u8>,
    /// Number of the current best block.
    pub best_number: u64,
    /// Runtime specification version.
    pub spec_version: u32,
    /// Transaction format version.
    pub transaction_version: u32,
    /// How many block hashes the chain retains.
    pub block_hash_count: u64,
    /// 32-byte seed of the benchmark account that signs every transaction.
    pub signer_seed: Vec<u8>,
    /// Dispatch indices of the runtime modules the builders target.
    pub indices: crate::calls::DispatchIndices,
}

/// A well-formed context carries 32-byte hashes and a 32-byte seed.
pub open spec fn spec_ctx_wf(c: ChainContext) -> bool {
    c.genesis_hash@.len() == 32 && c.best_hash@.len() == 32 && c.signer_seed@.len() == 32
}

/// The additional signed data a context yields: versions, genesis hash,
/// best hash.
pub open spec fn spec_additional_of(c: ChainContext) -> Seq<u8> {
    spec_u32_le(c.spec_version) + spec_u32_le(c.transaction_version) + c.genesis_hash@
        + c.best_hash@
}

/// The era a context yields: mortal, with the period drawn from the
/// block-hash retention count and the phase from the best block number.
pub open spec fn spec_era_of(c: ChainContext) -> Era {
    spec_era_mortal(spec_period_of(c.block_hash_count) as u64, c.best_number)
}

/// A signed transaction, immutable once built.
pub struct Extrinsic {
    /// The dispatched call.
    pub call: Call,
    /// 32-byte public key of the sender.
    pub sender: Vec<u8>,
    /// 64-byte signature over the signing payload.
    pub signature: Vec<u8>,
    /// The extension values carried in the body.
    pub extensions: SignedExtensions,
}

/// Well-formedness of a signed extrinsic.
pub open spec fn spec_extrinsic_wf(x: Extrinsic) -> bool {
    spec_call_wf(x.call) && x.sender@.len() == 32 && x.signature@.len() == 64
        && spec_extensions_wf(x.extensions)
}

/// Inner bytes of the envelope: the version tag for a signed transaction
/// of format four, the sender as the 32-byte id address variant, the
/// signature under its Schnorr variant tag, the extension body, and the
/// call.
pub open spec fn spec_extrinsic_inner(x: Extrinsic) -> Seq<u8> {
    seq![0x84u8, 0x00u8] + x.sender@ + seq![0x01u8] + x.signature@ + spec_extra_bytes(
        x.extensions,
    ) + spec_call_bytes(x.call)
}

/// Wire bytes of the envelope: the inner bytes behind a compact length
/// prefix.
pub open spec fn spec_extrinsic_bytes(x: Extrinsic) -> Seq<u8> {
    spec_compact_u32(spec_extrinsic_inner(x).len() as u32) + spec_extrinsic_inner(x)
}

/// Copies a byte vector.
pub fn copy_bytes(src: &Vec<u8>) -> (r: Vec<u8>)
    ensures
        r@ == src@,
{
    let mut r: Vec<u8> = Vec::new();
    append_bytes(&mut r, src);
    proof {
        assert(r@ =~= src@);
    }
    r
}

/// Encodes a signed extrinsic into its wire bytes.
pub fn encode_extrinsic(x: &Extrinsic) -> (r: Vec<u8>)
    requires
        spec_extrinsic_wf(*x),
    ensures
        r@ == spec_extrinsic_bytes(*x),
{
    let mut inner: Vec<u8> = Vec::new();
    inner.push(0x84);
    inner.push(0x00);
    append_bytes(&mut inner, &x.sender);
    inner.push(0x01);
    append_bytes(&mut inner, &x.signature);
    let mut piece = encode_extra(&x.extensions);
    inner.append(&mut piece);
    let mut piece = encode_call(&x.call);
    inner.append(&mut piece);
    proof {
        assert(inner@ =~= spec_extrinsic_inner(*x));
        lemma_call_bytes_len(x.call);
        lemma_extra_bytes_len(x.extensions);
        assert(inner@.len() < 0x40000000);
    }
    let len32: u32 = inner.len() as u32;
    let mut r = scale_compact_u32(len32);
    r.append(&mut inner);
    proof {
        assert(r@ =~= spec_extrinsic_bytes(*x));
    }
    r
}

/// Builds and signs one benchmark transaction from the chain context, a
/// signing seed, the call, and the caller-allocated nonce.
///
/// The extension chain is fixed: a mortal era anchored at the best block
/// with the period drawn from the block-hash retention count, the given
/// nonce, and a zero tip. The signature is over the signing payload of
/// the call, the extension body, and the context's additional data; it
/// always verifies under the seed's public key, which becomes the sender.
pub fn create_benchmark_extrinsic(
    ctx: &ChainContext,
    seed: &Vec<u8>,
    call: Call,
    nonce: u32,
) -> (x: Extrinsic)
    requires
        spec_ctx_wf(*ctx),
        seed@.len() == 32,
        spec_call_wf(call),
    ensures
        spec_extrinsic_wf(x),
        x.call == call,
        x.sender@ == schnorr_public_of(seed@),
        x.extensions.era == spec_era_of(*ctx),
        x.extensions.nonce == nonce,
        x.extensions.tip == 0,
        schnorr_verifies(
            schnorr_public_of(seed@),
            spec_signing_context(),
            spec_signing_payload(
                spec_call_bytes(call),
                spec_extra_bytes(x.extensions),
                spec_additional_of(*ctx),
            ),
            x.signature@,
        ),
{
    let period = mortality_period(ctx.block_hash_count);
    let era = era_mortal(period, ctx.best_number);
    let extensions = SignedExtensions { era, nonce, tip: 0 };
    let call_bytes = encode_call(&call);
    let extra_bytes = encode_extra(&extensions);
    let additional = AdditionalData {
        spec_version: ctx.spec_version,
        transaction_version: ctx.transaction_version,
        genesis_hash: copy_bytes(&ctx.genesis_hash),
        best_hash: copy_bytes(&ctx.best_hash),
    };
    let additional_bytes = encode_additional(&additional);
    proof {
        lemma_call_bytes_len(call);
        lemma_extra_bytes_len(extensions);
        assert(spec_additional_bytes(additional) =~= spec_additional_of(*ctx));
    }
    let payload = build_payload(&call_bytes, &extra_bytes, &additional_bytes);
    let signature = sign_payload(seed, &payload);
    let sender = public_from_seed(seed);
    Extrinsic { call, sender, signature, extensions }
}

/// Equal concatenations with equal-length heads split into equal parts.
proof fn lemma_concat_split(p1: Seq<u8>, s1: Seq<u8>, p2: Seq<u8>, s2: Seq<u8>)
    requires
        p1 + s1 == p2 + s2,
        p1.len() == p2.len(),
    ensures
        p1 == p2,
        s1 == s2,
{
    assert(p1 =~= p2) by {
        assert forall|i: int| 0 <= i < p1.len() implies p1[i] == p2[i] by {
            assert((p1 + s1)[i] == p1[i]);
            assert((p2 + s2)[i] == p2[i]);
            assert((p1 + s1)[i] == (p2 + s2)[i]);
        }
    }
    assert((p1 + s1).len() == p1.len() + s1.len());
    assert((p2 + s2).len() == p2.len() + s2.len());
    assert(s1.len() == s2.len());
    assert(s1 =~= s2) by {
        assert forall|i: int| 0 <= i < s1.len() implies s1[i] == s2[i] by {
            let k = i + p1.len();
            assert(0 <= k < (p1 + s1).len());
            assert((p1 + s1)[k] == s1[k - p1.len()]);
            assert((p2 + s2)[k] == s2[k - p2.len()]);
        }
    }
}

/// The nonce distinguishes transactions: two well-formed signed
/// extrinsics that agree on call, sender, era and tip but carry different
/// nonces encode to different bytes — whatever their signatures are.
pub proof fn lemma_nonce_distinguishes_extrinsics(x1: Extrinsic, x2: Extrinsic)
    requires
        spec_extrinsic_wf(x1),
        spec_extrinsic_wf(x2),
        x1.call == x2.call,
        x1.sender@ == x2.sender@,
        x1.extensions.era == x2.extensions.era,
        x1.extensions.tip == x2.extensions.tip,
        x1.extensions.nonce != x2.extensions.nonce,
    ensures
        spec_extrinsic_bytes(x1) != spec_extrinsic_bytes(x2),
{
    let in1 = spec_extrinsic_inner(x1);
    let in2 = spec_extrinsic_inner(x2);
    let e1 = spec_extra_bytes(x1.extensions);
    let e2 = spec_extra_bytes(x2.extensions);
    let c = spec_call_bytes(x1.call);
    let era = crate::era::spec_era_bytes(x1.extensions.era);
    let tip = crate::scale::spec_compact_u128(x1.extensions.tip);
    if spec_extrinsic_bytes(x1) == spec_extrinsic_bytes(x2) {
        lemma_compact_u32_prefix_free(in1.len() as u32, in2.len() as u32, in1, in2);
        let head1 = seq![0x84u8, 0x00u8] + x1.sender@ + seq![0x01u8] + x1.signature@;
        let head2 = seq![0x84u8, 0x00u8] + x2.sender@ + seq![0x01u8] + x2.signature@;
        assert(in1 == head1 + (e1 + c) && in2 == head2 + (e2 + c)) by {
            assert(in1 =~= head1 + (e1 + c));
            assert(in2 =~= head2 + (e2 + c));
        }
        lemma_concat_split(head1, e1 + c, head2, e2 + c);
        assert(e1.len() == e2.len());
        lemma_concat_split(e1, c, e2, c);
        assert(e1 == era + (crate::scale::spec_compact_u32(x1.extensions.nonce) + tip)) by {
            assert(e1 =~= era + (crate::scale::spec_compact_u32(x1.extensions.nonce) + tip));
        }
        assert(e2 == era + (crate::scale::spec_compact_u32(x2.extensions.nonce) + tip)) by {
            assert(e2 =~= era + (crate::scale::spec_compact_u32(x2.extensions.nonce) + tip));
        }
        lemma_concat_split(
            era,
            crate::scale::spec_compact_u32(x1.extensions.nonce) + tip,
            era,
            crate::scale::spec_compact_u32(x2.extensions.nonce) + tip,
        );
        lemma_compact_u32_prefix_free(x1.extensions.nonce, x2.extensions.nonce, tip, tip);
        assert(false);
    }
}

} // verus!
