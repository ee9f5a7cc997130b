//! The signed-extension chain.
//!
//! Every transaction carries a fixed, ordered chain of validity checks:
//! non-zero sender, runtime spec version, transaction version, genesis
//! hash, mortality era, nonce, weight, and the fee payment with its tip.
//! Only the era, the nonce and the tip contribute bytes to the transaction
//! body; the version and hash checks contribute nothing there but fold
//! their values into the additional signed data instead. Reordering any of
//! this invalidates every signature, so the layout is pinned byte-exactly.

use vstd::prelude::*;
use crate::era::{Era, spec_era_bytes, spec_era_wf, era_bytes};
use crate::scale::{
    spec_u32_le, spec_compact_u32, spec_compact_u128, scale_u32, scale_compact_u32,
    scale_compact_u128, append_bytes,
};

verus! {

/// The extension values that write into the transaction body, in chain
/// order. The checks without a payload (non-zero sender, spec version,
/// transaction version, genesis, weight) hold no value here: they encode
/// to nothing.
pub struct SignedExtensions {
    /// Mortality window of the transaction.
    pub era: Era,
    /// Per-sender transaction counter, allocated by the caller.
    pub nonce: u32,
    /// Fee tip; zero for benchmarking.
    pub tip: u128,
}

/// A well-formed extension chain has a well-formed era.
pub open spec fn spec_extensions_wf(x: SignedExtensions) -> bool {
    spec_era_wf(x.era)
}

/// Body bytes of the extension chain: era, compact nonce, compact tip, in
/// that order; the payload-free checks contribute nothing.
pub open spec fn spec_extra_bytes(x: SignedExtensions) -> Seq<u8> {
    spec_era_bytes(x.era) + spec_compact_u32(x.nonce) + spec_compact_u128(x.tip)
}

/// The context folded into the signature but never transmitted: runtime
/// spec version, transaction version, genesis hash, and the mortality
/// anchor hash, in that order. The unit placeholders around them (one
/// leading, three trailing, reserved for forward compatibility) encode to
/// nothing.
pub struct AdditionalData {
    /// Runtime specification version.
    pub spec_version: u32,
    /// Transaction format version.
    pub transaction_version: u32,
    /// Hash of the genesis block, 32 bytes.
    pub genesis_hash: Vec<u8>,
    /// Hash of the era's anchor (best) block, 32 bytes.
    pub best_hash: Vec<u8>,
}

/// Well-formed additional data carries 32-byte hashes.
pub open spec fn spec_additional_wf(a: AdditionalData) -> bool {
    a.genesis_hash@.len() == 32 && a.best_hash@.len() == 32
}

/// Bytes of the additional signed data: the two versions little-endian,
/// then the two hashes; the unit placeholders encode to nothing.
pub open spec fn spec_additional_bytes(a: AdditionalData) -> Seq<u8> {
    spec_u32_le(a.spec_version) + spec_u32_le(a.transaction_version) + a.genesis_hash@
        + a.best_hash@
}

/// Encodes the extension chain's body bytes.
pub fn encode_extra(x: &SignedExtensions) -> (r: Vec<u8>)
    requires
        spec_extensions_wf(*x),
    ensures
        r@ == spec_extra_bytes(*x),
{
    let mut r = era_bytes(&x.era);
    let mut piece = scale_compact_u32(x.nonce);
    r.append(&mut piece);
    let mut piece = scale_compact_u128(x.tip);
    r.append(&mut piece);
    proof {
        assert(r@ =~= spec_extra_bytes(*x));
    }
    r
}

/// Encodes the additional signed data.
pub fn encode_additional(a: &AdditionalData) -> (r: Vec<u8>)
    requires
        spec_additional_wf(*a),
    ensures
        r@ == spec_additional_bytes(*a),
        r@.len() == 72,
{
    let mut r = scale_u32(a.spec_version);
    let mut piece = scale_u32(a.transaction_version);
    r.append(&mut piece);
    append_bytes(&mut r, &a.genesis_hash);
    append_bytes(&mut r, &a.best_hash);
    proof {
        assert(r@ =~= spec_additional_bytes(*a));
    }
    r
}

/// The extension body is short: era, compact nonce and compact tip take at
/// most 24 bytes together.
pub proof fn lemma_extra_bytes_len(x: SignedExtensions)
    ensures
        spec_extra_bytes(x).len() <= 24,
{
    crate::scale::lemma_compact_u32_len(x.nonce);
    crate::scale::lemma_compact_u128_len(x.tip);
}

} // verus!
