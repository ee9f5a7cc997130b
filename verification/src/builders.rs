//! Extrinsic builders for the native runtime modules.
//!
//! Each builder knows the module and extrinsic it drives, holds the chain
//! context it was set up with, and produces one signed transaction per
//! caller-allocated nonce. Builders that feed random workload data draw
//! it once at construction, so that building is a pure function of the
//! nonce. A builder that fails (a malformed address or hex string) fails
//! alone: it reports a labeled error and corrupts nothing else.

use vstd::prelude::*;
use crate::calls::{Call, ContractCall, spec_call_bytes, spec_max_data_len};
use crate::extrinsic::{
    ChainContext, Extrinsic, spec_ctx_wf, spec_extrinsic_wf, spec_era_of, spec_additional_of,
    create_benchmark_extrinsic,
};
use crate::extensions::spec_extra_bytes;
use crate::signer::{schnorr_public_of, schnorr_verifies, spec_signing_context};
use crate::payload::spec_signing_payload;
use crate::scale::{
    spec_i64_le, spec_u32_le, spec_compact_u128, spec_scale_bytes, scale_i64, scale_u32,
    scale_compact_u128, scale_byte_vec, scale_str, append_bytes,
};
use vstd::utf8::{encode_utf8, is_ascii_chars, is_ascii_chars_encode_utf8};

verus! {

/// Call index of the number setter in the template module.
pub const TEMPLATE_CALL_UPDATE_SOME_NUM: u8 = 0;

/// Call index of the number getter in the template module.
pub const TEMPLATE_CALL_GET_SOME_NUM: u8 = 1;

/// Call index of the string setter in the template module.
pub const TEMPLATE_CALL_UPDATE_SOME_STR: u8 = 2;

/// Call index of the string getter in the template module.
pub const TEMPLATE_CALL_GET_SOME_STR: u8 = 3;

/// Call index of the fibonacci workload in the template module.
pub const TEMPLATE_CALL_FIBONACCI: u8 = 4;

/// Call index of the odd-product workload in the template module.
pub const TEMPLATE_CALL_ODD_PRODUCT: u8 = 5;

/// Call index of the triangle-number workload in the template module.
pub const TEMPLATE_CALL_TRIANGLE_NUMBER: u8 = 6;

/// Call index of the sample event emitter in the template module.
pub const TEMPLATE_CALL_EMIT_SAMPLE_EVENT: u8 = 7;

/// Call index of the cross-module store in the template module.
pub const TEMPLATE_CALL_STORE_NUM_IN_CALLEE: u8 = 8;

/// Why a builder failed. The failure is local to the builder: the driver
/// reports it under the builder's module and extrinsic labels and moves
/// on.
#[derive(Clone, Copy, Debug, PartialEq, Eq, Structural)]
pub enum BuildError {
    /// An account or contract address did not parse.
    MalformedAddress,
    /// A hex call-data string did not parse.
    MalformedHex,
}

impl BuildError {
    /// Static description of the failure.
    pub fn message(&self) -> (r: &'static str)
        ensures
            *self is MalformedAddress ==> r@ == "malformed address"@,
            *self is MalformedHex ==> r@ == "malformed call data hex"@,
    {
        match self {
            BuildError::MalformedAddress => "malformed address",
            BuildError::MalformedHex => "malformed call data hex",
        }
    }
}

/// Everything a built transaction promises, independent of its call: well
/// formed; sent and signed by the context's benchmark account; carrying a
/// mortal era anchored per the context, the given nonce, and a zero tip;
/// with a signature that verifies over the signing payload.
pub open spec fn spec_built_ok(ctx: ChainContext, x: Extrinsic, nonce: u32) -> bool {
    &&& spec_extrinsic_wf(x)
    &&& x.sender@ == schnorr_public_of(ctx.signer_seed@)
    &&& x.extensions.era == spec_era_of(ctx)
    &&& x.extensions.nonce == nonce
    &&& x.extensions.tip == 0
    &&& schnorr_verifies(
        schnorr_public_of(ctx.signer_seed@),
        spec_signing_context(),
        spec_signing_payload(
            spec_call_bytes(x.call),
            spec_extra_bytes(x.extensions),
            spec_additional_of(ctx),
        ),
        x.signature@,
    )
}

/// A character the alphanumeric distribution can produce.
pub open spec fn spec_is_alphanumeric_ascii(c: char) -> bool {
    ('0' <= c && c <= '9') || ('a' <= c && c <= 'z') || ('A' <= c && c <= 'Z')
}

/// Relies on `rand::thread_rng` and `Rng::gen`: a random machine integer,
/// of which nothing can be promised.
#[verifier::external_body]
pub(crate) fn random_i64() -> i64 {
    rand::Rng::gen(&mut rand::thread_rng())
}

/// Relies on rand's `Alphanumeric` distribution: `len` characters, each
/// an ASCII letter or digit.
#[verifier::external_body]
pub(crate) fn random_alphanumeric_string(len: usize) -> (r: String)
    ensures
        r@.len() == len,
        forall|i: int| 0 <= i < r@.len() ==> spec_is_alphanumeric_ascii(#[trigger] r@[i]),
{
    rand::Rng::sample_iter(rand::thread_rng(), rand::distributions::Alphanumeric)
        .take(len)
        .map(char::from)
        .collect()
}

/// Builds a signed transaction around a native module call.
pub(crate) fn build_native(
    ctx: &ChainContext,
    pallet_index: u8,
    call_index: u8,
    args: Vec<u8>,
    nonce: u32,
) -> (x: Extrinsic)
    requires
        spec_ctx_wf(*ctx),
        args@.len() <= spec_max_data_len(),
    ensures
        spec_built_ok(*ctx, x, nonce),
        x.call matches Call::NativeModule { pallet_index: p, call_index: c, args: a } && p
            == pallet_index && c == call_index && a@ == args@,
{
    let call = Call::NativeModule { pallet_index, call_index, args };
    create_benchmark_extrinsic(ctx, &ctx.signer_seed, call, nonce)
}

/// Builds a signed transaction around a contract message, with the
/// benchmarking policy defaults: no transferred value, unmetered gas
/// limit, unbounded storage deposit.
pub(crate) fn build_contract_message(
    ctx: &ChainContext,
    dest: Vec<u8>,
    data: Vec<u8>,
    nonce: u32,
) -> (x: Extrinsic)
    requires
        spec_ctx_wf(*ctx),
        dest@.len() == 32,
        data@.len() <= spec_max_data_len(),
    ensures
        spec_built_ok(*ctx, x, nonce),
        x.call matches Call::ContractMessage { pallet_index: p, call_index: c, call: cc } && p
            == ctx.indices.contracts && c == ctx.indices.contracts_call && cc.dest@ == dest@
            && cc.value == 0 && cc.gas_limit == 0 && cc.storage_deposit_limit is None && cc.data@
            == data@,
{
    let inner = ContractCall {
        dest,
        value: 0,
        gas_limit: 0,
        storage_deposit_limit: None,
        data,
    };
    let call = Call::ContractMessage {
        pallet_index: ctx.indices.contracts,
        call_index: ctx.indices.contracts_call,
        call: inner,
    };
    create_benchmark_extrinsic(ctx, &ctx.signer_seed, call, nonce)
}

/// Builds system remark transactions with an empty remark.
pub struct RemarkBuilder {
    /// Chain context read once at setup.
    pub ctx: ChainContext,
}

impl RemarkBuilder {
    /// Creates a builder over the given context.
    pub fn new(ctx: ChainContext) -> (s: Self)
        ensures
            s.ctx == ctx,
    {
        RemarkBuilder { ctx }
    }

    /// The targeted module, for benchmark labeling.
    pub fn pallet(&self) -> (r: &'static str)
        ensures
            r@ == "system"@,
    {
        "system"
    }

    /// The targeted extrinsic, for benchmark labeling.
    pub fn extrinsic(&self) -> (r: &'static str)
        ensures
            r@ == "remark"@,
    {
        "remark"
    }

    /// Builds one signed remark transaction for the given nonce.
    pub fn build(&self, nonce: u32) -> (r: Result<Extrinsic, BuildError>)
        requires
            spec_ctx_wf(self.ctx),
        ensures
            r is Ok,
            r matches Ok(x) ==> spec_built_ok(self.ctx, x, nonce) && (x.call matches
                Call::NativeModule { pallet_index, call_index, args } && pallet_index
                == self.ctx.indices.system && call_index == self.ctx.indices.system_remark
                && args@ == Seq::<u8>::empty()),
    {
        let args: Vec<u8> = Vec::new();
        Ok(
            build_native(
                &self.ctx,
                self.ctx.indices.system,
                self.ctx.indices.system_remark,
                args,
                nonce,
            ),
        )
    }
}

/// Builds keep-alive balance transfers to a fixed destination account.
pub struct TransferKeepAliveBuilder {
    /// Chain context read once at setup.
    pub ctx: ChainContext,
    /// 32-byte account that receives the transfer.
    pub dest: Vec<u8>,
    /// Amount transferred.
    pub value: u128,
}

impl TransferKeepAliveBuilder {
    /// Creates a builder over the given context, destination and amount.
    pub fn new(ctx: ChainContext, dest: Vec<u8>, value: u128) -> (s: Self)
        ensures
            s.ctx == ctx,
            s.dest == dest,
            s.value == value,
    {
        TransferKeepAliveBuilder { ctx, dest, value }
    }

    /// The targeted module, for benchmark labeling.
    pub fn pallet(&self) -> (r: &'static str)
        ensures
            r@ == "balances"@,
    {
        "balances"
    }

    /// The targeted extrinsic, for benchmark labeling.
    pub fn extrinsic(&self) -> (r: &'static str)
        ensures
            r@ == "transfer_keep_alive"@,
    {
        "transfer_keep_alive"
    }

    /// Builds one signed transfer for the given nonce: the destination as
    /// the id address variant, then the compact amount.
    pub fn build(&self, nonce: u32) -> (r: Result<Extrinsic, BuildError>)
        requires
            spec_ctx_wf(self.ctx),
            self.dest@.len() == 32,
        ensures
            r is Ok,
            r matches Ok(x) ==> spec_built_ok(self.ctx, x, nonce) && (x.call matches
                Call::NativeModule { pallet_index, call_index, args } && pallet_index
                == self.ctx.indices.balances && call_index
                == self.ctx.indices.balances_transfer_keep_alive && args@ == seq![0u8]
                + self.dest@ + spec_compact_u128(self.value)),
    {
        let mut args: Vec<u8> = Vec::new();
        args.push(0u8);
        append_bytes(&mut args, &self.dest);
        let mut piece = scale_compact_u128(self.value);
        args.append(&mut piece);
        proof {
            crate::scale::lemma_compact_u128_len(self.value);
            assert(args@ =~= seq![0u8] + self.dest@ + spec_compact_u128(self.value));
        }
        Ok(
            build_native(
                &self.ctx,
                self.ctx.indices.balances,
                self.ctx.indices.balances_transfer_keep_alive,
                args,
                nonce,
            ),
        )
    }
}

/// Builds nickname registrations with a fixed name.
pub struct SetNameBuilder {
    /// Chain context read once at setup.
    pub ctx: ChainContext,
    /// The name bytes to register.
    pub name: Vec<u8>,
}

impl SetNameBuilder {
    /// Creates a builder over the given context and name.
    pub fn new(ctx: ChainContext, name: Vec<u8>) -> (s: Self)
        ensures
            s.ctx == ctx,
            s.name == name,
    {
        SetNameBuilder { ctx, name }
    }

    /// The targeted module, for benchmark labeling.
    pub fn pallet(&self) -> (r: &'static str)
        ensures
            r@ == "nicks"@,
    {
        "nicks"
    }

    /// The targeted extrinsic, for benchmark labeling.
    pub fn extrinsic(&self) -> (r: &'static str)
        ensures
            r@ == "set_name"@,
    {
        "set_name"
    }

    /// Builds one signed name registration for the given nonce: the name
    /// as a length-prefixed byte string.
    pub fn build(&self, nonce: u32) -> (r: Result<Extrinsic, BuildError>)
        requires
            spec_ctx_wf(self.ctx),
            self.name@.len() <= 0x1000000,
        ensures
            r is Ok,
            r matches Ok(x) ==> spec_built_ok(self.ctx, x, nonce) && (x.call matches
                Call::NativeModule { pallet_index, call_index, args } && pallet_index
                == self.ctx.indices.nicks && call_index == self.ctx.indices.nicks_set_name
                && args@ == spec_scale_bytes(self.name@)),
    {
        let args = scale_byte_vec(&self.name);
        proof {
            crate::scale::lemma_compact_u32_len(self.name@.len() as u32);
        }
        Ok(
            build_native(
                &self.ctx,
                self.ctx.indices.nicks,
                self.ctx.indices.nicks_set_name,
                args,
                nonce,
            ),
        )
    }
}

/// Builds template-module number updates, with a number drawn at
/// construction.
pub struct UpdateSomeNumBuilder {
    /// Chain context read once at setup.
    pub ctx: ChainContext,
    /// The number to store, drawn once at construction.
    pub value: i64,
}

impl UpdateSomeNumBuilder {
    /// Creates a builder over the given context; the number to store is
    /// drawn here, once, so that building is a pure function of the nonce.
    pub fn new(ctx: ChainContext) -> (s: Self)
        ensures
            s.ctx == ctx,
    {
        let value = random_i64();
        UpdateSomeNumBuilder { ctx, value }
    }

    /// The targeted module, for benchmark labeling.
    pub fn pallet(&self) -> (r: &'static str)
        ensures
            r@ == "template"@,
    {
        "template"
    }

    /// The targeted extrinsic, for benchmark labeling.
    pub fn extrinsic(&self) -> (r: &'static str)
        ensures
            r@ == "update_some_num"@,
    {
        "update_some_num"
    }

    /// Builds one signed number update for the given nonce.
    pub fn build(&self, nonce: u32) -> (r: Result<Extrinsic, BuildError>)
        requires
            spec_ctx_wf(self.ctx),
        ensures
            r is Ok,
            r matches Ok(x) ==> spec_built_ok(self.ctx, x, nonce) && (x.call matches
                Call::NativeModule { pallet_index, call_index, args } && pallet_index
                == self.ctx.indices.template && call_index == TEMPLATE_CALL_UPDATE_SOME_NUM
                && args@ == spec_i64_le(self.value)),
    {
        let args = scale_i64(self.value);
        Ok(
            build_native(
                &self.ctx,
                self.ctx.indices.template,
                TEMPLATE_CALL_UPDATE_SOME_NUM,
                args,
                nonce,
            ),
        )
    }
}

/// Builds template-module number reads.
pub struct GetSomeNumBuilder {
    /// Chain context read once at setup.
    pub ctx: ChainContext,
}

impl GetSomeNumBuilder {
    /// Creates a builder over the given context.
    pub fn new(ctx: ChainContext) -> (s: Self)
        ensures
            s.ctx == ctx,
    {
        GetSomeNumBuilder { ctx }
    }

    /// The targeted module, for benchmark labeling.
    pub fn pallet(&self) -> (r: &'static str)
        ensures
            r@ == "template"@,
    {
        "template"
    }

    /// The targeted extrinsic, for benchmark labeling.
    pub fn extrinsic(&self) -> (r: &'static str)
        ensures
            r@ == "get_some_num"@,
    {
        "get_some_num"
    }

    /// Builds one signed number read for the given nonce.
    pub fn build(&self, nonce: u32) -> (r: Result<Extrinsic, BuildError>)
        requires
            spec_ctx_wf(self.ctx),
        ensures
            r is Ok,
            r matches Ok(x) ==> spec_built_ok(self.ctx, x, nonce) && (x.call matches
                Call::NativeModule { pallet_index, call_index, args } && pallet_index
                == self.ctx.indices.template && call_index == TEMPLATE_CALL_GET_SOME_NUM
                && args@ == Seq::<u8>::empty()),
    {
        let args: Vec<u8> = Vec::new();
        Ok(
            build_native(
                &self.ctx,
                self.ctx.indices.template,
                TEMPLATE_CALL_GET_SOME_NUM,
                args,
                nonce,
            ),
        )
    }
}

/// Builds template-module string updates, with a string drawn at
/// construction.
pub struct UpdateSomeStrBuilder {
    /// Chain context read once at setup.
    pub ctx: ChainContext,
    /// The string to store, drawn once at construction: 100 alphanumeric
    /// ASCII characters.
    pub value: String,
}

impl UpdateSomeStrBuilder {
    /// Creates a builder over the given context; the string to store is
    /// drawn here, once, so that building is a pure function of the nonce.
    pub fn new(ctx: ChainContext) -> (s: Self)
        ensures
            s.ctx == ctx,
            is_ascii_chars(s.value@),
            s.value@.len() == 100,
    {
        let value = random_alphanumeric_string(100);
        proof {
            assert forall|i: int| 0 <= i < value@.len() implies '\0' <= #[trigger] value@[i]
                <= '\u{7f}' by {
                assert(spec_is_alphanumeric_ascii(value@[i]));
            }
        }
        UpdateSomeStrBuilder { ctx, value }
    }

    /// The targeted module, for benchmark labeling.
    pub fn pallet(&self) -> (r: &'static str)
        ensures
            r@ == "template"@,
    {
        "template"
    }

    /// The targeted extrinsic, for benchmark labeling.
    pub fn extrinsic(&self) -> (r: &'static str)
        ensures
            r@ == "update_some_str"@,
    {
        "update_some_str"
    }

    /// Builds one signed string update for the given nonce: the string's
    /// bytes, length-prefixed.
    pub fn build(&self, nonce: u32) -> (r: Result<Extrinsic, BuildError>)
        requires
            spec_ctx_wf(self.ctx),
            is_ascii_chars(self.value@),
            self.value@.len() <= 0x1000000,
        ensures
            r is Ok,
            r matches Ok(x) ==> spec_built_ok(self.ctx, x, nonce) && (x.call matches
                Call::NativeModule { pallet_index, call_index, args } && pallet_index
                == self.ctx.indices.template && call_index == TEMPLATE_CALL_UPDATE_SOME_STR
                && args@ == spec_scale_bytes(encode_utf8(self.value@))),
    {
        proof {
            is_ascii_chars_encode_utf8(self.value@);
        }
        let args = scale_str(self.value.as_str());
        Ok(
            build_native(
                &self.ctx,
                self.ctx.indices.template,
                TEMPLATE_CALL_UPDATE_SOME_STR,
                args,
                nonce,
            ),
        )
    }
}

/// Builds template-module string reads.
pub struct GetSomeStrBuilder {
    /// Chain context read once at setup.
    pub ctx: ChainContext,
}

impl GetSomeStrBuilder {
    /// Creates a builder over the given context.
    pub fn new(ctx: ChainContext) -> (s: Self)
        ensures
            s.ctx == ctx,
    {
        GetSomeStrBuilder { ctx }
    }

    /// The targeted module, for benchmark labeling.
    pub fn pallet(&self) -> (r: &'static str)
        ensures
            r@ == "template"@,
    {
        "template"
    }

    /// The targeted extrinsic, for benchmark labeling.
    pub fn extrinsic(&self) -> (r: &'static str)
        ensures
            r@ == "get_some_str"@,
    {
        "get_some_str"
    }

    /// Builds one signed string read for the given nonce.
    pub fn build(&self, nonce: u32) -> (r: Result<Extrinsic, BuildError>)
        requires
            spec_ctx_wf(self.ctx),
        ensures
            r is Ok,
            r matches Ok(x) ==> spec_built_ok(self.ctx, x, nonce) && (x.call matches
                Call::NativeModule { pallet_index, call_index, args } && pallet_index
                == self.ctx.indices.template && call_index == TEMPLATE_CALL_GET_SOME_STR
                && args@ == Seq::<u8>::empty()),
    {
        let args: Vec<u8> = Vec::new();
        Ok(
            build_native(
                &self.ctx,
                self.ctx.indices.template,
                TEMPLATE_CALL_GET_SOME_STR,
                args,
                nonce,
            ),
        )
    }
}

/// Builds template-module fibonacci workloads for a fixed input.
pub struct FibonacciBuilder {
    /// Chain context read once at setup.
    pub ctx: ChainContext,
    /// Workload input.
    pub num: u32,
}

impl FibonacciBuilder {
    /// Creates a builder over the given context and input.
    pub fn new(ctx: ChainContext, num: u32) -> (s: Self)
        ensures
            s.ctx == ctx,
            s.num == num,
    {
        FibonacciBuilder { ctx, num }
    }

    /// The targeted module, for benchmark labeling.
    pub fn pallet(&self) -> (r: &'static str)
        ensures
            r@ == "template"@,
    {
        "template"
    }

    /// The targeted extrinsic, for benchmark labeling.
    pub fn extrinsic(&self) -> (r: &'static str)
        ensures
            r@ == "fibonacci"@,
    {
        "fibonacci"
    }

    /// Builds one signed fibonacci call for the given nonce.
    pub fn build(&self, nonce: u32) -> (r: Result<Extrinsic, BuildError>)
        requires
            spec_ctx_wf(self.ctx),
        ensures
            r is Ok,
            r matches Ok(x) ==> spec_built_ok(self.ctx, x, nonce) && (x.call matches
                Call::NativeModule { pallet_index, call_index, args } && pallet_index
                == self.ctx.indices.template && call_index == TEMPLATE_CALL_FIBONACCI && args@
                == spec_u32_le(self.num)),
    {
        let args = scale_u32(self.num);
        Ok(
            build_native(
                &self.ctx,
                self.ctx.indices.template,
                TEMPLATE_CALL_FIBONACCI,
                args,
                nonce,
            ),
        )
    }
}

/// Builds template-module odd-product workloads for a fixed input.
pub struct OddProductBuilder {
    /// Chain context read once at setup.
    pub ctx: ChainContext,
    /// Workload input.
    pub num: u32,
}

impl OddProductBuilder {
    /// Creates a builder over the given context and input.
    pub fn new(ctx: ChainContext, num: u32) -> (s: Self)
        ensures
            s.ctx == ctx,
            s.num == num,
    {
        OddProductBuilder { ctx, num }
    }

    /// The targeted module, for benchmark labeling.
    pub fn pallet(&self) -> (r: &'static str)
        ensures
            r@ == "template"@,
    {
        "template"
    }

    /// The targeted extrinsic, for benchmark labeling.
    pub fn extrinsic(&self) -> (r: &'static str)
        ensures
            r@ == "odd_product"@,
    {
        "odd_product"
    }

    /// Builds one signed odd-product call for the given nonce.
    pub fn build(&self, nonce: u32) -> (r: Result<Extrinsic, BuildError>)
        requires
            spec_ctx_wf(self.ctx),
        ensures
            r is Ok,
            r matches Ok(x) ==> spec_built_ok(self.ctx, x, nonce) && (x.call matches
                Call::NativeModule { pallet_index, call_index, args } && pallet_index
                == self.ctx.indices.template && call_index == TEMPLATE_CALL_ODD_PRODUCT && args@
                == spec_u32_le(self.num)),
    {
        let args = scale_u32(self.num);
        Ok(
            build_native(
                &self.ctx,
                self.ctx.indices.template,
                TEMPLATE_CALL_ODD_PRODUCT,
                args,
                nonce,
            ),
        )
    }
}

/// Builds template-module triangle-number workloads for a fixed input.
pub struct TriangleNumBuilder {
    /// Chain context read once at setup.
    pub ctx: ChainContext,
    /// Workload input.
    pub num: u32,
}

impl TriangleNumBuilder {
    /// Creates a builder over the given context and input.
    pub fn new(ctx: ChainContext, num: u32) -> (s: Self)
        ensures
            s.ctx == ctx,
            s.num == num,
    {
        TriangleNumBuilder { ctx, num }
    }

    /// The targeted module, for benchmark labeling.
    pub fn pallet(&self) -> (r: &'static str)
        ensures
            r@ == "template"@,
    {
        "template"
    }

    /// The targeted extrinsic, for benchmark labeling.
    pub fn extrinsic(&self) -> (r: &'static str)
        ensures
            r@ == "triangle_number"@,
    {
        "triangle_number"
    }

    /// Builds one signed triangle-number call for the given nonce.
    pub fn build(&self, nonce: u32) -> (r: Result<Extrinsic, BuildError>)
        requires
            spec_ctx_wf(self.ctx),
        ensures
            r is Ok,
            r matches Ok(x) ==> spec_built_ok(self.ctx, x, nonce) && (x.call matches
                Call::NativeModule { pallet_index, call_index, args } && pallet_index
                == self.ctx.indices.template && call_index == TEMPLATE_CALL_TRIANGLE_NUMBER
                && args@ == spec_u32_le(self.num)),
    {
        let args = scale_u32(self.num);
        Ok(
            build_native(
                &self.ctx,
                self.ctx.indices.template,
                TEMPLATE_CALL_TRIANGLE_NUMBER,
                args,
                nonce,
            ),
        )
    }
}

/// Builds template-module sample-event emissions.
pub struct SampleEventEmitBuilder {
    /// Chain context read once at setup.
    pub ctx: ChainContext,
}

impl SampleEventEmitBuilder {
    /// Creates a builder over the given context.
    pub fn new(ctx: ChainContext) -> (s: Self)
        ensures
            s.ctx == ctx,
    {
        SampleEventEmitBuilder { ctx }
    }

    /// The targeted module, for benchmark labeling.
    pub fn pallet(&self) -> (r: &'static str)
        ensures
            r@ == "template"@,
    {
        "template"
    }

    /// The targeted extrinsic, for benchmark labeling.
    pub fn extrinsic(&self) -> (r: &'static str)
        ensures
            r@ == "emit_sample_event"@,
    {
        "emit_sample_event"
    }

    /// Builds one signed event emission for the given nonce.
    pub fn build(&self, nonce: u32) -> (r: Result<Extrinsic, BuildError>)
        requires
            spec_ctx_wf(self.ctx),
        ensures
            r is Ok,
            r matches Ok(x) ==> spec_built_ok(self.ctx, x, nonce) && (x.call matches
                Call::NativeModule { pallet_index, call_index, args } && pallet_index
                == self.ctx.indices.template && call_index == TEMPLATE_CALL_EMIT_SAMPLE_EVENT
                && args@ == Seq::<u8>::empty()),
    {
        let args: Vec<u8> = Vec::new();
        Ok(
            build_native(
                &self.ctx,
                self.ctx.indices.template,
                TEMPLATE_CALL_EMIT_SAMPLE_EVENT,
                args,
                nonce,
            ),
        )
    }
}

/// Builds cross-module stores: the template module forwards a number to
/// the callee module. The number is drawn at construction.
pub struct CrossPalletCallBuilder {
    /// Chain context read once at setup.
    pub ctx: ChainContext,
    /// The number to forward, drawn once at construction.
    pub value: i64,
}

impl CrossPalletCallBuilder {
    /// Creates a builder over the given context; the number to forward is
    /// drawn here, once, so that building is a pure function of the nonce.
    pub fn new(ctx: ChainContext) -> (s: Self)
        ensures
            s.ctx == ctx,
    {
        let value = random_i64();
        CrossPalletCallBuilder { ctx, value }
    }

    /// The targeted module, for benchmark labeling.
    pub fn pallet(&self) -> (r: &'static str)
        ensures
            r@ == "template"@,
    {
        "template"
    }

    /// The targeted extrinsic, for benchmark labeling.
    pub fn extrinsic(&self) -> (r: &'static str)
        ensures
            r@ == "cross_pallet_call"@,
    {
        "cross_pallet_call"
    }

    /// Builds one signed cross-module store for the given nonce.
    pub fn build(&self, nonce: u32) -> (r: Result<Extrinsic, BuildError>)
        requires
            spec_ctx_wf(self.ctx),
        ensures
            r is Ok,
            r matches Ok(x) ==> spec_built_ok(self.ctx, x, nonce) && (x.call matches
                Call::NativeModule { pallet_index, call_index, args } && pallet_index
                == self.ctx.indices.template && call_index == TEMPLATE_CALL_STORE_NUM_IN_CALLEE
                && args@ == spec_i64_le(self.value)),
    {
        let args = scale_i64(self.value);
        Ok(
            build_native(
                &self.ctx,
                self.ctx.indices.template,
                TEMPLATE_CALL_STORE_NUM_IN_CALLEE,
                args,
                nonce,
            ),
        )
    }
}

} // verus!
