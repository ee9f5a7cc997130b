//! Extrinsic builders for WASM contract messages.
//!
//! Each builder drives one message of the deployed test contract: its
//! payload is the message's fixed four-byte selector followed by the
//! SCALE-encoded arguments. The selectors are this crate's copy of the
//! contract's published selector table; a mismatch would make the target
//! reject or ignore the call silently, so they are kept in one place
//! here. The contract's address arrives as SS58 text and is parsed at
//! build time; a malformed address fails only this builder.

use vstd::prelude::*;
use crate::calls::{Call, contract_call_data};
use crate::extrinsic::{ChainContext, Extrinsic, spec_ctx_wf};
use crate::builders::{
    BuildError, spec_built_ok, build_contract_message, random_i64, random_alphanumeric_string,
    spec_is_alphanumeric_ascii,
};
use crate::address::{spec_ss58_valid, spec_ss58_account, ss58_decode};
use crate::scale::{spec_i64_le, spec_u32_le, spec_scale_bytes, scale_i64, scale_u32, scale_str};
use vstd::utf8::{encode_utf8, is_ascii_chars, is_ascii_chars_encode_utf8};

verus! {

/// Selector of the contract's number setter.
pub open spec fn spec_selector_update_num() -> Seq<u8> {
    seq![0xFBu8, 0xAFu8, 0x91u8, 0xE1u8]
}

/// Selector of the contract's number getter.
pub open spec fn spec_selector_get_num() -> Seq<u8> {
    seq![0xCFu8, 0xE3u8, 0x9Fu8, 0xC5u8]
}

/// Selector of the contract's string setter.
pub open spec fn spec_selector_update_s() -> Seq<u8> {
    seq![0x90u8, 0xC9u8, 0xB3u8, 0xF8u8]
}

/// Selector of the contract's string getter.
pub open spec fn spec_selector_get_s() -> Seq<u8> {
    seq![0xA9u8, 0xE8u8, 0x9Du8, 0x26u8]
}

/// Selector of the contract's fibonacci workload.
pub open spec fn spec_selector_fibonacci() -> Seq<u8> {
    seq![0x3Cu8, 0x87u8, 0x40u8, 0x79u8]
}

/// Selector of the contract's odd-product workload.
pub open spec fn spec_selector_odd_product() -> Seq<u8> {
    seq![0x2Au8, 0xC6u8, 0x52u8, 0x85u8]
}

/// Selector of the contract's triangle-number workload.
pub open spec fn spec_selector_triangle_number() -> Seq<u8> {
    seq![0x8Eu8, 0x70u8, 0x88u8, 0x51u8]
}

/// Selector of the contract's sample-event emitter.
pub open spec fn spec_selector_emit_sample_event() -> Seq<u8> {
    seq![0x43u8, 0x5Au8, 0x64u8, 0x4Fu8]
}

/// Selector of the contract's cross-contract store.
pub open spec fn spec_selector_cross_contract_call() -> Seq<u8> {
    seq![0x5Au8, 0xCCu8, 0xC8u8, 0x95u8]
}

/// The workload input every contract arithmetic benchmark uses.
pub const CONTRACT_WORKLOAD_INPUT: u32 = 15;

/// The number the cross-contract store writes into the callee.
pub const CROSS_CONTRACT_STORE_VALUE: i64 = 100;

/// Builds a four-byte selector.
fn selector4(a: u8, b: u8, c: u8, d: u8) -> (r: Vec<u8>)
    ensures
        r@ == seq![a, b, c, d],
        r@.len() == 4,
{
    let mut r: Vec<u8> = Vec::new();
    r.push(a);
    r.push(b);
    r.push(c);
    r.push(d);
    proof {
        assert(r@ =~= seq![a, b, c, d]);
    }
    r
}

/// Builds contract calls of the number-setter message, with a number
/// drawn at construction.
pub struct InkUpdateNumBuilder {
    /// Chain context read once at setup.
    pub ctx: ChainContext,
    /// SS58 text of the deployed contract's address.
    pub contract_addr: String,
    /// The number to store, drawn once at construction.
    pub value: i64,
}

impl InkUpdateNumBuilder {
    /// Creates a builder over the given context and contract address; the
    /// number to store is drawn here, once.
    pub fn new(ctx: ChainContext, contract_addr: String) -> (s: Self)
        ensures
            s.ctx == ctx,
            s.contract_addr == contract_addr,
    {
        let value = random_i64();
        InkUpdateNumBuilder { ctx, contract_addr, value }
    }

    /// The targeted contract, for benchmark labeling.
    pub fn pallet(&self) -> (r: &'static str)
        ensures
            r@ == "contract-test"@,
    {
        "contract-test"
    }

    /// The targeted message, for benchmark labeling.
    pub fn extrinsic(&self) -> (r: &'static str)
        ensures
            r@ == "update_num"@,
    {
        "update_num"
    }

    /// Builds one signed message call for the given nonce.
    pub fn build(&self, nonce: u32) -> (r: Result<Extrinsic, BuildError>)
        requires
            spec_ctx_wf(self.ctx),
        ensures
            r is Ok <==> spec_ss58_valid(self.contract_addr@),
            r matches Ok(x) ==> spec_built_ok(self.ctx, x, nonce) && (x.call matches
                Call::ContractMessage { pallet_index, call_index, call: cc } && pallet_index
                == self.ctx.indices.contracts && call_index == self.ctx.indices.contracts_call
                && cc.dest@ == spec_ss58_account(self.contract_addr@) && cc.value == 0
                && cc.gas_limit == 0 && cc.storage_deposit_limit is None && cc.data@
                == spec_selector_update_num() + spec_i64_le(self.value)),
            r matches Err(e) ==> e == BuildError::MalformedAddress,
    {
        let dest = match ss58_decode(self.contract_addr.as_str()) {
            Some(d) => d,
            None => {
                return Err(BuildError::MalformedAddress);
            },
        };
        let sel = selector4(0xFB, 0xAF, 0x91, 0xE1);
        let args = scale_i64(self.value);
        let data = contract_call_data(&sel, &args);
        Ok(build_contract_message(&self.ctx, dest, data, nonce))
    }
}

/// Builds contract calls of the number-getter message.
pub struct InkGetNumBuilder {
    /// Chain context read once at setup.
    pub ctx: ChainContext,
    /// SS58 text of the deployed contract's address.
    pub contract_addr: String,
}

impl InkGetNumBuilder {
    /// Creates a builder over the given context and contract address.
    pub fn new(ctx: ChainContext, contract_addr: String) -> (s: Self)
        ensures
            s.ctx == ctx,
            s.contract_addr == contract_addr,
    {
        InkGetNumBuilder { ctx, contract_addr }
    }

    /// The targeted contract, for benchmark labeling.
    pub fn pallet(&self) -> (r: &'static str)
        ensures
            r@ == "contract-test"@,
    {
        "contract-test"
    }

    /// The targeted message, for benchmark labeling.
    pub fn extrinsic(&self) -> (r: &'static str)
        ensures
            r@ == "get_num"@,
    {
        "get_num"
    }

    /// Builds one signed message call for the given nonce: the payload is
    /// the bare selector, four bytes and nothing after them.
    pub fn build(&self, nonce: u32) -> (r: Result<Extrinsic, BuildError>)
        requires
            spec_ctx_wf(self.ctx),
        ensures
            r is Ok <==> spec_ss58_valid(self.contract_addr@),
            r matches Ok(x) ==> spec_built_ok(self.ctx, x, nonce) && (x.call matches
                Call::ContractMessage { pallet_index, call_index, call: cc } && pallet_index
                == self.ctx.indices.contracts && call_index == self.ctx.indices.contracts_call
                && cc.dest@ == spec_ss58_account(self.contract_addr@) && cc.value == 0
                && cc.gas_limit == 0 && cc.storage_deposit_limit is None && cc.data@
                == spec_selector_get_num()),
            r matches Err(e) ==> e == BuildError::MalformedAddress,
    {
        let dest = match ss58_decode(self.contract_addr.as_str()) {
            Some(d) => d,
            None => {
                return Err(BuildError::MalformedAddress);
            },
        };
        let sel = selector4(0xCF, 0xE3, 0x9F, 0xC5);
        let args: Vec<u8> = Vec::new();
        let data = contract_call_data(&sel, &args);
        proof {
            assert(data@ =~= spec_selector_get_num());
        }
        Ok(build_contract_message(&self.ctx, dest, data, nonce))
    }
}

/// Builds contract calls of the string-setter message, with a string
/// drawn at construction.
pub struct InkUpdateSBuilder {
    /// Chain context read once at setup.
    pub ctx: ChainContext,
    /// SS58 text of the deployed contract's address.
    pub contract_addr: String,
    /// The string to store, drawn once at construction: 100 alphanumeric
    /// ASCII characters.
    pub value: String,
}

impl InkUpdateSBuilder {
    /// Creates a builder over the given context and contract address; the
    /// string to store is drawn here, once.
    pub fn new(ctx: ChainContext, contract_addr: String) -> (s: Self)
        ensures
            s.ctx == ctx,
            s.contract_addr == contract_addr,
            is_ascii_chars(s.value@),
            s.value@.len() == 100,
    {
        let value = random_alphanumeric_string(100);
        proof {
            assert forall|i: int| 0 <= i < value@.len() implies '\0' <= #[trigger] value@[i]
                <= '\u{7f}' by {
                assert(spec_is_alphanumeric_ascii(value@[i]));
            }
        }
        InkUpdateSBuilder { ctx, contract_addr, value }
    }

    /// The targeted contract, for benchmark labeling.
    pub fn pallet(&self) -> (r: &'static str)
        ensures
            r@ == "contract-test"@,
    {
        "contract-test"
    }

    /// The targeted message, for benchmark labeling.
    pub fn extrinsic(&self) -> (r: &'static str)
        ensures
            r@ == "update_s"@,
    {
        "update_s"
    }

    /// Builds one signed message call for the given nonce: the selector,
    /// then the string length-prefixed.
    pub fn build(&self, nonce: u32) -> (r: Result<Extrinsic, BuildError>)
        requires
            spec_ctx_wf(self.ctx),
            is_ascii_chars(self.value@),
            self.value@.len() <= 0x1000000,
        ensures
            r is Ok <==> spec_ss58_valid(self.contract_addr@),
            r matches Ok(x) ==> spec_built_ok(self.ctx, x, nonce) && (x.call matches
                Call::ContractMessage { pallet_index, call_index, call: cc } && pallet_index
                == self.ctx.indices.contracts && call_index == self.ctx.indices.contracts_call
                && cc.dest@ == spec_ss58_account(self.contract_addr@) && cc.value == 0
                && cc.gas_limit == 0 && cc.storage_deposit_limit is None && cc.data@
                == spec_selector_update_s() + spec_scale_bytes(encode_utf8(self.value@))),
            r matches Err(e) ==> e == BuildError::MalformedAddress,
    {
        let dest = match ss58_decode(self.contract_addr.as_str()) {
            Some(d) => d,
            None => {
                return Err(BuildError::MalformedAddress);
            },
        };
        proof {
            is_ascii_chars_encode_utf8(self.value@);
            crate::scale::lemma_compact_u32_len(encode_utf8(self.value@).len() as u32);
        }
        let sel = selector4(0x90, 0xC9, 0xB3, 0xF8);
        let args = scale_str(self.value.as_str());
        let data = contract_call_data(&sel, &args);
        Ok(build_contract_message(&self.ctx, dest, data, nonce))
    }
}

/// Builds contract calls of the string-getter message.
pub struct InkGetSBuilder {
    /// Chain context read once at setup.
    pub ctx: ChainContext,
    /// SS58 text of the deployed contract's address.
    pub contract_addr: String,
}

impl InkGetSBuilder {
    /// Creates a builder over the given context and contract address.
    pub fn new(ctx: ChainContext, contract_addr: String) -> (s: Self)
        ensures
            s.ctx == ctx,
            s.contract_addr == contract_addr,
    {
        InkGetSBuilder { ctx, contract_addr }
    }

    /// The targeted contract, for benchmark labeling.
    pub fn pallet(&self) -> (r: &'static str)
        ensures
            r@ == "contract-test"@,
    {
        "contract-test"
    }

    /// The targeted message, for benchmark labeling.
    pub fn extrinsic(&self) -> (r: &'static str)
        ensures
            r@ == "get_s"@,
    {
        "get_s"
    }

    /// Builds one signed message call for the given nonce.
    pub fn build(&self, nonce: u32) -> (r: Result<Extrinsic, BuildError>)
        requires
            spec_ctx_wf(self.ctx),
        ensures
            r is Ok <==> spec_ss58_valid(self.contract_addr@),
            r matches Ok(x) ==> spec_built_ok(self.ctx, x, nonce) && (x.call matches
                Call::ContractMessage { pallet_index, call_index, call: cc } && pallet_index
                == self.ctx.indices.contracts && call_index == self.ctx.indices.contracts_call
                && cc.dest@ == spec_ss58_account(self.contract_addr@) && cc.value == 0
                && cc.gas_limit == 0 && cc.storage_deposit_limit is None && cc.data@
                == spec_selector_get_s()),
            r matches Err(e) ==> e == BuildError::MalformedAddress,
    {
        let dest = match ss58_decode(self.contract_addr.as_str()) {
            Some(d) => d,
            None => {
                return Err(BuildError::MalformedAddress);
            },
        };
        let sel = selector4(0xA9, 0xE8, 0x9D, 0x26);
        let args: Vec<u8> = Vec::new();
        let data = contract_call_data(&sel, &args);
        proof {
            assert(data@ =~= spec_selector_get_s());
        }
        Ok(build_contract_message(&self.ctx, dest, data, nonce))
    }
}

/// Builds contract calls of the fibonacci workload message.
pub struct InkFibonacciBuilder {
    /// Chain context read once at setup.
    pub ctx: ChainContext,
    /// SS58 text of the deployed contract's address.
    pub contract_addr: String,
}

impl InkFibonacciBuilder {
    /// Creates a builder over the given context and contract address.
    pub fn new(ctx: ChainContext, contract_addr: String) -> (s: Self)
        ensures
            s.ctx == ctx,
            s.contract_addr == contract_addr,
    {
        InkFibonacciBuilder { ctx, contract_addr }
    }

    /// The targeted contract, for benchmark labeling.
    pub fn pallet(&self) -> (r: &'static str)
        ensures
            r@ == "contract-test"@,
    {
        "contract-test"
    }

    /// The targeted message, for benchmark labeling.
    pub fn extrinsic(&self) -> (r: &'static str)
        ensures
            r@ == "fibonacci"@,
    {
        "fibonacci"
    }

    /// Builds one signed message call for the given nonce, passing the
    /// fixed workload input.
    pub fn build(&self, nonce: u32) -> (r: Result<Extrinsic, BuildError>)
        requires
            spec_ctx_wf(self.ctx),
        ensures
            r is Ok <==> spec_ss58_valid(self.contract_addr@),
            r matches Ok(x) ==> spec_built_ok(self.ctx, x, nonce) && (x.call matches
                Call::ContractMessage { pallet_index, call_index, call: cc } && pallet_index
                == self.ctx.indices.contracts && call_index == self.ctx.indices.contracts_call
                && cc.dest@ == spec_ss58_account(self.contract_addr@) && cc.value == 0
                && cc.gas_limit == 0 && cc.storage_deposit_limit is None && cc.data@
                == spec_selector_fibonacci() + spec_u32_le(CONTRACT_WORKLOAD_INPUT)),
            r matches Err(e) ==> e == BuildError::MalformedAddress,
    {
        let dest = match ss58_decode(self.contract_addr.as_str()) {
            Some(d) => d,
            None => {
                return Err(BuildError::MalformedAddress);
            },
        };
        let sel = selector4(0x3C, 0x87, 0x40, 0x79);
        let args = scale_u32(CONTRACT_WORKLOAD_INPUT);
        let data = contract_call_data(&sel, &args);
        Ok(build_contract_message(&self.ctx, dest, data, nonce))
    }
}

/// Builds contract calls of the odd-product workload message.
pub struct InkOddProductBuilder {
    /// Chain context read once at setup.
    pub ctx: ChainContext,
    /// SS58 text of the deployed contract's address.
    pub contract_addr: String,
}

impl InkOddProductBuilder {
    /// Creates a builder over the given context and contract address.
    pub fn new(ctx: ChainContext, contract_addr: String) -> (s: Self)
        ensures
            s.ctx == ctx,
            s.contract_addr == contract_addr,
    {
        InkOddProductBuilder { ctx, contract_addr }
    }

    /// The targeted contract, for benchmark labeling.
    pub fn pallet(&self) -> (r: &'static str)
        ensures
            r@ == "contract-test"@,
    {
        "contract-test"
    }

    /// The targeted message, for benchmark labeling.
    pub fn extrinsic(&self) -> (r: &'static str)
        ensures
            r@ == "odd_product"@,
    {
        "odd_product"
    }

    /// Builds one signed message call for the given nonce, passing the
    /// fixed workload input.
    pub fn build(&self, nonce: u32) -> (r: Result<Extrinsic, BuildError>)
        requires
            spec_ctx_wf(self.ctx),
        ensures
            r is Ok <==> spec_ss58_valid(self.contract_addr@),
            r matches Ok(x) ==> spec_built_ok(self.ctx, x, nonce) && (x.call matches
                Call::ContractMessage { pallet_index, call_index, call: cc } && pallet_index
                == self.ctx.indices.contracts && call_index == self.ctx.indices.contracts_call
                && cc.dest@ == spec_ss58_account(self.contract_addr@) && cc.value == 0
                && cc.gas_limit == 0 && cc.storage_deposit_limit is None && cc.data@
                == spec_selector_odd_product() + spec_u32_le(CONTRACT_WORKLOAD_INPUT)),
            r matches Err(e) ==> e == BuildError::MalformedAddress,
    {
        let dest = match ss58_decode(self.contract_addr.as_str()) {
            Some(d) => d,
            None => {
                return Err(BuildError::MalformedAddress);
            },
        };
        let sel = selector4(0x2A, 0xC6, 0x52, 0x85);
        let args = scale_u32(CONTRACT_WORKLOAD_INPUT);
        let data = contract_call_data(&sel, &args);
        Ok(build_contract_message(&self.ctx, dest, data, nonce))
    }
}

/// Builds contract calls of the triangle-number workload message.
pub struct InkTriangleNumberBuilder {
    /// Chain context read once at setup.
    pub ctx: ChainContext,
    /// SS58 text of the deployed contract's address.
    pub contract_addr: String,
}

impl InkTriangleNumberBuilder {
    /// Creates a builder over the given context and contract address.
    pub fn new(ctx: ChainContext, contract_addr: String) -> (s: Self)
        ensures
            s.ctx == ctx,
            s.contract_addr == contract_addr,
    {
        InkTriangleNumberBuilder { ctx, contract_addr }
    }

    /// The targeted contract, for benchmark labeling.
    pub fn pallet(&self) -> (r: &'static str)
        ensures
            r@ == "contract-test"@,
    {
        "contract-test"
    }

    /// The targeted message, for benchmark labeling.
    pub fn extrinsic(&self) -> (r: &'static str)
        ensures
            r@ == "triangle_number"@,
    {
        "triangle_number"
    }

    /// Builds one signed message call for the given nonce, passing the
    /// fixed workload input.
    pub fn build(&self, nonce: u32) -> (r: Result<Extrinsic, BuildError>)
        requires
            spec_ctx_wf(self.ctx),
        ensures
            r is Ok <==> spec_ss58_valid(self.contract_addr@),
            r matches Ok(x) ==> spec_built_ok(self.ctx, x, nonce) && (x.call matches
                Call::ContractMessage { pallet_index, call_index, call: cc } && pallet_index
                == self.ctx.indices.contracts && call_index == self.ctx.indices.contracts_call
                && cc.dest@ == spec_ss58_account(self.contract_addr@) && cc.value == 0
                && cc.gas_limit == 0 && cc.storage_deposit_limit is None && cc.data@
                == spec_selector_triangle_number() + spec_u32_le(CONTRACT_WORKLOAD_INPUT)),
            r matches Err(e) ==> e == BuildError::MalformedAddress,
    {
        let dest = match ss58_decode(self.contract_addr.as_str()) {
            Some(d) => d,
            None => {
                return Err(BuildError::MalformedAddress);
            },
        };
        let sel = selector4(0x8E, 0x70, 0x88, 0x51);
        let args = scale_u32(CONTRACT_WORKLOAD_INPUT);
        let data = contract_call_data(&sel, &args);
        Ok(build_contract_message(&self.ctx, dest, data, nonce))
    }
}

/// Builds contract calls of the sample-event emitter message.
pub struct InkSampleEmitBuilder {
    /// Chain context read once at setup.
    pub ctx: ChainContext,
    /// SS58 text of the deployed contract's address.
    pub contract_addr: String,
}

impl InkSampleEmitBuilder {
    /// Creates a builder over the given context and contract address.
    pub fn new(ctx: ChainContext, contract_addr: String) -> (s: Self)
        ensures
            s.ctx == ctx,
            s.contract_addr == contract_addr,
    {
        InkSampleEmitBuilder { ctx, contract_addr }
    }

    /// The targeted contract, for benchmark labeling.
    pub fn pallet(&self) -> (r: &'static str)
        ensures
            r@ == "contract-test"@,
    {
        "contract-test"
    }

    /// The targeted message, for benchmark labeling.
    pub fn extrinsic(&self) -> (r: &'static str)
        ensures
            r@ == "emit_sample_event"@,
    {
        "emit_sample_event"
    }

    /// Builds one signed message call for the given nonce.
    pub fn build(&self, nonce: u32) -> (r: Result<Extrinsic, BuildError>)
        requires
            spec_ctx_wf(self.ctx),
        ensures
            r is Ok <==> spec_ss58_valid(self.contract_addr@),
            r matches Ok(x) ==> spec_built_ok(self.ctx, x, nonce) && (x.call matches
                Call::ContractMessage { pallet_index, call_index, call: cc } && pallet_index
                == self.ctx.indices.contracts && call_index == self.ctx.indices.contracts_call
                && cc.dest@ == spec_ss58_account(self.contract_addr@) && cc.value == 0
                && cc.gas_limit == 0 && cc.storage_deposit_limit is None && cc.data@
                == spec_selector_emit_sample_event()),
            r matches Err(e) ==> e == BuildError::MalformedAddress,
    {
        let dest = match ss58_decode(self.contract_addr.as_str()) {
            Some(d) => d,
            None => {
                return Err(BuildError::MalformedAddress);
            },
        };
        let sel = selector4(0x43, 0x5A, 0x64, 0x4F);
        let args: Vec<u8> = Vec::new();
        let data = contract_call_data(&sel, &args);
        proof {
            assert(data@ =~= spec_selector_emit_sample_event());
        }
        Ok(build_contract_message(&self.ctx, dest, data, nonce))
    }
}

/// Builds contract calls of the cross-contract store message: the caller
/// contract forwards a fixed number into the callee contract.
pub struct InkCrossContractCallBuilder {
    /// Chain context read once at setup.
    pub ctx: ChainContext,
    /// SS58 text of the calling contract's address.
    pub contract_addr: String,
    /// SS58 text of the callee contract's address.
    pub callee_contract_addr: String,
}

impl InkCrossContractCallBuilder {
    /// Creates a builder over the given context and the two contract
    /// addresses.
    pub fn new(ctx: ChainContext, contract_addr: String, callee_contract_addr: String) -> (s:
        Self)
        ensures
            s.ctx == ctx,
            s.contract_addr == contract_addr,
            s.callee_contract_addr == callee_contract_addr,
    {
        InkCrossContractCallBuilder { ctx, contract_addr, callee_contract_addr }
    }

    /// The targeted contract, for benchmark labeling.
    pub fn pallet(&self) -> (r: &'static str)
        ensures
            r@ == "contract-test"@,
    {
        "contract-test"
    }

    /// The targeted message, for benchmark labeling.
    pub fn extrinsic(&self) -> (r: &'static str)
        ensures
            r@ == "cross_contract_call"@,
    {
        "cross_contract_call"
    }

    /// Builds one signed message call for the given nonce: the selector,
    /// the callee's 32 account bytes, and the number to store.
    pub fn build(&self, nonce: u32) -> (r: Result<Extrinsic, BuildError>)
        requires
            spec_ctx_wf(self.ctx),
        ensures
            r is Ok <==> spec_ss58_valid(self.contract_addr@) && spec_ss58_valid(
                self.callee_contract_addr@,
            ),
            r matches Ok(x) ==> spec_built_ok(self.ctx, x, nonce) && (x.call matches
                Call::ContractMessage { pallet_index, call_index, call: cc } && pallet_index
                == self.ctx.indices.contracts && call_index == self.ctx.indices.contracts_call
                && cc.dest@ == spec_ss58_account(self.contract_addr@) && cc.value == 0
                && cc.gas_limit == 0 && cc.storage_deposit_limit is None && cc.data@
                == spec_selector_cross_contract_call() + spec_ss58_account(
                self.callee_contract_addr@,
            ) + spec_i64_le(CROSS_CONTRACT_STORE_VALUE)),
            r matches Err(e) ==> e == BuildError::MalformedAddress,
    {
        let callee = match ss58_decode(self.callee_contract_addr.as_str()) {
            Some(d) => d,
            None => {
                return Err(BuildError::MalformedAddress);
            },
        };
        let dest = match ss58_decode(self.contract_addr.as_str()) {
            Some(d) => d,
            None => {
                return Err(BuildError::MalformedAddress);
            },
        };
        let sel = selector4(0x5A, 0xCC, 0xC8, 0x95);
        let mut args = callee;
        let mut piece = scale_i64(CROSS_CONTRACT_STORE_VALUE);
        args.append(&mut piece);
        let data = contract_call_data(&sel, &args);
        proof {
            assert(data@ =~= spec_selector_cross_contract_call() + spec_ss58_account(
                self.callee_contract_addr@,
            ) + spec_i64_le(CROSS_CONTRACT_STORE_VALUE));
        }
        Ok(build_contract_message(&self.ctx, dest, data, nonce))
    }
}

} // verus!
