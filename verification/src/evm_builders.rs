//! Extrinsic builders for solidity-style contracts.
//!
//! Two deployments are driven. A solidity contract compiled to WASM sits
//! behind the contracts module like any other contract, but its messages
//! are addressed by ABI-encoded call data, kept here as fixed hex texts.
//! A native EVM deployment is driven through the EVM module by one
//! generic builder, parameterized with address texts and a hex input read
//! from a file, so any function of any target can be invoked without new
//! code. Numeric transaction fields use fixed benchmarking defaults, not
//! production fee-market values.

use vstd::prelude::*;
use crate::calls::{Call, EvmCall};
use crate::extrinsic::{ChainContext, Extrinsic, spec_ctx_wf, create_benchmark_extrinsic};
use crate::builders::{BuildError, spec_built_ok, build_contract_message};
use crate::address::{
    spec_ss58_valid, spec_ss58_account, ss58_decode, spec_evm_address_valid,
    evm_address_from_text,
};
use crate::hex::{spec_hex_valid, spec_hex_to_bytes, hex_string_to_bytes};
use vstd::string::StringExecFns;

verus! {

/// Gas limit every generic EVM benchmark call uses.
pub const EVM_CALL_GAS_LIMIT: u64 = 42949672;

/// Fee ceiling per unit of gas every generic EVM benchmark call uses.
pub const EVM_CALL_MAX_FEE_PER_GAS: u128 = 1000000000;

/// ABI call data of the solidity number setter, with its argument.
pub open spec fn spec_solidity_set_some_num_data() -> Seq<char> {
    "9ac1762f00000000000000000000000000000000000000000000000000000000000002d9"@
}

/// ABI call data of the solidity number getter.
pub open spec fn spec_solidity_get_some_num_data() -> Seq<char> {
    "b40a136b"@
}

/// ABI call data of the solidity string setter, with its argument.
pub open spec fn spec_solidity_set_some_str_data() -> Seq<char> {
    "0583a02c0000000000000000000000000000000000000000000000000000000000000020000000000000000000000000000000000000000000000000000000000000001a536f6c6964697479207761736d206f6e20737562737472617465000000000000"@
}

/// ABI call data of the solidity string getter.
pub open spec fn spec_solidity_get_some_str_data() -> Seq<char> {
    "5e9c155e"@
}

/// ABI call data of the solidity fibonacci workload, with its input.
pub open spec fn spec_solidity_fibonacci_data() -> Seq<char> {
    "61047ff4000000000000000000000000000000000000000000000000000000000000000f"@
}

/// ABI call data of the solidity odd-product workload, with its input.
pub open spec fn spec_solidity_odd_product_data() -> Seq<char> {
    "113d5646000000000000000000000000000000000000000000000000000000000000000f"@
}

/// ABI call data of the solidity triangle-number workload, with its
/// input.
pub open spec fn spec_solidity_triangle_number_data() -> Seq<char> {
    "8187c52b000000000000000000000000000000000000000000000000000000000000000f"@
}

/// ABI call data of the solidity sample-event emitter.
pub open spec fn spec_solidity_sample_event_data() -> Seq<char> {
    "93063bb1"@
}

/// Builds solidity-WASM calls of the number setter.
pub struct SoliditySetSomeNumBuilder {
    /// Chain context read once at setup.
    pub ctx: ChainContext,
    /// SS58 text of the deployed contract's address.
    pub contract_addr: String,
}

impl SoliditySetSomeNumBuilder {
    /// Creates a builder over the given context and contract address.
    pub fn new(ctx: ChainContext, contract_addr: String) -> (s: Self)
        ensures
            s.ctx == ctx,
            s.contract_addr == contract_addr,
    {
        SoliditySetSomeNumBuilder { ctx, contract_addr }
    }

    /// The targeted deployment, for benchmark labeling.
    pub fn pallet(&self) -> (r: &'static str)
        ensures
            r@ == "solidity_wasm"@,
    {
        "solidity_wasm"
    }

    /// The targeted function, for benchmark labeling.
    pub fn extrinsic(&self) -> (r: &'static str)
        ensures
            r@ == "set_some_num"@,
    {
        "set_some_num"
    }

    /// Builds one signed call for the given nonce: the fixed ABI call
    /// data as the contract payload.
    pub fn build(&self, nonce: u32) -> (r: Result<Extrinsic, BuildError>)
        requires
            spec_ctx_wf(self.ctx),
        ensures
            r is Ok <==> spec_ss58_valid(self.contract_addr@),
            r matches Ok(x) ==> spec_built_ok(self.ctx, x, nonce) && (x.call matches
                Call::ContractMessage { pallet_index, call_index, call: cc } && pallet_index
                == self.ctx.indices.contracts && call_index == self.ctx.indices.contracts_call
                && cc.dest@ == spec_ss58_account(self.contract_addr@) && cc.value == 0
                && cc.gas_limit == 0 && cc.storage_deposit_limit is None && cc.data@
                == spec_hex_to_bytes(spec_solidity_set_some_num_data())),
            r matches Err(e) ==> e == BuildError::MalformedAddress,
    {
        let dest = match ss58_decode(self.contract_addr.as_str()) {
            Some(d) => d,
            None => {
                return Err(BuildError::MalformedAddress);
            },
        };
        let text = String::from_str(
            "9ac1762f00000000000000000000000000000000000000000000000000000000000002d9",
        );
        proof {
            reveal_strlit(
                "9ac1762f00000000000000000000000000000000000000000000000000000000000002d9",
            );
            assert(spec_hex_valid(text@));
        }
        let data = match hex_string_to_bytes(&text) {
            Some(d) => d,
            None => {
                return Err(BuildError::MalformedAddress);
            },
        };
        Ok(build_contract_message(&self.ctx, dest, data, nonce))
    }
}

/// Builds solidity-WASM calls of the number getter.
pub struct SolidityGetSomeNumBuilder {
    /// Chain context read once at setup.
    pub ctx: ChainContext,
    /// SS58 text of the deployed contract's address.
    pub contract_addr: String,
}

impl SolidityGetSomeNumBuilder {
    /// Creates a builder over the given context and contract address.
    pub fn new(ctx: ChainContext, contract_addr: String) -> (s: Self)
        ensures
            s.ctx == ctx,
            s.contract_addr == contract_addr,
    {
        SolidityGetSomeNumBuilder { ctx, contract_addr }
    }

    /// The targeted deployment, for benchmark labeling.
    pub fn pallet(&self) -> (r: &'static str)
        ensures
            r@ == "solidity_wasm"@,
    {
        "solidity_wasm"
    }

    /// The targeted function, for benchmark labeling.
    pub fn extrinsic(&self) -> (r: &'static str)
        ensures
            r@ == "get_some_num"@,
    {
        "get_some_num"
    }

    /// Builds one signed call for the given nonce: the fixed ABI call
    /// data as the contract payload.
    pub fn build(&self, nonce: u32) -> (r: Result<Extrinsic, BuildError>)
        requires
            spec_ctx_wf(self.ctx),
        ensures
            r is Ok <==> spec_ss58_valid(self.contract_addr@),
            r matches Ok(x) ==> spec_built_ok(self.ctx, x, nonce) && (x.call matches
                Call::ContractMessage { pallet_index, call_index, call: cc } && pallet_index
                == self.ctx.indices.contracts && call_index == self.ctx.indices.contracts_call
                && cc.dest@ == spec_ss58_account(self.contract_addr@) && cc.value == 0
                && cc.gas_limit == 0 && cc.storage_deposit_limit is None && cc.data@
                == spec_hex_to_bytes(spec_solidity_get_some_num_data())),
            r matches Err(e) ==> e == BuildError::MalformedAddress,
    {
        let dest = match ss58_decode(self.contract_addr.as_str()) {
            Some(d) => d,
            None => {
                return Err(BuildError::MalformedAddress);
            },
        };
        let text = String::from_str(
            "b40a136b",
        );
        proof {
            reveal_strlit(
                "b40a136b",
            );
            assert(spec_hex_valid(text@));
        }
        let data = match hex_string_to_bytes(&text) {
            Some(d) => d,
            None => {
                return Err(BuildError::MalformedAddress);
            },
        };
        Ok(build_contract_message(&self.ctx, dest, data, nonce))
    }
}

/// Builds solidity-WASM calls of the string setter.
pub struct SoliditySetSomeStrBuilder {
    /// Chain context read once at setup.
    pub ctx: ChainContext,
    /// SS58 text of the deployed contract's address.
    pub contract_addr: String,
}

impl SoliditySetSomeStrBuilder {
    /// Creates a builder over the given context and contract address.
    pub fn new(ctx: ChainContext, contract_addr: String) -> (s: Self)
        ensures
            s.ctx == ctx,
            s.contract_addr == contract_addr,
    {
        SoliditySetSomeStrBuilder { ctx, contract_addr }
    }

    /// The targeted deployment, for benchmark labeling.
    pub fn pallet(&self) -> (r: &'static str)
        ensures
            r@ == "solidity_wasm"@,
    {
        "solidity_wasm"
    }

    /// The targeted function, for benchmark labeling.
    pub fn extrinsic(&self) -> (r: &'static str)
        ensures
            r@ == "set_some_str"@,
    {
        "set_some_str"
    }

    /// Builds one signed call for the given nonce: the fixed ABI call
    /// data as the contract payload.
    pub fn build(&self, nonce: u32) -> (r: Result<Extrinsic, BuildError>)
        requires
            spec_ctx_wf(self.ctx),
        ensures
            r is Ok <==> spec_ss58_valid(self.contract_addr@),
            r matches Ok(x) ==> spec_built_ok(self.ctx, x, nonce) && (x.call matches
                Call::ContractMessage { pallet_index, call_index, call: cc } && pallet_index
                == self.ctx.indices.contracts && call_index == self.ctx.indices.contracts_call
                && cc.dest@ == spec_ss58_account(self.contract_addr@) && cc.value == 0
                && cc.gas_limit == 0 && cc.storage_deposit_limit is None && cc.data@
                == spec_hex_to_bytes(spec_solidity_set_some_str_data())),
            r matches Err(e) ==> e == BuildError::MalformedAddress,
    {
        let dest = match ss58_decode(self.contract_addr.as_str()) {
            Some(d) => d,
            None => {
                return Err(BuildError::MalformedAddress);
            },
        };
        let text = String::from_str(
            "0583a02c0000000000000000000000000000000000000000000000000000000000000020000000000000000000000000000000000000000000000000000000000000001a536f6c6964697479207761736d206f6e20737562737472617465000000000000",
        );
        proof {
            reveal_strlit(
                "0583a02c0000000000000000000000000000000000000000000000000000000000000020000000000000000000000000000000000000000000000000000000000000001a536f6c6964697479207761736d206f6e20737562737472617465000000000000",
            );
            assert(spec_hex_valid(text@));
        }
        let data = match hex_string_to_bytes(&text) {
            Some(d) => d,
            None => {
                return Err(BuildError::MalformedAddress);
            },
        };
        Ok(build_contract_message(&self.ctx, dest, data, nonce))
    }
}

/// Builds solidity-WASM calls of the string getter.
pub struct SolidityGetSomeStrBuilder {
    /// Chain context read once at setup.
    pub ctx: ChainContext,
    /// SS58 text of the deployed contract's address.
    pub contract_addr: String,
}

impl SolidityGetSomeStrBuilder {
    /// Creates a builder over the given context and contract address.
    pub fn new(ctx: ChainContext, contract_addr: String) -> (s: Self)
        ensures
            s.ctx == ctx,
            s.contract_addr == contract_addr,
    {
        SolidityGetSomeStrBuilder { ctx, contract_addr }
    }

    /// The targeted deployment, for benchmark labeling.
    pub fn pallet(&self) -> (r: &'static str)
        ensures
            r@ == "solidity_wasm"@,
    {
        "solidity_wasm"
    }

    /// The targeted function, for benchmark labeling.
    pub fn extrinsic(&self) -> (r: &'static str)
        ensures
            r@ == "get_some_str"@,
    {
        "get_some_str"
    }

    /// Builds one signed call for the given nonce: the fixed ABI call
    /// data as the contract payload.
    pub fn build(&self, nonce: u32) -> (r: Result<Extrinsic, BuildError>)
        requires
            spec_ctx_wf(self.ctx),
        ensures
            r is Ok <==> spec_ss58_valid(self.contract_addr@),
            r matches Ok(x) ==> spec_built_ok(self.ctx, x, nonce) && (x.call matches
                Call::ContractMessage { pallet_index, call_index, call: cc } && pallet_index
                == self.ctx.indices.contracts && call_index == self.ctx.indices.contracts_call
                && cc.dest@ == spec_ss58_account(self.contract_addr@) && cc.value == 0
                && cc.gas_limit == 0 && cc.storage_deposit_limit is None && cc.data@
                == spec_hex_to_bytes(spec_solidity_get_some_str_data())),
            r matches Err(e) ==> e == BuildError::MalformedAddress,
    {
        let dest = match ss58_decode(self.contract_addr.as_str()) {
            Some(d) => d,
            None => {
                return Err(BuildError::MalformedAddress);
            },
        };
        let text = String::from_str(
            "5e9c155e",
        );
        proof {
            reveal_strlit(
                "5e9c155e",
            );
            assert(spec_hex_valid(text@));
        }
        let data = match hex_string_to_bytes(&text) {
            Some(d) => d,
            None => {
                return Err(BuildError::MalformedAddress);
            },
        };
        Ok(build_contract_message(&self.ctx, dest, data, nonce))
    }
}

/// Builds solidity-WASM calls of the fibonacci workload.
pub struct SolidityFibonacciBuilder {
    /// Chain context read once at setup.
    pub ctx: ChainContext,
    /// SS58 text of the deployed contract's address.
    pub contract_addr: String,
}

impl SolidityFibonacciBuilder {
    /// Creates a builder over the given context and contract address.
    pub fn new(ctx: ChainContext, contract_addr: String) -> (s: Self)
        ensures
            s.ctx == ctx,
            s.contract_addr == contract_addr,
    {
        SolidityFibonacciBuilder { ctx, contract_addr }
    }

    /// The targeted deployment, for benchmark labeling.
    pub fn pallet(&self) -> (r: &'static str)
        ensures
            r@ == "solidity_wasm"@,
    {
        "solidity_wasm"
    }

    /// The targeted function, for benchmark labeling.
    pub fn extrinsic(&self) -> (r: &'static str)
        ensures
            r@ == "fibonacci"@,
    {
        "fibonacci"
    }

    /// Builds one signed call for the given nonce: the fixed ABI call
    /// data as the contract payload.
    pub fn build(&self, nonce: u32) -> (r: Result<Extrinsic, BuildError>)
        requires
            spec_ctx_wf(self.ctx),
        ensures
            r is Ok <==> spec_ss58_valid(self.contract_addr@),
            r matches Ok(x) ==> spec_built_ok(self.ctx, x, nonce) && (x.call matches
                Call::ContractMessage { pallet_index, call_index, call: cc } && pallet_index
                == self.ctx.indices.contracts && call_index == self.ctx.indices.contracts_call
                && cc.dest@ == spec_ss58_account(self.contract_addr@) && cc.value == 0
                && cc.gas_limit == 0 && cc.storage_deposit_limit is None && cc.data@
                == spec_hex_to_bytes(spec_solidity_fibonacci_data())),
            r matches Err(e) ==> e == BuildError::MalformedAddress,
    {
        let dest = match ss58_decode(self.contract_addr.as_str()) {
            Some(d) => d,
            None => {
                return Err(BuildError::MalformedAddress);
            },
        };
        let text = String::from_str(
            "61047ff4000000000000000000000000000000000000000000000000000000000000000f",
        );
        proof {
            reveal_strlit(
                "61047ff4000000000000000000000000000000000000000000000000000000000000000f",
            );
            assert(spec_hex_valid(text@));
        }
        let data = match hex_string_to_bytes(&text) {
            Some(d) => d,
            None => {
                return Err(BuildError::MalformedAddress);
            },
        };
        Ok(build_contract_message(&self.ctx, dest, data, nonce))
    }
}

/// Builds solidity-WASM calls of the odd-product workload.
pub struct SolidityOddProductBuilder {
    /// Chain context read once at setup.
    pub ctx: ChainContext,
    /// SS58 text of the deployed contract's address.
    pub contract_addr: String,
}

impl SolidityOddProductBuilder {
    /// Creates a builder over the given context and contract address.
    pub fn new(ctx: ChainContext, contract_addr: String) -> (s: Self)
        ensures
            s.ctx == ctx,
            s.contract_addr == contract_addr,
    {
        SolidityOddProductBuilder { ctx, contract_addr }
    }

    /// The targeted deployment, for benchmark labeling.
    pub fn pallet(&self) -> (r: &'static str)
        ensures
            r@ == "solidity_wasm"@,
    {
        "solidity_wasm"
    }

    /// The targeted function, for benchmark labeling.
    pub fn extrinsic(&self) -> (r: &'static str)
        ensures
            r@ == "odd_product"@,
    {
        "odd_product"
    }

    /// Builds one signed call for the given nonce: the fixed ABI call
    /// data as the contract payload.
    pub fn build(&self, nonce: u32) -> (r: Result<Extrinsic, BuildError>)
        requires
            spec_ctx_wf(self.ctx),
        ensures
            r is Ok <==> spec_ss58_valid(self.contract_addr@),
            r matches Ok(x) ==> spec_built_ok(self.ctx, x, nonce) && (x.call matches
                Call::ContractMessage { pallet_index, call_index, call: cc } && pallet_index
                == self.ctx.indices.contracts && call_index == self.ctx.indices.contracts_call
                && cc.dest@ == spec_ss58_account(self.contract_addr@) && cc.value == 0
                && cc.gas_limit == 0 && cc.storage_deposit_limit is None && cc.data@
                == spec_hex_to_bytes(spec_solidity_odd_product_data())),
            r matches Err(e) ==> e == BuildError::MalformedAddress,
    {
        let dest = match ss58_decode(self.contract_addr.as_str()) {
            Some(d) => d,
            None => {
                return Err(BuildError::MalformedAddress);
            },
        };
        let text = String::from_str(
            "113d5646000000000000000000000000000000000000000000000000000000000000000f",
        );
        proof {
            reveal_strlit(
                "113d5646000000000000000000000000000000000000000000000000000000000000000f",
            );
            assert(spec_hex_valid(text@));
        }
        let data = match hex_string_to_bytes(&text) {
            Some(d) => d,
            None => {
                return Err(BuildError::MalformedAddress);
            },
        };
        Ok(build_contract_message(&self.ctx, dest, data, nonce))
    }
}

/// Builds solidity-WASM calls of the triangle-number workload.
pub struct SolidityTriangleNumBuilder {
    /// Chain context read once at setup.
    pub ctx: ChainContext,
    /// SS58 text of the deployed contract's address.
    pub contract_addr: String,
}

impl SolidityTriangleNumBuilder {
    /// Creates a builder over the given context and contract address.
    pub fn new(ctx: ChainContext, contract_addr: String) -> (s: Self)
        ensures
            s.ctx == ctx,
            s.contract_addr == contract_addr,
    {
        SolidityTriangleNumBuilder { ctx, contract_addr }
    }

    /// The targeted deployment, for benchmark labeling.
    pub fn pallet(&self) -> (r: &'static str)
        ensures
            r@ == "solidity_wasm"@,
    {
        "solidity_wasm"
    }

    /// The targeted function, for benchmark labeling.
    pub fn extrinsic(&self) -> (r: &'static str)
        ensures
            r@ == "triangle_number"@,
    {
        "triangle_number"
    }

    /// Builds one signed call for the given nonce: the fixed ABI call
    /// data as the contract payload.
    pub fn build(&self, nonce: u32) -> (r: Result<Extrinsic, BuildError>)
        requires
            spec_ctx_wf(self.ctx),
        ensures
            r is Ok <==> spec_ss58_valid(self.contract_addr@),
            r matches Ok(x) ==> spec_built_ok(self.ctx, x, nonce) && (x.call matches
                Call::ContractMessage { pallet_index, call_index, call: cc } && pallet_index
                == self.ctx.indices.contracts && call_index == self.ctx.indices.contracts_call
                && cc.dest@ == spec_ss58_account(self.contract_addr@) && cc.value == 0
                && cc.gas_limit == 0 && cc.storage_deposit_limit is None && cc.data@
                == spec_hex_to_bytes(spec_solidity_triangle_number_data())),
            r matches Err(e) ==> e == BuildError::MalformedAddress,
    {
        let dest = match ss58_decode(self.contract_addr.as_str()) {
            Some(d) => d,
            None => {
                return Err(BuildError::MalformedAddress);
            },
        };
        let text = String::from_str(
            "8187c52b000000000000000000000000000000000000000000000000000000000000000f",
        );
        proof {
            reveal_strlit(
                "8187c52b000000000000000000000000000000000000000000000000000000000000000f",
            );
            assert(spec_hex_valid(text@));
        }
        let data = match hex_string_to_bytes(&text) {
            Some(d) => d,
            None => {
                return Err(BuildError::MalformedAddress);
            },
        };
        Ok(build_contract_message(&self.ctx, dest, data, nonce))
    }
}

/// Builds solidity-WASM calls of the sample-event emitter.
pub struct SoliditySampleEventBuilder {
    /// Chain context read once at setup.
    pub ctx: ChainContext,
    /// SS58 text of the deployed contract's address.
    pub contract_addr: String,
}

impl SoliditySampleEventBuilder {
    /// Creates a builder over the given context and contract address.
    pub fn new(ctx: ChainContext, contract_addr: String) -> (s: Self)
        ensures
            s.ctx == ctx,
            s.contract_addr == contract_addr,
    {
        SoliditySampleEventBuilder { ctx, contract_addr }
    }

    /// The targeted deployment, for benchmark labeling.
    pub fn pallet(&self) -> (r: &'static str)
        ensures
            r@ == "solidity_wasm"@,
    {
        "solidity_wasm"
    }

    /// The targeted function, for benchmark labeling.
    pub fn extrinsic(&self) -> (r: &'static str)
        ensures
            r@ == "emit_sample_event"@,
    {
        "emit_sample_event"
    }

    /// Builds one signed call for the given nonce: the fixed ABI call
    /// data as the contract payload.
    pub fn build(&self, nonce: u32) -> (r: Result<Extrinsic, BuildError>)
        requires
            spec_ctx_wf(self.ctx),
        ensures
            r is Ok <==> spec_ss58_valid(self.contract_addr@),
            r matches Ok(x) ==> spec_built_ok(self.ctx, x, nonce) && (x.call matches
                Call::ContractMessage { pallet_index, call_index, call: cc } && pallet_index
                == self.ctx.indices.contracts && call_index == self.ctx.indices.contracts_call
                && cc.dest@ == spec_ss58_account(self.contract_addr@) && cc.value == 0
                && cc.gas_limit == 0 && cc.storage_deposit_limit is None && cc.data@
                == spec_hex_to_bytes(spec_solidity_sample_event_data())),
            r matches Err(e) ==> e == BuildError::MalformedAddress,
    {
        let dest = match ss58_decode(self.contract_addr.as_str()) {
            Some(d) => d,
            None => {
                return Err(BuildError::MalformedAddress);
            },
        };
        let text = String::from_str(
            "93063bb1",
        );
        proof {
            reveal_strlit(
                "93063bb1",
            );
            assert(spec_hex_valid(text@));
        }
        let data = match hex_string_to_bytes(&text) {
            Some(d) => d,
            None => {
                return Err(BuildError::MalformedAddress);
            },
        };
        Ok(build_contract_message(&self.ctx, dest, data, nonce))
    }
}

/// Builds one generic call into a native EVM contract. The source and
/// target address texts and the hex input come from files read at setup,
/// so the same builder fronts any target function with any arguments.
pub struct NativeSolidityGenericCallBuilder {
    /// Chain context read once at setup.
    pub ctx: ChainContext,
    /// Hex text of the 20-byte address making the call.
    pub source: String,
    /// Hex text of the 20-byte address of the target contract.
    pub target: String,
    /// Hex text of the ABI call data to send.
    pub input: String,
    /// Benchmark label for the targeted deployment.
    pub pallet_name: &'static str,
    /// Benchmark label for the targeted function.
    pub extrinsic_name: &'static str,
}

impl NativeSolidityGenericCallBuilder {
    /// Creates a builder over the given context, addresses, input and
    /// labels.
    pub fn new(
        ctx: ChainContext,
        source: String,
        target: String,
        input: String,
        pallet_name: &'static str,
        extrinsic_name: &'static str,
    ) -> (s: Self)
        ensures
            s.ctx == ctx,
            s.source == source,
            s.target == target,
            s.input == input,
            s.pallet_name@ == pallet_name@,
            s.extrinsic_name@ == extrinsic_name@,
    {
        NativeSolidityGenericCallBuilder { ctx, source, target, input, pallet_name, extrinsic_name }
    }

    /// The targeted deployment, for benchmark labeling.
    pub fn pallet(&self) -> (r: &'static str)
        ensures
            r@ == self.pallet_name@,
    {
        self.pallet_name
    }

    /// The targeted function, for benchmark labeling.
    pub fn extrinsic(&self) -> (r: &'static str)
        ensures
            r@ == self.extrinsic_name@,
    {
        self.extrinsic_name
    }

    /// Builds one signed EVM call for the given nonce. The input parses
    /// through the hex codec and passes through unchanged; the EVM-side
    /// nonce is one above the transaction nonce; value, gas limit and fee
    /// fields take the benchmarking defaults. A malformed address or hex
    /// input fails only this builder.
    pub fn build(&self, nonce: u32) -> (r: Result<Extrinsic, BuildError>)
        requires
            spec_ctx_wf(self.ctx),
            self.input@.len() <= 0x1000000,
        ensures
            r is Ok <==> spec_evm_address_valid(self.source@) && spec_evm_address_valid(
                self.target@,
            ) && spec_hex_valid(self.input@),
            r matches Ok(x) ==> spec_built_ok(self.ctx, x, nonce) && (x.call matches Call::Evm {
                pallet_index,
                call_index,
                call: ec,
            } && pallet_index == self.ctx.indices.evm && call_index == self.ctx.indices.evm_call
                && ec.source@ == spec_hex_to_bytes(self.source@) && ec.target@
                == spec_hex_to_bytes(self.target@) && ec.input@ == spec_hex_to_bytes(self.input@)
                && ec.value == 0 && ec.gas_limit == EVM_CALL_GAS_LIMIT && ec.max_fee_per_gas
                == EVM_CALL_MAX_FEE_PER_GAS && ec.max_priority_fee_per_gas is None && ec.nonce
                == Some((nonce + 1) as u64)),
            !spec_evm_address_valid(self.source@) ==> r == Err::<Extrinsic, BuildError>(
                BuildError::MalformedAddress,
            ),
            spec_evm_address_valid(self.source@) && !spec_evm_address_valid(self.target@) ==> r
                == Err::<Extrinsic, BuildError>(BuildError::MalformedAddress),
            spec_evm_address_valid(self.source@) && spec_evm_address_valid(self.target@)
                && !spec_hex_valid(self.input@) ==> r == Err::<Extrinsic, BuildError>(
                BuildError::MalformedHex,
            ),
    {
        let source = match evm_address_from_text(&self.source) {
            Some(a) => a,
            None => {
                return Err(BuildError::MalformedAddress);
            },
        };
        let target = match evm_address_from_text(&self.target) {
            Some(a) => a,
            None => {
                return Err(BuildError::MalformedAddress);
            },
        };
        let input = match hex_string_to_bytes(&self.input) {
            Some(d) => d,
            None => {
                return Err(BuildError::MalformedHex);
            },
        };
        let inner = EvmCall {
            source,
            target,
            input,
            value: 0,
            gas_limit: EVM_CALL_GAS_LIMIT,
            max_fee_per_gas: EVM_CALL_MAX_FEE_PER_GAS,
            max_priority_fee_per_gas: None,
            nonce: Some(nonce as u64 + 1),
        };
        let call = Call::Evm {
            pallet_index: self.ctx.indices.evm,
            call_index: self.ctx.indices.evm_call,
            call: inner,
        };
        Ok(create_benchmark_extrinsic(&self.ctx, &self.ctx.signer_seed, call, nonce))
    }
}

} // verus!
