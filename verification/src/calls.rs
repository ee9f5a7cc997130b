//! Call payload encoding.
//!
//! A transaction carries one call, in one of three conventions: a direct
//! dispatch of a runtime module function, a message call into a WASM
//! contract routed through the contracts module, or a call into an
//! EVM-style contract routed through the EVM module. Whatever the
//! convention, argument bytes are taken as already wire-encoded: the call
//! never re-encodes them. The dispatch indices of the target modules come
//! from the runtime's layout and are supplied by the caller.

use vstd::prelude::*;
use crate::scale::{
    spec_u64_le, spec_u128_le, spec_compact_u64, spec_compact_u128, spec_scale_bytes,
    scale_u64, scale_u128, scale_compact_u64, scale_compact_u128, scale_byte_vec, append_bytes,
    lemma_compact_u64_len, lemma_compact_u128_len, lemma_compact_u32_len,
};

verus! {

/// Upper bound this library puts on a single argument-byte field, so that
/// every encoded transaction stays far below the codec's `u32::MAX` length
/// limit.
pub open spec fn spec_max_data_len() -> nat {
    0x10000000
}

/// Dispatch indices of the runtime modules the builders target. The
/// module indices come from the runtime's module layout, the call indices
/// from each module's call table; both belong to the target runtime
/// version and are supplied by the caller.
#[derive(Clone, Copy, Debug, PartialEq, Eq, Structural)]
pub struct DispatchIndices {
    /// Module index of the system module.
    pub system: u8,
    /// Call index of the system remark.
    pub system_remark: u8,
    /// Module index of the balances module.
    pub balances: u8,
    /// Call index of the keep-alive transfer.
    pub balances_transfer_keep_alive: u8,
    /// Module index of the nicks module.
    pub nicks: u8,
    /// Call index of the name setter.
    pub nicks_set_name: u8,
    /// Module index of the template module.
    pub template: u8,
    /// Module index of the contracts module.
    pub contracts: u8,
    /// Call index of the contract call dispatch.
    pub contracts_call: u8,
    /// Module index of the EVM module.
    pub evm: u8,
    /// Call index of the EVM call dispatch.
    pub evm_call: u8,
}

/// A message call into a WASM contract, routed through the contracts
/// module: `data` is the selector-prefixed message payload, the limits are
/// benchmarking policy defaults.
pub struct ContractCall {
    /// 32-byte account of the target contract.
    pub dest: Vec<u8>,
    /// Balance transferred with the call.
    pub value: u128,
    /// Gas limit for the execution.
    pub gas_limit: u64,
    /// Storage deposit limit; `None` leaves it unbounded.
    pub storage_deposit_limit: Option<u128>,
    /// Selector-prefixed, pre-encoded message payload.
    pub data: Vec<u8>,
}

/// A call into an EVM-style contract, routed through the EVM module.
pub struct EvmCall {
    /// 20-byte address the call originates from.
    pub source: Vec<u8>,
    /// 20-byte address of the target contract.
    pub target: Vec<u8>,
    /// ABI-encoded call data, taken as-is.
    pub input: Vec<u8>,
    /// Value transferred with the call.
    pub value: u128,
    /// Gas limit for the execution.
    pub gas_limit: u64,
    /// Fee ceiling per unit of gas.
    pub max_fee_per_gas: u128,
    /// Priority fee per unit of gas, if any.
    pub max_priority_fee_per_gas: Option<u128>,
    /// Explicit EVM-side nonce, if any.
    pub nonce: Option<u64>,
}

/// One call, tagged by encoding convention. The two dispatch indices
/// locate the target function in the runtime: its module's index and the
/// function's index within the module.
pub enum Call {
    /// Direct dispatch of a module function with pre-encoded arguments.
    NativeModule { pallet_index: u8, call_index: u8, args: Vec<u8> },
    /// Contract message through the contracts module.
    ContractMessage { pallet_index: u8, call_index: u8, call: ContractCall },
    /// EVM contract call through the EVM module.
    Evm { pallet_index: u8, call_index: u8, call: EvmCall },
}

/// Well-formedness of a call: fixed-size fields have their size, variable
/// ones stay under the library's data bound.
pub open spec fn spec_call_wf(c: Call) -> bool {
    match c {
        Call::NativeModule { args, .. } => args@.len() <= spec_max_data_len(),
        Call::ContractMessage { call, .. } => call.dest@.len() == 32 && call.data@.len()
            <= spec_max_data_len(),
        Call::Evm { call, .. } => call.source@.len() == 20 && call.target@.len() == 20
            && call.input@.len() <= spec_max_data_len(),
    }
}

/// A 256-bit EVM word holding a 128-bit value: little-endian limbs, upper
/// half zero.
pub open spec fn spec_u256_le(v: u128) -> Seq<u8> {
    spec_u128_le(v) + Seq::new(16, |i: int| 0u8)
}

/// SCALE encoding of an optional 256-bit word: a presence byte, then the
/// word.
pub open spec fn spec_option_u256(o: Option<u64>) -> Seq<u8> {
    match o {
        None => seq![0u8],
        Some(v) => seq![1u8] + spec_u256_le(v as u128),
    }
}

/// SCALE encoding of an optional compact balance: a presence byte, then
/// the compact value.
pub open spec fn spec_option_compact_u128(o: Option<u128>) -> Seq<u8> {
    match o {
        None => seq![0u8],
        Some(v) => seq![1u8] + spec_compact_u128(v),
    }
}

/// Argument bytes of a contract call: the destination as a 32-byte address
/// variant, compact value and gas limit, optional deposit limit, and the
/// length-prefixed payload.
pub open spec fn spec_contract_call_args(c: ContractCall) -> Seq<u8> {
    seq![3u8] + c.dest@ + spec_compact_u128(c.value) + spec_compact_u64(c.gas_limit)
        + spec_option_compact_u128(c.storage_deposit_limit) + spec_scale_bytes(c.data@)
}

/// Argument bytes of an EVM call: raw addresses, length-prefixed input,
/// 256-bit value and fee fields, optional priority fee and nonce, and an
/// empty access list.
pub open spec fn spec_evm_call_args(c: EvmCall) -> Seq<u8> {
    c.source@ + c.target@ + spec_scale_bytes(c.input@) + spec_u256_le(c.value)
        + spec_u64_le(c.gas_limit) + spec_u256_le(c.max_fee_per_gas) + (match c
        .max_priority_fee_per_gas {
        None => seq![0u8],
        Some(v) => seq![1u8] + spec_u256_le(v),
    }) + spec_option_u256(c.nonce) + seq![0u8]
}

/// Wire bytes of a call: the two dispatch indices, then the argument
/// bytes of its convention.
pub open spec fn spec_call_bytes(c: Call) -> Seq<u8> {
    match c {
        Call::NativeModule { pallet_index, call_index, args } => seq![pallet_index, call_index]
            + args@,
        Call::ContractMessage { pallet_index, call_index, call } => seq![
            pallet_index,
            call_index,
        ] + spec_contract_call_args(call),
        Call::Evm { pallet_index, call_index, call } => seq![pallet_index, call_index]
            + spec_evm_call_args(call),
    }
}

/// A well-formed call encodes to fewer than `2^29` bytes.
pub proof fn lemma_call_bytes_len(c: Call)
    requires
        spec_call_wf(c),
    ensures
        spec_call_bytes(c).len() < 0x20000000,
{
    match c {
        Call::NativeModule { .. } => {},
        Call::ContractMessage { call, .. } => {
            lemma_compact_u128_len(call.value);
            lemma_compact_u64_len(call.gas_limit);
            match call.storage_deposit_limit {
                None => {},
                Some(v) => {
                    lemma_compact_u128_len(v);
                },
            }
            lemma_compact_u32_len(call.data@.len() as u32);
        },
        Call::Evm { call, .. } => {
            lemma_compact_u32_len(call.input@.len() as u32);
            match call.max_priority_fee_per_gas {
                None => {},
                Some(_) => {},
            }
        },
    }
}

/// Selector-prefixed message payload: the four selector bytes, then the
/// already-encoded arguments, nothing else.
pub fn contract_call_data(selector: &Vec<u8>, args: &Vec<u8>) -> (r: Vec<u8>)
    requires
        selector@.len() == 4,
    ensures
        r@ == selector@ + args@,
{
    let mut r: Vec<u8> = Vec::new();
    append_bytes(&mut r, selector);
    append_bytes(&mut r, args);
    proof {
        assert(r@ =~= selector@ + args@);
    }
    r
}

/// Encodes a 128-bit value as a 256-bit little-endian EVM word.
fn encode_u256(v: u128) -> (r: Vec<u8>)
    ensures
        r@ == spec_u256_le(v),
{
    let mut r = scale_u128(v);
    let mut i: usize = 0;
    while i < 16
        invariant
            i <= 16,
            r@ =~= spec_u128_le(v) + Seq::new(i as nat, |j: int| 0u8),
        decreases 16 - i,
    {
        r.push(0u8);
        i = i + 1;
        proof {
            assert(r@ =~= spec_u128_le(v) + Seq::new(i as nat, |j: int| 0u8));
        }
    }
    r
}

/// Encodes a call into its wire bytes.
#[verifier::rlimit(60)]
pub fn encode_call(c: &Call) -> (r: Vec<u8>)
    requires
        spec_call_wf(*c),
    ensures
        r@ == spec_call_bytes(*c),
{
    let mut r: Vec<u8> = Vec::new();
    match c {
        Call::NativeModule { pallet_index, call_index, args } => {
            r.push(*pallet_index);
            r.push(*call_index);
            append_bytes(&mut r, args);
            proof {
                assert(r@ =~= spec_call_bytes(*c));
            }
        },
        Call::ContractMessage { pallet_index, call_index, call } => {
            r.push(*pallet_index);
            r.push(*call_index);
            r.push(3u8);
            append_bytes(&mut r, &call.dest);
            let mut piece = scale_compact_u128(call.value);
            r.append(&mut piece);
            let mut piece = scale_compact_u64(call.gas_limit);
            r.append(&mut piece);
            match &call.storage_deposit_limit {
                None => {
                    r.push(0u8);
                },
                Some(v) => {
                    r.push(1u8);
                    let mut piece = scale_compact_u128(*v);
                    r.append(&mut piece);
                },
            }
            let mut piece = scale_byte_vec(&call.data);
            r.append(&mut piece);
            proof {
                assert(r@ =~= spec_call_bytes(*c));
            }
        },
        Call::Evm { pallet_index, call_index, call } => {
            r.push(*pallet_index);
            r.push(*call_index);
            append_bytes(&mut r, &call.source);
            append_bytes(&mut r, &call.target);
            let mut piece = scale_byte_vec(&call.input);
            r.append(&mut piece);
            let mut piece = encode_u256(call.value);
            r.append(&mut piece);
            let mut piece = scale_u64(call.gas_limit);
            r.append(&mut piece);
            let mut piece = encode_u256(call.max_fee_per_gas);
            r.append(&mut piece);
            match &call.max_priority_fee_per_gas {
                None => {
                    r.push(0u8);
                },
                Some(v) => {
                    r.push(1u8);
                    let mut piece = encode_u256(*v);
                    r.append(&mut piece);
                },
            }
            match &call.nonce {
                None => {
                    r.push(0u8);
                },
                Some(n) => {
                    r.push(1u8);
                    let mut piece = encode_u256(*n as u128);
                    r.append(&mut piece);
                },
            }
            r.push(0u8);
            proof {
                assert(r@ =~= spec_call_bytes(*c));
            }
        },
    }
    r
}

} // verus!
