//! Client-side construction of signed, replay-protected extrinsics
//! (transactions) for driving benchmarks against a Substrate-style chain.
//!
//! The crate builds the binary payload of a transaction out of plain values:
//! hex call data is parsed, calls are encoded, the fixed chain of signed
//! extensions is assembled, the signing payload is concatenated and signed,
//! and the final envelope is produced byte-exactly. Chain state (genesis
//! hash, best block, runtime versions) is supplied by the caller as plain
//! values; cryptography and SCALE value encoding are delegated to outside
//! crates through narrow trusted wrappers.

pub mod address;
pub mod builders;
pub mod calls;
pub mod contract_builders;
pub mod contracts;
pub mod era;
pub mod evm_builders;
pub mod extensions;
pub mod extrinsic;
pub mod hex;
pub mod inherents;
pub mod payload;
pub mod scale;
pub mod signer;

pub use hex::hex_string_to_bytes;
