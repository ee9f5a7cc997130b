//! Building signed transactions through the builders.

use blake2::{Blake2b512, Digest};
use extrinsic_bench::builders::{
    RemarkBuilder, TransferKeepAliveBuilder, SetNameBuilder, UpdateSomeNumBuilder,
    GetSomeNumBuilder, UpdateSomeStrBuilder, GetSomeStrBuilder, FibonacciBuilder,
    OddProductBuilder, TriangleNumBuilder, SampleEventEmitBuilder, CrossPalletCallBuilder,
    BuildError,
};
use extrinsic_bench::contract_builders::{
    InkUpdateNumBuilder, InkGetNumBuilder, InkUpdateSBuilder, InkGetSBuilder,
    InkFibonacciBuilder, InkOddProductBuilder, InkTriangleNumberBuilder, InkSampleEmitBuilder,
    InkCrossContractCallBuilder,
};
use extrinsic_bench::evm_builders::{
    SoliditySetSomeNumBuilder, SolidityGetSomeNumBuilder, SoliditySetSomeStrBuilder,
    SolidityGetSomeStrBuilder, SolidityFibonacciBuilder, SolidityOddProductBuilder,
    SolidityTriangleNumBuilder, SoliditySampleEventBuilder, NativeSolidityGenericCallBuilder,
};
use extrinsic_bench::calls::{Call, DispatchIndices, encode_call};
use extrinsic_bench::extrinsic::{
    ChainContext, Extrinsic, create_benchmark_extrinsic, encode_extrinsic,
};
use extrinsic_bench::extensions::encode_extra;
use extrinsic_bench::era::Era;
use extrinsic_bench::payload::build_payload;
use extrinsic_bench::scale::append_bytes;
use extrinsic_bench::signer::verify_payload;

/// A fixed chain context for tests.
fn test_context() -> ChainContext {
    ChainContext {
        genesis_hash: vec![0x11; 32],
        best_hash: vec![0x22; 32],
        best_number: 12345,
        spec_version: 100,
        transaction_version: 1,
        block_hash_count: 4096,
        signer_seed: vec![0x42; 32],
        indices: DispatchIndices {
            system: 0,
            system_remark: 0,
            balances: 4,
            balances_transfer_keep_alive: 3,
            nicks: 6,
            nicks_set_name: 0,
            template: 8,
            contracts: 7,
            contracts_call: 6,
            evm: 9,
            evm_call: 1,
        },
    }
}

/// Renders an account as generic-network SS58 text.
fn contract_address_text(account: &[u8; 32]) -> String {
    let mut data = vec![42u8];
    data.extend_from_slice(account);
    let mut hasher = Blake2b512::new();
    hasher.update(b"SS58PRE");
    hasher.update(&data);
    let digest = hasher.finalize();
    data.extend_from_slice(&digest[0..2]);
    bs58::encode(data).into_string()
}

/// Checks the signature of a built extrinsic against its payload.
fn signature_checks(ctx: &ChainContext, x: &Extrinsic) -> bool {
    let call_bytes = encode_call(&x.call);
    let extra = encode_extra(&x.extensions);
    let mut additional: Vec<u8> = Vec::new();
    additional.extend_from_slice(&ctx.spec_version.to_le_bytes());
    additional.extend_from_slice(&ctx.transaction_version.to_le_bytes());
    let mut tail: Vec<u8> = Vec::new();
    append_bytes(&mut tail, &ctx.genesis_hash);
    append_bytes(&mut tail, &ctx.best_hash);
    additional.extend_from_slice(&tail);
    let payload = build_payload(&call_bytes, &extra, &additional);
    verify_payload(&x.sender, &payload, &x.signature)
}

#[test]
fn created_extrinsics_carry_era_nonce_and_verifying_signature() {
    let ctx = test_context();
    let call = Call::NativeModule { pallet_index: 0, call_index: 0, args: Vec::new() };
    let x = create_benchmark_extrinsic(&ctx, &ctx.signer_seed, call, 9);
    assert_eq!(x.extensions.nonce, 9);
    assert_eq!(x.extensions.tip, 0);
    assert_eq!(x.extensions.era, Era::Mortal { period: 2048, phase: 12345 % 2048 });
    assert_eq!(x.signature.len(), 64);
    assert!(signature_checks(&ctx, &x));
}

#[test]
fn distinct_nonces_give_distinct_transactions() {
    let ctx = test_context();
    let b = RemarkBuilder::new(test_context());
    let x1 = b.build(1).unwrap();
    let x2 = b.build(2).unwrap();
    assert_ne!(encode_extrinsic(&x1), encode_extrinsic(&x2));
    assert!(signature_checks(&ctx, &x1));
    assert!(signature_checks(&ctx, &x2));
}

#[test]
fn remark_builder_targets_the_system_module() {
    let b = RemarkBuilder::new(test_context());
    assert_eq!(b.pallet(), "system");
    assert_eq!(b.extrinsic(), "remark");
    let x = b.build(0).unwrap();
    match &x.call {
        Call::NativeModule { pallet_index, call_index, args } => {
            assert_eq!((*pallet_index, *call_index), (0, 0));
            assert!(args.is_empty());
        },
        _ => panic!("expected a native module call"),
    }
}

#[test]
fn transfer_builder_encodes_destination_and_amount() {
    let b = TransferKeepAliveBuilder::new(test_context(), vec![0x99; 32], 500);
    assert_eq!(b.pallet(), "balances");
    assert_eq!(b.extrinsic(), "transfer_keep_alive");
    let x = b.build(0).unwrap();
    match &x.call {
        Call::NativeModule { pallet_index, call_index, args } => {
            assert_eq!((*pallet_index, *call_index), (4, 3));
            let mut expected = vec![0u8];
            expected.extend_from_slice(&[0x99; 32]);
            // 500 in compact form: two-byte mode.
            expected.extend_from_slice(&[0xD1, 0x07]);
            assert_eq!(args, &expected);
        },
        _ => panic!("expected a native module call"),
    }
}

#[test]
fn set_name_builder_length_prefixes_the_name() {
    let b = SetNameBuilder::new(test_context(), b"abcdefghijklmnopqrstuvwxyz123456".to_vec());
    assert_eq!(b.pallet(), "nicks");
    assert_eq!(b.extrinsic(), "set_name");
    let x = b.build(0).unwrap();
    match &x.call {
        Call::NativeModule { pallet_index, call_index, args } => {
            assert_eq!((*pallet_index, *call_index), (6, 0));
            let mut expected = vec![32u8 << 2];
            expected.extend_from_slice(b"abcdefghijklmnopqrstuvwxyz123456");
            assert_eq!(args, &expected);
        },
        _ => panic!("expected a native module call"),
    }
}

#[test]
fn template_builders_target_their_call_indices() {
    let num = UpdateSomeNumBuilder::new(test_context());
    assert_eq!((num.pallet(), num.extrinsic()), ("template", "update_some_num"));
    let x = num.build(0).unwrap();
    match &x.call {
        Call::NativeModule { pallet_index, call_index, args } => {
            assert_eq!((*pallet_index, *call_index), (8, 0));
            assert_eq!(args, &num.value.to_le_bytes().to_vec());
        },
        _ => panic!("expected a native module call"),
    }
    let getters = [
        (GetSomeNumBuilder::new(test_context()).build(0).unwrap(), 1u8),
        (GetSomeStrBuilder::new(test_context()).build(0).unwrap(), 3u8),
        (SampleEventEmitBuilder::new(test_context()).build(0).unwrap(), 7u8),
    ];
    for (x, expected_index) in getters.iter() {
        match &x.call {
            Call::NativeModule { pallet_index, call_index, args } => {
                assert_eq!(*pallet_index, 8);
                assert_eq!(*call_index, *expected_index);
                assert!(args.is_empty());
            },
            _ => panic!("expected a native module call"),
        }
    }
    let fib = FibonacciBuilder::new(test_context(), 10);
    assert_eq!(fib.extrinsic(), "fibonacci");
    let x = fib.build(0).unwrap();
    match &x.call {
        Call::NativeModule { call_index, args, .. } => {
            assert_eq!(*call_index, 4);
            assert_eq!(args, &vec![10, 0, 0, 0]);
        },
        _ => panic!("expected a native module call"),
    }
    let more = [
        (OddProductBuilder::new(test_context(), 10).build(0).unwrap(), 5u8),
        (TriangleNumBuilder::new(test_context(), 10).build(0).unwrap(), 6u8),
        (CrossPalletCallBuilder::new(test_context()).build(0).unwrap(), 8u8),
    ];
    for (x, expected_index) in more.iter() {
        match &x.call {
            Call::NativeModule { pallet_index, call_index, .. } => {
                assert_eq!(*pallet_index, 8);
                assert_eq!(*call_index, *expected_index);
            },
            _ => panic!("expected a native module call"),
        }
    }
}

#[test]
fn string_update_builder_draws_hundred_alphanumerics() {
    let b = UpdateSomeStrBuilder::new(test_context());
    assert_eq!(b.value.len(), 100);
    assert!(b.value.chars().all(|c| c.is_ascii_alphanumeric()));
    let x = b.build(0).unwrap();
    match &x.call {
        Call::NativeModule { call_index, args, .. } => {
            assert_eq!(*call_index, 2);
            // Compact length of 100: two-byte mode, then the bytes.
            assert_eq!(args.len(), 102);
            assert_eq!(&args[0..2], &[0x91, 0x01]);
            assert_eq!(&args[2..], b.value.as_bytes());
        },
        _ => panic!("expected a native module call"),
    }
}

#[test]
fn ink_builders_prefix_selectors() {
    let account = [0x5Eu8; 32];
    let addr = contract_address_text(&account);
    let cases: Vec<(Extrinsic, Vec<u8>)> = vec![
        (
            InkGetNumBuilder::new(test_context(), addr.clone()).build(0).unwrap(),
            vec![0xCF, 0xE3, 0x9F, 0xC5],
        ),
        (
            InkGetSBuilder::new(test_context(), addr.clone()).build(0).unwrap(),
            vec![0xA9, 0xE8, 0x9D, 0x26],
        ),
        (
            InkSampleEmitBuilder::new(test_context(), addr.clone()).build(0).unwrap(),
            vec![0x43, 0x5A, 0x64, 0x4F],
        ),
    ];
    for (x, expected_data) in cases.iter() {
        match &x.call {
            Call::ContractMessage { pallet_index, call_index, call } => {
                assert_eq!((*pallet_index, *call_index), (7, 6));
                assert_eq!(call.dest, account.to_vec());
                assert_eq!(call.value, 0);
                assert_eq!(call.gas_limit, 0);
                assert!(call.storage_deposit_limit.is_none());
                assert_eq!(&call.data, expected_data);
            },
            _ => panic!("expected a contract message call"),
        }
    }
    let with_input = [
        (InkFibonacciBuilder::new(test_context(), addr.clone()).build(0).unwrap(), vec![
            0x3C, 0x87, 0x40, 0x79,
        ]),
        (InkOddProductBuilder::new(test_context(), addr.clone()).build(0).unwrap(), vec![
            0x2A, 0xC6, 0x52, 0x85,
        ]),
        (InkTriangleNumberBuilder::new(test_context(), addr.clone()).build(0).unwrap(), vec![
            0x8E, 0x70, 0x88, 0x51,
        ]),
    ];
    for (x, selector) in with_input.iter() {
        match &x.call {
            Call::ContractMessage { call, .. } => {
                let mut expected = selector.clone();
                expected.extend_from_slice(&[15, 0, 0, 0]);
                assert_eq!(&call.data, &expected);
            },
            _ => panic!("expected a contract message call"),
        }
    }
    let upd = InkUpdateNumBuilder::new(test_context(), addr.clone());
    let x = upd.build(0).unwrap();
    match &x.call {
        Call::ContractMessage { call, .. } => {
            let mut expected = vec![0xFBu8, 0xAF, 0x91, 0xE1];
            expected.extend_from_slice(&upd.value.to_le_bytes());
            assert_eq!(&call.data, &expected);
        },
        _ => panic!("expected a contract message call"),
    }
    let upd = InkUpdateSBuilder::new(test_context(), addr.clone());
    let x = upd.build(0).unwrap();
    match &x.call {
        Call::ContractMessage { call, .. } => {
            let mut expected = vec![0x90u8, 0xC9, 0xB3, 0xF8, 0x91, 0x01];
            expected.extend_from_slice(upd.value.as_bytes());
            assert_eq!(&call.data, &expected);
        },
        _ => panic!("expected a contract message call"),
    }
}

#[test]
fn ink_cross_contract_call_carries_callee_and_number() {
    let caller = [0x5Eu8; 32];
    let callee = [0x77u8; 32];
    let b = InkCrossContractCallBuilder::new(
        test_context(),
        contract_address_text(&caller),
        contract_address_text(&callee),
    );
    assert_eq!(b.extrinsic(), "cross_contract_call");
    let x = b.build(0).unwrap();
    match &x.call {
        Call::ContractMessage { call, .. } => {
            assert_eq!(call.dest, caller.to_vec());
            let mut expected = vec![0x5Au8, 0xCC, 0xC8, 0x95];
            expected.extend_from_slice(&callee);
            expected.extend_from_slice(&100i64.to_le_bytes());
            assert_eq!(&call.data, &expected);
        },
        _ => panic!("expected a contract message call"),
    }
}

#[test]
fn malformed_contract_address_fails_only_that_builder() {
    let b = InkGetNumBuilder::new(test_context(), String::from("not an address"));
    assert!(matches!(b.build(0), Err(BuildError::MalformedAddress)));
    assert_eq!(BuildError::MalformedAddress.message(), "malformed address");
    // A sibling builder over a good address still works.
    let good = contract_address_text(&[0x5E; 32]);
    assert!(InkGetNumBuilder::new(test_context(), good).build(1).is_ok());
}

#[test]
fn solidity_builders_carry_their_abi_call_data() {
    let account = [0x5Eu8; 32];
    let addr = contract_address_text(&account);
    let cases: Vec<(Extrinsic, &str, Vec<u8>)> = vec![
        (
            SolidityGetSomeNumBuilder::new(test_context(), addr.clone()).build(0).unwrap(),
            "get_some_num",
            vec![0xB4, 0x0A, 0x13, 0x6B],
        ),
        (
            SolidityGetSomeStrBuilder::new(test_context(), addr.clone()).build(0).unwrap(),
            "get_some_str",
            vec![0x5E, 0x9C, 0x15, 0x5E],
        ),
        (
            SoliditySampleEventBuilder::new(test_context(), addr.clone()).build(0).unwrap(),
            "emit_sample_event",
            vec![0x93, 0x06, 0x3B, 0xB1],
        ),
    ];
    for (x, _name, data) in cases.iter() {
        match &x.call {
            Call::ContractMessage { pallet_index, call_index, call } => {
                assert_eq!((*pallet_index, *call_index), (7, 6));
                assert_eq!(call.dest, account.to_vec());
                assert_eq!(&call.data, data);
            },
            _ => panic!("expected a contract message call"),
        }
    }
    let x = SoliditySetSomeNumBuilder::new(test_context(), addr.clone()).build(0).unwrap();
    match &x.call {
        Call::ContractMessage { call, .. } => {
            assert_eq!(call.data.len(), 36);
            assert_eq!(&call.data[0..4], &[0x9A, 0xC1, 0x76, 0x2F]);
            assert_eq!(call.data[35], 0xD9);
        },
        _ => panic!("expected a contract message call"),
    }
    let x = SoliditySetSomeStrBuilder::new(test_context(), addr.clone()).build(0).unwrap();
    match &x.call {
        Call::ContractMessage { call, .. } => {
            assert_eq!(call.data.len(), 100);
            assert_eq!(&call.data[0..4], &[0x05, 0x83, 0xA0, 0x2C]);
        },
        _ => panic!("expected a contract message call"),
    }
    for (x, head) in [
        (SolidityFibonacciBuilder::new(test_context(), addr.clone()).build(0).unwrap(), 0x61u8),
        (SolidityOddProductBuilder::new(test_context(), addr.clone()).build(0).unwrap(), 0x11u8),
        (SolidityTriangleNumBuilder::new(test_context(), addr.clone()).build(0).unwrap(), 0x81u8),
    ]
        .iter()
    {
        match &x.call {
            Call::ContractMessage { call, .. } => {
                assert_eq!(call.data.len(), 36);
                assert_eq!(call.data[0], *head);
                assert_eq!(call.data[35], 0x0F);
            },
            _ => panic!("expected a contract message call"),
        }
    }
}

#[test]
fn generic_evm_builder_parses_input_and_sets_policy_fields() {
    let b = NativeSolidityGenericCallBuilder::new(
        test_context(),
        String::from("d43593c715fdd31c61141abd04a99fd6822c8558"),
        String::from("8eaf04151687736326c9fea17e25fc5287613693"),
        String::from("b40a136b"),
        "native_solidity_benchmark_sample",
        "get_some_num",
    );
    assert_eq!(b.pallet(), "native_solidity_benchmark_sample");
    assert_eq!(b.extrinsic(), "get_some_num");
    let x = b.build(5).unwrap();
    match &x.call {
        Call::Evm { pallet_index, call_index, call } => {
            assert_eq!((*pallet_index, *call_index), (9, 1));
            assert_eq!(call.input, vec![0xB4, 0x0A, 0x13, 0x6B]);
            assert_eq!(call.source[0], 0xD4);
            assert_eq!(call.target[0], 0x8E);
            assert_eq!(call.value, 0);
            assert_eq!(call.gas_limit, 42949672);
            assert_eq!(call.max_fee_per_gas, 1000000000);
            assert!(call.max_priority_fee_per_gas.is_none());
            assert_eq!(call.nonce, Some(6));
        },
        _ => panic!("expected an EVM call"),
    }
}

#[test]
fn generic_evm_builder_rejects_odd_hex_input() {
    let b = NativeSolidityGenericCallBuilder::new(
        test_context(),
        String::from("d43593c715fdd31c61141abd04a99fd6822c8558"),
        String::from("8eaf04151687736326c9fea17e25fc5287613693"),
        String::from("b40a136"),
        "native_solidity",
        "generic_call",
    );
    assert!(matches!(b.build(0), Err(BuildError::MalformedHex)));
    assert_eq!(BuildError::MalformedHex.message(), "malformed call data hex");
    let b = NativeSolidityGenericCallBuilder::new(
        test_context(),
        String::from("tooshort"),
        String::from("8eaf04151687736326c9fea17e25fc5287613693"),
        String::from("b40a136b"),
        "native_solidity",
        "generic_call",
    );
    assert!(matches!(b.build(0), Err(BuildError::MalformedAddress)));
}

#[test]
fn extrinsic_envelope_is_length_prefixed_and_tagged() {
    let ctx = test_context();
    let b = RemarkBuilder::new(test_context());
    let x = b.build(0).unwrap();
    let bytes = encode_extrinsic(&x);
    // Inner length: 2 tags + 32 sender + 1 tag + 64 signature + 2 era
    // + 1 nonce + 1 tip + 2 call = 105, compact two-byte mode.
    assert_eq!(bytes.len(), 107);
    assert_eq!(&bytes[0..2], &[0xA5, 0x01]);
    assert_eq!(bytes[2], 0x84);
    assert_eq!(bytes[3], 0x00);
    let sender = &bytes[4..36];
    assert_eq!(sender, &x.sender[..]);
    assert_eq!(bytes[36], 0x01);
    assert!(signature_checks(&ctx, &x));
}
