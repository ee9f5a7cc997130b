//! Byte-level encoding behavior: hex codec, era packing, call encoding.

use extrinsic_bench::hex::{hex_string_to_bytes, hex_from_bytes};
use extrinsic_bench::era::{mortality_period, era_mortal, era_bytes, Era};
use extrinsic_bench::calls::{Call, ContractCall, EvmCall, encode_call, contract_call_data};

#[test]
fn hex_parses_even_valid_strings() {
    let r = hex_string_to_bytes(&String::from("b40a136b")).unwrap();
    assert_eq!(r, vec![0xB4, 0x0A, 0x13, 0x6B]);
    let r = hex_string_to_bytes(&String::from("00ff10")).unwrap();
    assert_eq!(r, vec![0x00, 0xFF, 0x10]);
    let r = hex_string_to_bytes(&String::from("")).unwrap();
    assert_eq!(r, Vec::<u8>::new());
    let r = hex_string_to_bytes(&String::from("AbCdEf")).unwrap();
    assert_eq!(r, vec![0xAB, 0xCD, 0xEF]);
}

#[test]
fn hex_rejects_odd_length() {
    assert!(hex_string_to_bytes(&String::from("b40a136")).is_none());
    assert!(hex_string_to_bytes(&String::from("1")).is_none());
}

#[test]
fn hex_rejects_non_hex_characters() {
    assert!(hex_string_to_bytes(&String::from("zz")).is_none());
    assert!(hex_string_to_bytes(&String::from("12g4")).is_none());
    assert!(hex_string_to_bytes(&String::from("+1ab")).is_none());
    assert!(hex_string_to_bytes(&String::from("12 4")).is_none());
}

#[test]
fn hex_round_trips() {
    let b = vec![0x00u8, 0x01, 0x7F, 0x80, 0xFF, 0xB4];
    let text = hex_from_bytes(&b);
    assert_eq!(text, "00017f80ffb4");
    assert_eq!(hex_string_to_bytes(&text).unwrap(), b);
}

#[test]
fn retention_count_of_4096_gives_period_2048() {
    assert_eq!(mortality_period(4096), 2048);
}

#[test]
fn small_retention_counts_floor_at_two() {
    assert_eq!(mortality_period(0), 2);
    assert_eq!(mortality_period(1), 2);
    assert_eq!(mortality_period(5), 2);
    assert_eq!(mortality_period(2400), 1024);
}

#[test]
fn era_phase_is_best_block_mod_period() {
    let era = era_mortal(2048, 12345);
    match era {
        Era::Mortal { period, phase } => {
            assert_eq!(period, 2048);
            assert_eq!(phase, 12345 % 2048);
        },
        Era::Immortal => panic!("expected a mortal era"),
    }
}

#[test]
fn era_encodes_period_and_phase() {
    // period 2048 has log2 of 11, so the low nibble is 10; phase 5 sits in
    // the high twelve bits: 5 * 16 + 10 = 0x5A, little-endian.
    let e = Era::Mortal { period: 2048, phase: 5 };
    assert_eq!(era_bytes(&e), vec![0x5A, 0x00]);
    assert_eq!(era_bytes(&Era::Immortal), vec![0x00]);
    // period 32768 quantizes the phase to multiples of 8.
    let e = era_mortal(32768, 100);
    match e {
        Era::Mortal { period, phase } => {
            assert_eq!(period, 32768);
            assert_eq!(phase, 96);
        },
        Era::Immortal => panic!("expected a mortal era"),
    }
}

#[test]
fn selector_with_no_arguments_is_the_payload() {
    let selector = vec![0xCFu8, 0xE3, 0x9F, 0xC5];
    let data = contract_call_data(&selector, &Vec::new());
    assert_eq!(data, vec![0xCF, 0xE3, 0x9F, 0xC5]);
}

#[test]
fn selector_prefixes_encoded_arguments() {
    let selector = vec![0xFBu8, 0xAF, 0x91, 0xE1];
    let data = contract_call_data(&selector, &vec![1, 2, 3]);
    assert_eq!(data, vec![0xFB, 0xAF, 0x91, 0xE1, 1, 2, 3]);
}

#[test]
fn native_call_encodes_indices_then_args() {
    let call = Call::NativeModule { pallet_index: 8, call_index: 4, args: vec![15, 0, 0, 0] };
    assert_eq!(encode_call(&call), vec![8, 4, 15, 0, 0, 0]);
}

#[test]
fn contract_call_encodes_address_limits_and_data() {
    let call = Call::ContractMessage {
        pallet_index: 7,
        call_index: 6,
        call: ContractCall {
            dest: vec![0x11; 32],
            value: 0,
            gas_limit: 0,
            storage_deposit_limit: None,
            data: vec![0xCF, 0xE3, 0x9F, 0xC5],
        },
    };
    let mut expected = vec![7u8, 6, 3];
    expected.extend_from_slice(&[0x11; 32]);
    // compact value 0, compact gas 0, no deposit limit, compact data length 4.
    expected.extend_from_slice(&[0x00, 0x00, 0x00, 0x10]);
    expected.extend_from_slice(&[0xCF, 0xE3, 0x9F, 0xC5]);
    assert_eq!(encode_call(&call), expected);
}

#[test]
fn evm_call_encodes_words_and_empty_access_list() {
    let call = Call::Evm {
        pallet_index: 9,
        call_index: 1,
        call: EvmCall {
            source: vec![0xAA; 20],
            target: vec![0xBB; 20],
            input: vec![0xB4, 0x0A, 0x13, 0x6B],
            value: 0,
            gas_limit: 42949672,
            max_fee_per_gas: 1000000000,
            max_priority_fee_per_gas: None,
            nonce: Some(3),
        },
    };
    let got = encode_call(&call);
    let mut expected = vec![9u8, 1];
    expected.extend_from_slice(&[0xAA; 20]);
    expected.extend_from_slice(&[0xBB; 20]);
    expected.extend_from_slice(&[0x10, 0xB4, 0x0A, 0x13, 0x6B]);
    expected.extend_from_slice(&[0x00; 32]); // value, one zero word
    expected.extend_from_slice(&[0x28, 0x5C, 0x8F, 0x02, 0, 0, 0, 0]); // gas limit
    let mut fee = 1000000000u128.to_le_bytes().to_vec();
    fee.extend_from_slice(&[0x00; 16]);
    expected.extend_from_slice(&fee); // max fee per gas word
    expected.push(0x00); // no priority fee
    expected.push(0x01); // explicit nonce follows
    let mut nonce_word = 3u128.to_le_bytes().to_vec();
    nonce_word.extend_from_slice(&[0x00; 16]);
    expected.extend_from_slice(&nonce_word);
    expected.push(0x00); // empty access list
    assert_eq!(got, expected);
}
