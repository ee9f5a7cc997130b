//! Address parsing and signing, against the real outside crates.

use blake2::{Blake2b512, Digest};
use extrinsic_bench::address::{ss58_decode, evm_address_from_text};
use extrinsic_bench::signer::{public_from_seed, sign_payload, verify_payload};
use extrinsic_bench::payload::build_payload;

/// Renders an account as SS58 text with the given network prefix.
fn ss58_text_with_prefix(prefix: u8, account: &[u8; 32]) -> String {
    let mut data = vec![prefix];
    data.extend_from_slice(account);
    let mut hasher = Blake2b512::new();
    hasher.update(b"SS58PRE");
    hasher.update(&data);
    let digest = hasher.finalize();
    data.extend_from_slice(&digest[0..2]);
    bs58::encode(data).into_string()
}

#[test]
fn ss58_round_trips_through_text() {
    let account = [0x5Eu8; 32];
    let text = ss58_text_with_prefix(42, &account);
    let parsed = ss58_decode(&text).unwrap();
    assert_eq!(parsed, account.to_vec());
}

#[test]
fn ss58_rejects_damaged_text() {
    let account = [0x5Eu8; 32];
    let text = ss58_text_with_prefix(42, &account);
    // Flip one character: the checksum no longer matches.
    let mut damaged: Vec<char> = text.chars().collect();
    damaged[3] = if damaged[3] == '2' { '3' } else { '2' };
    let damaged: String = damaged.into_iter().collect();
    assert!(ss58_decode(&damaged).is_none());
    // A non-alphabet character fails the base-58 decoding.
    assert!(ss58_decode("0OIl").is_none());
    // A foreign network prefix is refused.
    let foreign = ss58_text_with_prefix(2, &account);
    assert!(ss58_decode(&foreign).is_none());
}

#[test]
fn evm_addresses_are_forty_hex_digits() {
    let text = String::from("d43593c715fdd31c61141abd04a99fd6822c8558");
    let parsed = evm_address_from_text(&text).unwrap();
    assert_eq!(parsed.len(), 20);
    assert_eq!(parsed[0], 0xD4);
    assert_eq!(parsed[19], 0x58);
    assert!(evm_address_from_text(&String::from("d43593c715fdd31c61141abd04a99fd6822c855")).is_none());
    assert!(evm_address_from_text(&String::from("d43593c715fdd31c61141abd04a99fd6822c85580a")).is_none());
    assert!(evm_address_from_text(&String::from("g43593c715fdd31c61141abd04a99fd6822c8558")).is_none());
}

#[test]
fn signatures_verify_under_the_seed_public_key() {
    let seed = vec![0x42u8; 32];
    let public = public_from_seed(&seed);
    assert_eq!(public.len(), 32);
    let msg = build_payload(&vec![1, 2, 3], &vec![4, 5], &vec![6]);
    let sig = sign_payload(&seed, &msg);
    assert_eq!(sig.len(), 64);
    assert!(verify_payload(&public, &msg, &sig));
    // A different message does not verify under the same signature.
    let other = build_payload(&vec![1, 2, 4], &vec![4, 5], &vec![6]);
    assert!(!verify_payload(&public, &other, &sig));
    // Neither does a damaged signature.
    let mut bad = sig.clone();
    bad[0] ^= 1;
    assert!(!verify_payload(&public, &msg, &bad));
}

#[test]
fn signing_twice_verifies_both_times() {
    // The scheme is randomized: both signatures must verify against the
    // same public key and payload, whether or not their bytes coincide.
    let seed = vec![0x07u8; 32];
    let public = public_from_seed(&seed);
    let msg = build_payload(&vec![0xCA, 0xFE], &vec![], &vec![]);
    let s1 = sign_payload(&seed, &msg);
    let s2 = sign_payload(&seed, &msg);
    assert!(verify_payload(&public, &msg, &s1));
    assert!(verify_payload(&public, &msg, &s2));
}

#[test]
fn payload_building_is_deterministic_concatenation() {
    let call = vec![8u8, 4, 15, 0, 0, 0];
    let extra = vec![0x5Au8, 0x00, 0x24, 0x00];
    let additional = vec![100u8, 0, 0, 0, 1, 0, 0, 0];
    let p1 = build_payload(&call, &extra, &additional);
    let p2 = build_payload(&call, &extra, &additional);
    assert_eq!(p1, p2);
    let mut expected = call.clone();
    expected.extend_from_slice(&extra);
    expected.extend_from_slice(&additional);
    assert_eq!(p1, expected);
}

#[test]
fn oversize_payloads_are_hashed_down() {
    let long = vec![0xABu8; 300];
    let payload = build_payload(&long, &vec![], &vec![]);
    assert_eq!(payload.len(), 32);
    assert_ne!(payload, long[0..32].to_vec());
    let short = vec![0xABu8; 256];
    let payload = build_payload(&short, &vec![], &vec![]);
    assert_eq!(payload, short);
}
