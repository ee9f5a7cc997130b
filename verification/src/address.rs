//! Textual address parsing.
//!
//! Account addresses arrive as SS58 text: base-58 data holding a one-byte
//! network prefix, the 32 account bytes, and a two-byte checksum drawn from
//! a 64-byte hash over a fixed domain tag and the payload. EVM-style
//! addresses arrive as 40 hex digits. A parse failure is final for the
//! builder that needed the address; nothing is guessed or truncated.

use vstd::prelude::*;
use blake2::Digest;
use crate::hex::{spec_hex_valid, spec_hex_to_bytes, hex_string_to_bytes};

verus! {

/// What base-58 decoding (Bitcoin alphabet) yields for a text: a pure
/// function of the characters; `None` exactly on characters outside the
/// alphabet.
pub uninterp spec fn base58_of(s: Seq<char>) -> Option<Seq<u8>>;

/// The 64-byte digest of the `blake2b` hash, 512-bit form, of a byte
/// string: a pure function of the input.
pub uninterp spec fn blake2b512_of(data: Seq<u8>) -> Seq<u8>;

/// Relies on `bs58::decode`: base-58 decoding with the Bitcoin alphabet,
/// deterministic in the text, failing exactly on characters outside the
/// alphabet.
#[verifier::external_body]
fn base58_decode(s: &str) -> (r: Option<Vec<u8>>)
    ensures
        r is Some <==> base58_of(s@) is Some,
        r is Some ==> Some(r->0@) == base58_of(s@),
{
    match bs58::decode(s).into_vec() {
        Ok(v) => Some(v),
        Err(_) => None,
    }
}

/// Relies on `blake2::Blake2b512`: a 64-byte digest that depends on the
/// input bytes alone.
#[verifier::external_body]
fn blake2b_512(data: &Vec<u8>) -> (r: Vec<u8>)
    ensures
        r@ == blake2b512_of(data@),
        r@.len() == 64,
{
    let mut h = blake2::Blake2b512::new();
    h.update(data.as_slice());
    h.finalize().to_vec()
}

/// The domain tag hashed in front of SS58 payloads: the ASCII bytes of
/// `SS58PRE`.
pub open spec fn spec_ss58_prefix() -> Seq<u8> {
    seq![83u8, 83u8, 53u8, 56u8, 80u8, 82u8, 69u8]
}

/// The network prefix this library accepts: the generic Substrate network.
pub open spec fn spec_ss58_network() -> u8 {
    42
}

/// An SS58 address text is valid when it base-58 decodes to 35 bytes: the
/// network prefix, 32 account bytes, and a two-byte checksum equal to the
/// head of the hash of the tagged payload.
pub open spec fn spec_ss58_valid(s: Seq<char>) -> bool {
    match base58_of(s) {
        Some(d) => d.len() == 35 && d[0] == spec_ss58_network() && d.subrange(33, 35)
            == blake2b512_of(spec_ss58_prefix() + d.subrange(0, 33)).subrange(0, 2),
        None => false,
    }
}

/// The 32 account bytes of a valid SS58 address text.
pub open spec fn spec_ss58_account(s: Seq<char>) -> Seq<u8>
    recommends
        spec_ss58_valid(s),
{
    base58_of(s)->0.subrange(1, 33)
}

/// Parses an SS58 account address.
///
/// Returns the 32 account bytes exactly when the text decodes, carries the
/// generic network prefix, and its checksum matches; `None` otherwise.
pub fn ss58_decode(s: &str) -> (r: Option<Vec<u8>>)
    ensures
        r is Some <==> spec_ss58_valid(s@),
        r is Some ==> r->0@ == spec_ss58_account(s@) && r->0@.len() == 32,
{
    let d = match base58_decode(s) {
        Some(d) => d,
        None => {
            return None;
        },
    };
    if d.len() != 35 {
        return None;
    }
    if d[0] != 42 {
        return None;
    }
    let mut tagged: Vec<u8> = Vec::new();
    tagged.push(83);
    tagged.push(83);
    tagged.push(53);
    tagged.push(56);
    tagged.push(80);
    tagged.push(82);
    tagged.push(69);
    let mut i: usize = 0;
    while i < 33
        invariant
            i <= 33,
            d@.len() == 35,
            tagged@.len() == 7 + i,
            tagged@ =~= spec_ss58_prefix() + d@.subrange(0, i as int),
        decreases 33 - i,
    {
        tagged.push(d[i]);
        i = i + 1;
        proof {
            assert(tagged@ =~= spec_ss58_prefix() + d@.subrange(0, i as int));
        }
    }
    let h = blake2b_512(&tagged);
    if h[0] != d[33] || h[1] != d[34] {
        proof {
            assert(!(d@.subrange(33, 35) == blake2b512_of(spec_ss58_prefix() + d@.subrange(0, 33))
                .subrange(0, 2))) by {
                let cs = d@.subrange(33, 35);
                let hh = blake2b512_of(spec_ss58_prefix() + d@.subrange(0, 33)).subrange(0, 2);
                assert(cs[0] == d@[33] && cs[1] == d@[34]);
                assert(hh[0] == h@[0] && hh[1] == h@[1]);
            }
        }
        return None;
    }
    let mut acc: Vec<u8> = Vec::new();
    let mut j: usize = 1;
    while j < 33
        invariant
            1 <= j <= 33,
            d@.len() == 35,
            acc@ =~= d@.subrange(1, j as int),
        decreases 33 - j,
    {
        acc.push(d[j]);
        j = j + 1;
        proof {
            assert(acc@ =~= d@.subrange(1, j as int));
        }
    }
    proof {
        let cs = d@.subrange(33, 35);
        let hh = blake2b512_of(spec_ss58_prefix() + d@.subrange(0, 33)).subrange(0, 2);
        assert(cs[0] == d@[33] && cs[1] == d@[34]);
        assert(hh[0] == h@[0] && hh[1] == h@[1]);
        assert(cs =~= hh);
        assert(spec_ss58_valid(s@));
    }
    Some(acc)
}

/// An EVM address text is exactly 40 hex digits.
pub open spec fn spec_evm_address_valid(s: Seq<char>) -> bool {
    s.len() == 40 && spec_hex_valid(s)
}

/// Parses an EVM-style address: exactly 40 hex digits, yielding 20 bytes.
pub fn evm_address_from_text(s: &String) -> (r: Option<Vec<u8>>)
    ensures
        r is Some <==> spec_evm_address_valid(s@),
        r is Some ==> r->0@ == spec_hex_to_bytes(s@) && r->0@.len() == 20,
{
    let st = s.as_str();
    if st.unicode_len() != 40 {
        return None;
    }
    hex_string_to_bytes(s)
}

} // verus!
