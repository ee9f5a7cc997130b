//! SCALE value encoding.
//!
//! The wire format of every field in a transaction is SCALE: fixed-width
//! integers in little-endian order, length-prefixed byte strings, and the
//! variable-width "compact" integers. The spec functions here state those
//! byte layouts exactly; the executable encoders delegate to the
//! `parity-scale-codec` crate through trusted wrappers whose contracts tie
//! each call to the corresponding spec function.

use vstd::prelude::*;
use vstd::string::StringSliceAdditionalSpecFns;

verus! {

/// Little-endian bytes of a `u16`.
pub open spec fn spec_u16_le(v: u16) -> Seq<u8> {
    seq![(v % 256) as u8, (v / 256) as u8]
}

/// Little-endian bytes of a `u32`.
pub open spec fn spec_u32_le(v: u32) -> Seq<u8> {
    seq![
        (v % 256) as u8,
        ((v / 0x100) % 256) as u8,
        ((v / 0x10000) % 256) as u8,
        ((v / 0x1000000) % 256) as u8,
    ]
}

/// Little-endian bytes of a `u64`.
pub open spec fn spec_u64_le(v: u64) -> Seq<u8> {
    seq![
        (v % 256) as u8,
        ((v / 0x100) % 256) as u8,
        ((v / 0x10000) % 256) as u8,
        ((v / 0x1000000) % 256) as u8,
        ((v / 0x100000000) % 256) as u8,
        ((v / 0x10000000000) % 256) as u8,
        ((v / 0x1000000000000) % 256) as u8,
        ((v / 0x100000000000000) % 256) as u8,
    ]
}

/// Little-endian bytes of a `u128`.
pub open spec fn spec_u128_le(v: u128) -> Seq<u8> {
    seq![
        (v % 256) as u8,
        ((v / 0x100) % 256) as u8,
        ((v / 0x10000) % 256) as u8,
        ((v / 0x1000000) % 256) as u8,
        ((v / 0x100000000) % 256) as u8,
        ((v / 0x10000000000) % 256) as u8,
        ((v / 0x1000000000000) % 256) as u8,
        ((v / 0x100000000000000) % 256) as u8,
        ((v / 0x10000000000000000) % 256) as u8,
        ((v / 0x1000000000000000000) % 256) as u8,
        ((v / 0x100000000000000000000) % 256) as u8,
        ((v / 0x10000000000000000000000) % 256) as u8,
        ((v / 0x1000000000000000000000000) % 256) as u8,
        ((v / 0x100000000000000000000000000) % 256) as u8,
        ((v / 0x10000000000000000000000000000) % 256) as u8,
        ((v / 0x1000000000000000000000000000000) % 256) as u8,
    ]
}

/// SCALE encodes a signed integer as the little-endian bytes of its
/// two's-complement image.
pub open spec fn spec_i64_le(v: i64) -> Seq<u8> {
    spec_u64_le(v as u64)
}

/// Shortest little-endian rendering of a value: no trailing zero bytes.
pub open spec fn spec_min_le(v: nat) -> Seq<u8>
    decreases v,
{
    if v == 0 {
        Seq::empty()
    } else {
        seq![(v % 256) as u8] + spec_min_le(v / 256)
    }
}

/// SCALE compact encoding of a `u32`: two mode bits in the first byte
/// select one, two, four, or one-plus-minimal bytes.
pub open spec fn spec_compact_u32(v: u32) -> Seq<u8> {
    if v < 0x40 {
        seq![(4 * v) as u8]
    } else if v < 0x4000 {
        spec_u16_le((4 * v + 1) as u16)
    } else if v < 0x40000000 {
        spec_u32_le((4 * v + 2) as u32)
    } else {
        seq![3u8] + spec_u32_le(v)
    }
}

/// SCALE compact encoding of a `u64`.
pub open spec fn spec_compact_u64(v: u64) -> Seq<u8> {
    if v < 0x40 {
        seq![(4 * v) as u8]
    } else if v < 0x4000 {
        spec_u16_le((4 * v + 1) as u16)
    } else if v < 0x40000000 {
        spec_u32_le((4 * v + 2) as u32)
    } else {
        seq![(3 + 4 * (spec_min_le(v as nat).len() - 4)) as u8] + spec_min_le(v as nat)
    }
}

/// SCALE compact encoding of a `u128`.
pub open spec fn spec_compact_u128(v: u128) -> Seq<u8> {
    if v < 0x40 {
        seq![(4 * v) as u8]
    } else if v < 0x4000 {
        spec_u16_le((4 * v + 1) as u16)
    } else if v < 0x40000000 {
        spec_u32_le((4 * v + 2) as u32)
    } else {
        seq![(3 + 4 * (spec_min_le(v as nat).len() - 4)) as u8] + spec_min_le(v as nat)
    }
}

/// SCALE encoding of a byte string: compact length prefix, then the bytes.
pub open spec fn spec_scale_bytes(b: Seq<u8>) -> Seq<u8>
    recommends
        b.len() <= u32::MAX,
{
    spec_compact_u32(b.len() as u32) + b
}

/// Powers of 256: the exclusive upper bound of a `k`-byte value.
pub open spec fn spec_pow256(k: nat) -> nat
    decreases k,
{
    if k == 0 {
        1
    } else {
        256 * spec_pow256((k - 1) as nat)
    }
}

/// A value below `256^k` needs at most `k` bytes.
pub proof fn lemma_min_le_len(v: nat, k: nat)
    requires
        v < spec_pow256(k),
    ensures
        spec_min_le(v).len() <= k,
    decreases k,
{
    if v == 0 {
    } else {
        assert(k >= 1) by {
            if k == 0 {
                assert(spec_pow256(0) == 1);
            }
        }
        assert(v / 256 < spec_pow256((k - 1) as nat)) by {
            assert(spec_pow256(k) == 256 * spec_pow256((k - 1) as nat));
        }
        lemma_min_le_len(v / 256, (k - 1) as nat);
    }
}

/// The compact form of a `u32` takes at most 5 bytes.
pub proof fn lemma_compact_u32_len(v: u32)
    ensures
        1 <= spec_compact_u32(v).len() <= 5,
{
}

/// The compact form of a `u64` takes at most 9 bytes.
pub proof fn lemma_compact_u64_len(v: u64)
    ensures
        1 <= spec_compact_u64(v).len() <= 9,
{
    if v >= 0x40000000 {
        assert(spec_pow256(8) == 0x10000000000000000) by {
            reveal_with_fuel(spec_pow256, 9);
        }
        lemma_min_le_len(v as nat, 8);
        assert(spec_min_le(v as nat).len() >= 4) by {
            reveal_with_fuel(spec_min_le, 5);
            assert(spec_pow256(3) == 0x1000000) by {
                reveal_with_fuel(spec_pow256, 4);
            }
            lemma_min_le_lower(v as nat, 3);
        }
    }
}

/// The compact form of a `u128` takes at most 17 bytes.
pub proof fn lemma_compact_u128_len(v: u128)
    ensures
        1 <= spec_compact_u128(v).len() <= 17,
{
    if v >= 0x40000000 {
        assert(spec_pow256(16) == 0x100000000000000000000000000000000) by {
            reveal_with_fuel(spec_pow256, 17);
        }
        lemma_min_le_len(v as nat, 16);
        assert(spec_min_le(v as nat).len() >= 4) by {
            reveal_with_fuel(spec_min_le, 5);
            assert(spec_pow256(3) == 0x1000000) by {
                reveal_with_fuel(spec_pow256, 4);
            }
            lemma_min_le_lower(v as nat, 3);
        }
    }
}

/// A value of at least `256^k` needs more than `k` bytes.
pub proof fn lemma_min_le_lower(v: nat, k: nat)
    requires
        v >= spec_pow256(k),
    ensures
        spec_min_le(v).len() > k,
    decreases k,
{
    assert(spec_pow256(k) >= 1) by {
        lemma_pow256_pos(k);
    }
    if k == 0 {
        assert(v >= 1);
    } else {
        assert(v / 256 >= spec_pow256((k - 1) as nat)) by {
            assert(spec_pow256(k) == 256 * spec_pow256((k - 1) as nat));
        }
        lemma_min_le_lower(v / 256, (k - 1) as nat);
    }
}

/// Powers of 256 are positive.
pub proof fn lemma_pow256_pos(k: nat)
    ensures
        spec_pow256(k) >= 1,
    decreases k,
{
    if k > 0 {
        lemma_pow256_pos((k - 1) as nat);
    }
}

/// Little-endian bytes determine the value: `u16`.
pub proof fn lemma_u16_le_inj(x: u16, y: u16)
    requires
        spec_u16_le(x) == spec_u16_le(y),
    ensures
        x == y,
{
    assert(spec_u16_le(x)[0] == spec_u16_le(y)[0]);
    assert(spec_u16_le(x)[1] == spec_u16_le(y)[1]);
    vstd::arithmetic::div_mod::lemma_fundamental_div_mod(x as int, 256);
    vstd::arithmetic::div_mod::lemma_fundamental_div_mod(y as int, 256);
}

/// Little-endian bytes determine the value: `u32`.
pub proof fn lemma_u32_le_inj(x: u32, y: u32)
    requires
        spec_u32_le(x) == spec_u32_le(y),
    ensures
        x == y,
{
    assert(spec_u32_le(x)[0] == spec_u32_le(y)[0]);
    assert(spec_u32_le(x)[1] == spec_u32_le(y)[1]);
    assert(spec_u32_le(x)[2] == spec_u32_le(y)[2]);
    assert(spec_u32_le(x)[3] == spec_u32_le(y)[3]);
    vstd::arithmetic::div_mod::lemma_div_denominator(x as int, 0x100, 0x100);
    vstd::arithmetic::div_mod::lemma_div_denominator(x as int, 0x10000, 0x100);
    vstd::arithmetic::div_mod::lemma_div_denominator(y as int, 0x100, 0x100);
    vstd::arithmetic::div_mod::lemma_div_denominator(y as int, 0x10000, 0x100);
    vstd::arithmetic::div_mod::lemma_fundamental_div_mod(x as int / 0x10000, 256);
    vstd::arithmetic::div_mod::lemma_fundamental_div_mod(y as int / 0x10000, 256);
    vstd::arithmetic::div_mod::lemma_fundamental_div_mod(x as int / 0x100, 256);
    vstd::arithmetic::div_mod::lemma_fundamental_div_mod(y as int / 0x100, 256);
    vstd::arithmetic::div_mod::lemma_fundamental_div_mod(x as int, 256);
    vstd::arithmetic::div_mod::lemma_fundamental_div_mod(y as int, 256);
}

/// The first byte of a compact `u32` announces its mode in its low two
/// bits, and the mode fixes the length.
proof fn lemma_compact_u32_mode(a: u32)
    ensures
        a < 0x40 ==> spec_compact_u32(a)[0] % 4 == 0 && spec_compact_u32(a).len() == 1,
        0x40 <= a < 0x4000 ==> spec_compact_u32(a)[0] % 4 == 1 && spec_compact_u32(a).len() == 2,
        0x4000 <= a < 0x40000000 ==> spec_compact_u32(a)[0] % 4 == 2 && spec_compact_u32(a).len()
            == 4,
        a >= 0x40000000 ==> spec_compact_u32(a)[0] % 4 == 3 && spec_compact_u32(a).len() == 5,
{
    if a < 0x40 {
        assert((4 * a) % 4 == 0) by {
            vstd::arithmetic::div_mod::lemma_fundamental_div_mod_converse_mod(
                4 * a as int,
                4,
                a as int,
                0,
            );
        }
    } else if a < 0x4000 {
        let v = (4 * a + 1) as u16;
        assert(v == 4 * a + 1);
        let q = v as int / 256;
        vstd::arithmetic::div_mod::lemma_fundamental_div_mod(v as int, 256);
        assert(v % 256 == 4 * (a - 64 * q) + 1);
        assert(a - 64 * q >= 0);
        vstd::arithmetic::div_mod::lemma_fundamental_div_mod_converse_mod(
            v as int % 256,
            4,
            a - 64 * q,
            1,
        );
    } else if a < 0x40000000 {
        let v = (4 * a + 2) as u32;
        assert(v == 4 * a + 2);
        let q = v as int / 256;
        vstd::arithmetic::div_mod::lemma_fundamental_div_mod(v as int, 256);
        assert(v % 256 == 4 * (a - 64 * q) + 2);
        assert(a - 64 * q >= 0);
        vstd::arithmetic::div_mod::lemma_fundamental_div_mod_converse_mod(
            v as int % 256,
            4,
            a - 64 * q,
            2,
        );
    } else {
    }
}

/// The compact encoding of a `u32` is prefix-free: when two encodings
/// start two equal byte strings, the values and the tails agree.
pub proof fn lemma_compact_u32_prefix_free(a: u32, b: u32, s1: Seq<u8>, s2: Seq<u8>)
    requires
        spec_compact_u32(a) + s1 == spec_compact_u32(b) + s2,
    ensures
        a == b,
        s1 == s2,
{
    let ca = spec_compact_u32(a);
    let cb = spec_compact_u32(b);
    lemma_compact_u32_mode(a);
    lemma_compact_u32_mode(b);
    assert(ca[0] == cb[0]) by {
        assert((ca + s1)[0] == (cb + s2)[0]);
    }
    assert(ca.len() == cb.len());
    assert forall|i: int| 0 <= i < ca.len() implies ca[i] == cb[i] by {
        assert((ca + s1)[i] == (cb + s2)[i]);
    }
    if a < 0x40 {
        assert(b < 0x40);
        assert(ca[0] == 4 * a && cb[0] == 4 * b);
    } else if a < 0x4000 {
        assert(0x40 <= b < 0x4000);
        assert(spec_u16_le((4 * a + 1) as u16) =~= spec_u16_le((4 * b + 1) as u16));
        lemma_u16_le_inj((4 * a + 1) as u16, (4 * b + 1) as u16);
    } else if a < 0x40000000 {
        assert(0x4000 <= b < 0x40000000);
        assert(spec_u32_le((4 * a + 2) as u32) =~= spec_u32_le((4 * b + 2) as u32));
        lemma_u32_le_inj((4 * a + 2) as u32, (4 * b + 2) as u32);
    } else {
        assert(b >= 0x40000000);
        assert(spec_u32_le(a) =~= spec_u32_le(b)) by {
            assert forall|i: int| 0 <= i < 4 implies spec_u32_le(a)[i] == spec_u32_le(b)[i] by {
                assert(ca[i + 1] == cb[i + 1]);
            }
        }
        lemma_u32_le_inj(a, b);
    }
    assert(s1 =~= s2) by {
        assert((ca + s1).len() == (cb + s2).len());
        assert forall|i: int| 0 <= i < s1.len() implies s1[i] == s2[i] by {
            assert((ca + s1)[ca.len() + i] == (cb + s2)[cb.len() + i]);
        }
    }
}

/// Appends a copy of `src` to `dst`.
pub fn append_bytes(dst: &mut Vec<u8>, src: &Vec<u8>)
    ensures
        final(dst)@ == old(dst)@ + src@,
{
    let mut i: usize = 0;
    while i < src.len()
        invariant
            i <= src@.len(),
            dst@ =~= old(dst)@ + src@.take(i as int),
        decreases src@.len() - i,
    {
        dst.push(src[i]);
        i = i + 1;
        proof {
            assert(dst@ =~= old(dst)@ + src@.take(i as int));
        }
    }
    proof {
        assert(old(dst)@ + src@.take(src@.len() as int) =~= old(dst)@ + src@);
    }
}

/// Relies on `parity_scale_codec::Encode` for `u32`: fixed-width
/// little-endian bytes.
#[verifier::external_body]
pub(crate) fn scale_u32(v: u32) -> (r: Vec<u8>)
    ensures
        r@ == spec_u32_le(v),
{
    parity_scale_codec::Encode::encode(&v)
}

/// Relies on `parity_scale_codec::Encode` for `u64`: fixed-width
/// little-endian bytes.
#[verifier::external_body]
pub(crate) fn scale_u64(v: u64) -> (r: Vec<u8>)
    ensures
        r@ == spec_u64_le(v),
{
    parity_scale_codec::Encode::encode(&v)
}

/// Relies on `parity_scale_codec::Encode` for `u128`: fixed-width
/// little-endian bytes.
#[verifier::external_body]
pub(crate) fn scale_u128(v: u128) -> (r: Vec<u8>)
    ensures
        r@ == spec_u128_le(v),
{
    parity_scale_codec::Encode::encode(&v)
}

/// Relies on `parity_scale_codec::Encode` for `i64`: little-endian bytes of
/// the two's-complement image.
#[verifier::external_body]
pub(crate) fn scale_i64(v: i64) -> (r: Vec<u8>)
    ensures
        r@ == spec_i64_le(v),
{
    parity_scale_codec::Encode::encode(&v)
}

/// Relies on `parity_scale_codec::Encode` for `Compact<u32>`.
#[verifier::external_body]
pub(crate) fn scale_compact_u32(v: u32) -> (r: Vec<u8>)
    ensures
        r@ == spec_compact_u32(v),
{
    parity_scale_codec::Encode::encode(&parity_scale_codec::Compact(v))
}

/// Relies on `parity_scale_codec::Encode` for `Compact<u64>`.
#[verifier::external_body]
pub(crate) fn scale_compact_u64(v: u64) -> (r: Vec<u8>)
    ensures
        r@ == spec_compact_u64(v),
{
    parity_scale_codec::Encode::encode(&parity_scale_codec::Compact(v))
}

/// Relies on `parity_scale_codec::Encode` for `Compact<u128>`.
#[verifier::external_body]
pub(crate) fn scale_compact_u128(v: u128) -> (r: Vec<u8>)
    ensures
        r@ == spec_compact_u128(v),
{
    parity_scale_codec::Encode::encode(&parity_scale_codec::Compact(v))
}

/// Relies on `parity_scale_codec::Encode` for `Vec<u8>`: compact length
/// prefix followed by the bytes. The codec refuses collections longer than
/// `u32::MAX`.
#[verifier::external_body]
pub(crate) fn scale_byte_vec(b: &Vec<u8>) -> (r: Vec<u8>)
    requires
        b@.len() <= u32::MAX,
    ensures
        r@ == spec_scale_bytes(b@),
{
    parity_scale_codec::Encode::encode(b)
}

/// Relies on `parity_scale_codec::Encode` for `str`: compact length prefix
/// followed by the UTF-8 bytes.
#[verifier::external_body]
pub(crate) fn scale_str(s: &str) -> (r: Vec<u8>)
    requires
        s.spec_bytes().len() <= u32::MAX,
    ensures
        r@ == spec_scale_bytes(s.spec_bytes()),
{
    parity_scale_codec::Encode::encode(s)
}

} // verus!
