//! Transaction mortality.
//!
//! A mortal transaction is valid for a window of `period` blocks anchored at
//! `phase`: the period is a power of two between 4 and 65536, and the phase
//! is the anchor block number reduced modulo the period (quantized for
//! periods above 4096). The pair encodes into two bytes; an immortal era is
//! the single zero byte.

use vstd::prelude::*;
use crate::scale::spec_u16_le;

verus! {

/// Powers of two.
pub open spec fn spec_is_pow2(p: nat) -> bool
    decreases p,
{
    if p == 0 {
        false
    } else if p == 1 {
        true
    } else {
        p % 2 == 0 && spec_is_pow2(p / 2)
    }
}

/// Largest power of two at most `m` (1 when `m` is 0).
pub open spec fn spec_floor_pow2(m: nat) -> nat
    decreases m,
{
    if m < 2 {
        1
    } else {
        2 * spec_floor_pow2(m / 2)
    }
}

/// Smallest power of two at least `m`.
pub open spec fn spec_ceil_pow2(m: nat) -> nat
    decreases m,
{
    if m <= 1 {
        1
    } else {
        2 * spec_ceil_pow2((m + 1) / 2)
    }
}

/// Base-two logarithm, rounded down.
pub open spec fn spec_log2(p: nat) -> nat
    decreases p,
{
    if p <= 1 {
        0
    } else {
        1 + spec_log2(p / 2)
    }
}

/// The mortality period derived from the chain's block-hash retention
/// count: the largest power of two no greater than half the count, but at
/// least 2.
pub open spec fn spec_period_of(count: u64) -> nat {
    if spec_floor_pow2((count / 2) as nat) < 2 {
        2
    } else {
        spec_floor_pow2((count / 2) as nat)
    }
}

/// Mortality window of a transaction.
#[derive(Clone, Copy, Debug, PartialEq, Eq, Structural)]
pub enum Era {
    /// Valid forever; encodes as one zero byte.
    Immortal,
    /// Valid for `period` blocks, anchored at `phase`.
    Mortal { period: u64, phase: u64 },
}

/// Quantization step for a period: periods above 4096 round their phase
/// down to a multiple of `period / 4096`.
pub open spec fn spec_quantize_factor(period: u64) -> nat {
    if period / 4096 >= 1 {
        (period / 4096) as nat
    } else {
        1
    }
}

/// A well-formed era: the period is a power of two in `[4, 65536]` and the
/// phase lies below it on a quantization step.
pub open spec fn spec_era_wf(e: Era) -> bool {
    match e {
        Era::Immortal => true,
        Era::Mortal { period, phase } => spec_is_pow2(period as nat) && 4 <= period <= 65536
            && phase < period && phase as nat % spec_quantize_factor(period) == 0,
    }
}

/// Two-bit . fourteen-bit packing of a mortal era: the low four bits hold
/// `log2(period) - 1` (clamped to `[1, 15]`), the high twelve the quantized
/// phase index; little-endian. An immortal era is the single zero byte.
pub open spec fn spec_era_bytes(e: Era) -> Seq<u8> {
    match e {
        Era::Immortal => seq![0u8],
        Era::Mortal { period, phase } => {
            let low = if spec_log2(period as nat) <= 1 {
                1
            } else if spec_log2(period as nat) - 1 > 15 {
                15
            } else {
                spec_log2(period as nat) - 1
            };
            let idx = phase as nat / spec_quantize_factor(period);
            spec_u16_le((idx * 16 + low) as u16)
        },
    }
}

/// The era a mortal transaction gets for a requested period and anchor
/// block: the period rounded up to a power of two and clamped to
/// `[4, 65536]`, the phase reduced modulo the period and quantized.
pub open spec fn spec_era_mortal(period: u64, current: u64) -> Era {
    let c = spec_ceil_pow2(period as nat);
    let p = if c < 4 {
        4 as nat
    } else if c > 65536 {
        65536 as nat
    } else {
        c
    };
    let qf = spec_quantize_factor(p as u64);
    let ph = (current as nat % p) / qf * qf;
    Era::Mortal { period: p as u64, phase: ph as u64 }
}

/// `floor_pow2` is the unique power of two `p` with `p <= m < 2 * p`.
proof fn lemma_floor_pow2_unique(p: nat, m: nat)
    requires
        spec_is_pow2(p),
        p <= m < 2 * p,
    ensures
        spec_floor_pow2(m) == p,
    decreases p,
{
    if p == 1 {
        assert(m == 1);
    } else {
        assert(p % 2 == 0 && spec_is_pow2(p / 2));
        assert(p / 2 <= m / 2 < 2 * (p / 2));
        lemma_floor_pow2_unique(p / 2, m / 2);
        assert(m >= 2);
    }
}

/// `ceil_pow2` is the unique power of two `p` with `p / 2 < m <= p`.
proof fn lemma_ceil_pow2_unique(p: nat, m: nat)
    requires
        spec_is_pow2(p),
        p / 2 < m <= p,
    ensures
        spec_ceil_pow2(m) == p,
    decreases p,
{
    if p == 1 {
        assert(m == 1);
    } else {
        assert(p % 2 == 0 && spec_is_pow2(p / 2));
        assert(p / 4 < (m + 1) / 2 <= p / 2) by {
            assert(p / 2 < m);
        }
        lemma_ceil_pow2_unique(p / 2, ((m + 1) / 2) as nat);
        assert(m > 1);
    }
}

/// `ceil_pow2` never rounds down.
proof fn lemma_ceil_pow2_ge(m: nat)
    ensures
        spec_ceil_pow2(m) >= m,
    decreases m,
{
    if m <= 1 {
    } else {
        lemma_ceil_pow2_ge(((m + 1) / 2) as nat);
        assert(2 * ((m + 1) / 2) >= m);
    }
}

/// Small powers of two are powers of two.
proof fn lemma_pow2_consts()
    ensures
        spec_is_pow2(1),
        spec_is_pow2(2),
        spec_is_pow2(4),
        spec_is_pow2(4096),
        spec_is_pow2(32768),
        spec_is_pow2(65536),
{
    reveal_with_fuel(spec_is_pow2, 20);
}

/// The mortality period for a block-hash retention count.
pub fn mortality_period(count: u64) -> (p: u64)
    ensures
        p as nat == spec_period_of(count),
        spec_is_pow2(p as nat),
        p >= 2,
{
    proof {
        lemma_pow2_consts();
    }
    let half = count / 2;
    if half < 2 {
        proof {
            assert(spec_floor_pow2((count / 2) as nat) < 2);
        }
        return 2;
    }
    let mut p: u64 = 2;
    while p <= half / 2
        invariant
            2 <= p <= half,
            spec_is_pow2(p as nat),
            half == count / 2,
        decreases half - p,
    {
        proof {
            assert(2 * (p as nat) % 2 == 0);
            assert((2 * (p as nat)) / 2 == p as nat);
        }
        p = p * 2;
    }
    proof {
        assert(p as nat <= half as nat && (half as nat) < 2 * (p as nat)) by {
            assert(p > half / 2);
        }
        lemma_floor_pow2_unique(p as nat, half as nat);
    }
    p
}

/// Builds a mortal era: the period is rounded up to a power of two and
/// clamped to `[4, 65536]`, the phase is the anchor block reduced modulo
/// the period and rounded down to a quantization step. For periods of at
/// most 4096 the phase is exactly `current % period`.
pub fn era_mortal(period: u64, current: u64) -> (e: Era)
    ensures
        spec_era_wf(e),
        e == spec_era_mortal(period, current),
        e is Mortal,
        e matches Era::Mortal { period: p, phase } ==> {
            &&& p as nat == {
                let c = spec_ceil_pow2(period as nat);
                if c < 4 {
                    4
                } else if c > 65536 {
                    65536
                } else {
                    c
                }
            }
            &&& phase as nat == (current as nat % p as nat) / spec_quantize_factor(p)
                * spec_quantize_factor(p)
            &&& (p <= 4096 ==> phase == current as u64 % p)
        },
{
    proof {
        lemma_pow2_consts();
    }
    let mut p: u64 = 4;
    while p < period && p <= 32768
        invariant
            4 <= p <= 65536,
            spec_is_pow2(p as nat),
            p as nat / 2 < period as nat || p == 4,
            period <= 4 ==> p == 4,
        decreases 65536u64 - p,
    {
        proof {
            assert(2 * (p as nat) % 2 == 0);
            assert((2 * (p as nat)) / 2 == p as nat);
        }
        p = p * 2;
    }
    proof {
        lemma_pow2_consts();
        let c = spec_ceil_pow2(period as nat);
        if period <= 4 {
            if period >= 3 {
                lemma_ceil_pow2_unique(4, period as nat);
            } else if period == 2 {
                lemma_ceil_pow2_unique(2, 2);
            } else if period == 1 {
                lemma_ceil_pow2_unique(1, 1);
            } else {
                assert(c == 1);
            }
            assert(p == 4);
            assert(c <= 4);
        } else if p < period {
            lemma_pow2_no_strict_between(p as nat, 32768);
            assert(p as nat == 2 * (p as nat / 2));
            assert(p == 65536);
            lemma_ceil_pow2_ge(period as nat);
            assert(c >= period as nat && (period as nat) > 65536);
        } else {
            assert(p as nat / 2 < period as nat && period as nat <= p as nat);
            lemma_ceil_pow2_unique(p as nat, period as nat);
        }
    }
    let phase = current % p;
    let qf_raw = p / 4096;
    let qf = if qf_raw >= 1 {
        qf_raw
    } else {
        1
    };
    proof {
        assert((phase as nat) / (qf as nat) * (qf as nat) <= phase as nat) by (nonlinear_arith)
            requires
                qf >= 1,
        ;
    }
    let quantized = phase / qf * qf;
    proof {
        assert(qf as nat == spec_quantize_factor(p));
        assert(quantized <= phase < p) by {
            assert((phase as nat) / (qf as nat) * (qf as nat) <= phase as nat)
                by (nonlinear_arith)
                requires
                    qf >= 1,
            ;
        }
        assert(quantized as nat % qf as nat == 0) by {
            assert((phase as nat) / (qf as nat) * (qf as nat) % (qf as nat) == 0)
                by (nonlinear_arith)
                requires
                    qf >= 1,
            ;
        }
        if p <= 4096 {
            assert(qf == 1);
        }
    }
    Era::Mortal { period: p, phase: quantized }
}

/// Exec mirror of [`spec_log2`], for the period range.
fn log2_u64(p: u64) -> (r: u64)
    requires
        1 <= p <= 65536,
    ensures
        r as nat == spec_log2(p as nat),
        r <= 16,
{
    proof {
        vstd::arithmetic::power2::lemma2_to64();
    }
    let mut v: u64 = p;
    let mut r: u64 = 0;
    while v > 1
        invariant
            1 <= v <= p,
            r <= 16,
            spec_log2(p as nat) == r as nat + spec_log2(v as nat),
            vstd::arithmetic::power2::pow2(r as nat) * (v as nat) <= 65536,
        decreases v,
    {
        proof {
            let pr = vstd::arithmetic::power2::pow2(r as nat);
            let pr1 = vstd::arithmetic::power2::pow2((r + 1) as nat);
            vstd::arithmetic::power2::lemma_pow2_unfold((r + 1) as nat);
            assert(pr1 * ((v / 2) as nat) <= pr * (v as nat)) by (nonlinear_arith)
                requires
                    pr1 == 2 * pr,
                    pr >= 0,
                    2 * ((v / 2) as nat) <= v as nat,
            ;
            assert(pr1 <= pr1 * ((v / 2) as nat)) by (nonlinear_arith)
                requires
                    pr1 >= 0,
                    ((v / 2) as nat) >= 1,
            ;
            if r + 1 > 16 {
                vstd::arithmetic::power2::lemma_pow2_strictly_increases(16, (r + 1) as nat);
                vstd::arithmetic::power2::lemma2_to64();
                assert(false);
            }
            assert(spec_log2(v as nat) == 1 + spec_log2((v as nat) / 2));
        }
        v = v / 2;
        r = r + 1;
    }
    r
}

/// Encodes an era into its wire bytes.
pub fn era_bytes(e: &Era) -> (r: Vec<u8>)
    requires
        spec_era_wf(*e),
    ensures
        r@ == spec_era_bytes(*e),
{
    match e {
        Era::Immortal => {
            let mut v: Vec<u8> = Vec::new();
            v.push(0u8);
            proof {
                assert(v@ =~= spec_era_bytes(*e));
            }
            v
        },
        Era::Mortal { period, phase } => {
            let period = *period;
            let phase = *phase;
            let lg = log2_u64(period);
            let low = if lg <= 1 {
                1u64
            } else if lg - 1 > 15 {
                15u64
            } else {
                lg - 1
            };
            let qf_raw = period / 4096;
            let qf = if qf_raw >= 1 {
                qf_raw
            } else {
                1
            };
            let idx = phase / qf;
            proof {
                assert(qf as nat == spec_quantize_factor(period));
                assert(idx < 4096) by {
                    if period <= 4096 {
                        assert(qf == 1);
                    } else {
                        lemma_pow2_div_exact(period as nat);
                        assert(qf as nat == period as nat / 4096);
                        assert(period as nat / (qf as nat) == 4096);
                        assert(period as nat % (qf as nat) == 0);
                        assert((phase as nat) / (qf as nat) < (period as nat) / (qf as nat))
                            by (nonlinear_arith)
                            requires
                                qf >= 1,
                                0 <= phase < period,
                                period as nat % qf as nat == 0,
                        ;
                    }
                }
                assert(low <= 15);
            }
            let encoded: u16 = (idx * 16 + low) as u16;
            let mut v: Vec<u8> = Vec::new();
            v.push((encoded % 256) as u8);
            v.push((encoded / 256) as u8);
            proof {
                assert(v@ =~= spec_era_bytes(*e));
            }
            v
        },
    }
}

/// A power of two of at least 4096 divides into 4096 exactly.
proof fn lemma_pow2_div_exact(p: nat)
    requires
        spec_is_pow2(p),
        p > 4096,
    ensures
        p % (p / 4096) == 0,
        p / (p / 4096) == 4096,
    decreases p,
{
    if p / 2 > 4096 {
        lemma_pow2_div_exact(p / 2);
        assert(p % 2 == 0);
        let q = p / 2;
        assert(p == 2 * q);
        assert((2 * q) / 4096 == 2 * (q / 4096) + (2 * (q % 4096)) / 4096) by (nonlinear_arith)
            requires
                q >= 0,
        ;
        assert(q % 4096 == 0) by {
            lemma_pow2_mod_4096(q);
        }
        assert(p / 4096 == 2 * (q / 4096));
        assert(p % (p / 4096) == 0 && p / (p / 4096) == 4096) by (nonlinear_arith)
            requires
                p == 2 * q,
                q % (q / 4096) == 0,
                q / (q / 4096) == 4096,
                q / 4096 >= 1,
                p / 4096 == 2 * (q / 4096),
        ;
    } else {
        assert(p % 2 == 0 && spec_is_pow2(p / 2));
        assert(p / 2 <= 4096 && p > 4096);
        assert(p == 2 * (p / 2));
        assert(p <= 8192);
        assert(p == 8192) by {
            lemma_pow2_between(p);
        }
        assert(p / 4096 == 2);
    }
}

/// A power of two above 4096 is a multiple of 4096.
proof fn lemma_pow2_mod_4096(p: nat)
    requires
        spec_is_pow2(p),
        p >= 4096,
    ensures
        p % 4096 == 0,
    decreases p,
{
    if p == 4096 {
    } else {
        assert(p % 2 == 0 && spec_is_pow2(p / 2));
        assert(p / 2 >= 4096) by {
            lemma_pow2_consts();
            lemma_pow2_no_strict_between(p, 4096);
        }
        lemma_pow2_mod_4096(p / 2);
        assert(p == 2 * (p / 2));
        assert((2 * (p / 2)) % 4096 == 0) by (nonlinear_arith)
            requires
                (p / 2) % 4096 == 0,
                p / 2 >= 0,
        ;
    }
}

/// There is no power of two strictly between `q` and `2 * q` for a power of
/// two `q`: a power of two `p > q` satisfies `p / 2 >= q`.
proof fn lemma_pow2_no_strict_between(p: nat, q: nat)
    requires
        spec_is_pow2(p),
        spec_is_pow2(q),
        p > q,
    ensures
        p / 2 >= q,
    decreases p,
{
    if q == 1 {
        assert(p >= 2);
    } else {
        assert(p % 2 == 0 && spec_is_pow2(p / 2));
        assert(q % 2 == 0 && spec_is_pow2(q / 2));
        if p / 2 > q / 2 {
            lemma_pow2_no_strict_between(p / 2, q / 2);
            assert(p / 2 == 2 * (p / 4));
            assert(q == 2 * (q / 2));
        } else {
            assert(p / 2 <= q / 2);
            assert(p == 2 * (p / 2) && q == 2 * (q / 2));
            assert(p <= q);
            assert(false);
        }
    }
}

/// A power of two in `(4096, 8192]` is 8192.
proof fn lemma_pow2_between(p: nat)
    requires
        spec_is_pow2(p),
        4096 < p <= 8192,
    ensures
        p == 8192,
{
    lemma_pow2_consts();
    lemma_pow2_no_strict_between(p, 4096);
    assert(p / 2 >= 4096);
    assert(p % 2 == 0) by {
        assert(p > 1);
    }
    assert(p == 2 * (p / 2));
    if p < 8192 {
        assert(p / 2 < 4096);
        assert(false);
    }
}

} // verus!
