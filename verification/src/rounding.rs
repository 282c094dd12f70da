//! Whole numbers as single-precision patterns.
//!
//! A whole number up to 2^24 has a pattern of its own. A larger one is
//! rounded to the nearest number that has 24 significant bits; where two are
//! equally near, to the one whose last bit is zero.

use crate::scalar::Scalar;
use vstd::arithmetic::power2::{lemma2_to64, lemma_pow2_adds, lemma_pow2_pos, lemma_pow2_unfold, pow2};
use vstd::prelude::*;

verus! {

/// Position of the highest bit that is set in `v`: the `e` with
/// `2^e <= v < 2^(e + 1)`, for `v` above zero.
pub open spec fn top_bit(v: nat) -> nat
    decreases v,
{
    if v <= 1 {
        0
    } else {
        1 + top_bit(v / 2)
    }
}

/// `v / d` rounded to the nearest whole number; a quotient that lies half
/// way between two goes to the even one.
pub open spec fn rounded_quotient(v: nat, d: nat) -> nat
    recommends
        d > 0,
{
    let q = v / d;
    let r = v % d;
    if 2 * r > d || (2 * r == d && q % 2 == 1) {
        q + 1
    } else {
        q
    }
}

/// The 24 significant bits of `v`, for `v` above zero: `v` scaled so that
/// its highest bit stands at position 23, and rounded where bits are lost.
/// The result lies between 2^23 and 2^24, both included.
pub open spec fn significand(v: nat) -> nat {
    let e = top_bit(v);
    if e <= 23 {
        v * pow2((23 - e) as nat)
    } else {
        rounded_quotient(v, pow2((e - 23) as nat))
    }
}

/// Every number above zero lies between the power of two at its highest bit
/// and the next power.
pub proof fn lemma_top_bit_bounds(v: nat)
    requires
        v > 0,
    ensures
        pow2(top_bit(v)) <= v < 2 * pow2(top_bit(v)),
    decreases v,
{
    if v <= 1 {
        lemma2_to64();
    } else {
        lemma_top_bit_bounds(v / 2);
        lemma_pow2_unfold(top_bit(v));
    }
}

/// The position of the highest bit is the only `e` with
/// `2^e <= v < 2^(e + 1)`.
pub proof fn lemma_top_bit_unique(v: nat, e: nat)
    requires
        pow2(e) <= v < 2 * pow2(e),
    ensures
        top_bit(v) == e,
    decreases v,
{
    lemma_pow2_pos(e);
    if e == 0 {
        lemma2_to64();
    } else {
        lemma_pow2_unfold(e);
        lemma_top_bit_unique(v / 2, (e - 1) as nat);
    }
}

impl Scalar {
    /// The pattern of the number nearest to `v`.
    pub open spec fn of_u32(v: u32) -> Scalar {
        if v == 0 {
            Scalar { bits: 0 }
        } else {
            Scalar {
                bits: ((127 + top_bit(v as nat)) * 0x80_0000 + (significand(v as nat) - 0x80_0000)) as u32,
            }
        }
    }

    /// Converts a whole number, rounding to nearest with ties to even.
    pub fn from_u32(v: u32) -> (r: Scalar)
        ensures
            r == Scalar::of_u32(v),
    {
        if v == 0 {
            return Scalar { bits: 0 };
        }
        let wide: u64 = v as u64;
        let mut e: u32 = 0;
        let mut p: u64 = 1;
        proof {
            lemma2_to64();
        }
        while 2 * p <= wide
            invariant
                wide == v,
                e <= 31,
                p == pow2(e as nat),
                1 <= p <= wide,
            decreases wide - p,
        {
            proof {
                lemma_pow2_unfold((e + 1) as nat);
                if e >= 31 {
                    lemma2_to64();
                    assert(pow2(32) == 2 * pow2(31)) by {
                        lemma_pow2_unfold(32);
                    }
                }
            }
            p = 2 * p;
            e = e + 1;
        }
        proof {
            lemma_top_bit_unique(v as nat, e as nat);
        }
        let m: u64 = if e <= 23 {
            let scale: u64 = 0x80_0000 / p;
            proof {
                lemma2_to64();
                lemma_pow2_adds(e as nat, (23 - e) as nat);
                lemma_pow2_pos((23 - e) as nat);
                let s = pow2((23 - e) as nat) as int;
                let pi = p as int;
                let wi = wide as int;
                assert(0x80_0000 == pi * s);
                assert((pi * s) / pi == s) by (nonlinear_arith)
                    requires
                        pi > 0,
                        s >= 0,
                ;
                assert(scale == s);
                assert(wi * s < 2 * (pi * s) && wi * s >= pi * s) by (nonlinear_arith)
                    requires
                        pi <= wi < 2 * pi,
                        s > 0,
                ;
            }
            wide * scale
        } else {
            let d: u64 = p / 0x80_0000;
            proof {
                lemma2_to64();
                lemma_pow2_adds(23, (e - 23) as nat);
                lemma_pow2_pos((e - 23) as nat);
                let s = pow2((e - 23) as nat) as int;
                let wi = wide as int;
                assert(p == 0x80_0000 * s);
                assert((0x80_0000 * s) / 0x80_0000 == s) by (nonlinear_arith)
                    requires
                        s >= 0,
                ;
                assert(d == s);
                assert(wi / s >= 0x80_0000 && wi / s < 0x100_0000) by (nonlinear_arith)
                    requires
                        s > 0,
                        0x80_0000 * s <= wi < 2 * (0x80_0000 * s),
                ;
            }
            let q: u64 = wide / d;
            let r: u64 = wide % d;
            if 2 * r > d || (2 * r == d && q % 2 == 1) {
                q + 1
            } else {
                q
            }
        };
        assert(m == significand(v as nat));
        assert(0x80_0000 <= m <= 0x100_0000);
        let bits: u64 = (127 + e as u64) * 0x80_0000 + (m - 0x80_0000);
        Scalar { bits: bits as u32 }
    }
}

/// A whole number below 2^24 is kept as it is: its significand, scaled back
/// by its exponent, is the number itself.
pub proof fn lemma_small_is_exact(v: u32)
    requires
        0 < v < 0x100_0000,
    ensures
        top_bit(v as nat) <= 23,
        significand(v as nat) * pow2(top_bit(v as nat)) == v * 0x80_0000,
{
    let e = top_bit(v as nat);
    lemma_top_bit_bounds(v as nat);
    lemma2_to64();
    if e > 23 {
        vstd::arithmetic::power2::lemma_pow2_strictly_increases(23, e);
        lemma_pow2_unfold(24);
        if e > 24 {
            vstd::arithmetic::power2::lemma_pow2_strictly_increases(24, e);
        }
        assert(false);
    }
    lemma_pow2_adds((23 - e) as nat, e);
    let s = pow2((23 - e) as nat);
    let p = pow2(e);
    assert((v * s) * p == v * (s * p)) by (nonlinear_arith);
}

/// A whole number from 2^24 on is off by at most half a unit of its last
/// significant bit, and where it is off by exactly half a unit, the last
/// significant bit is zero.
pub proof fn lemma_large_is_nearest(v: u32)
    requires
        v >= 0x100_0000,
    ensures
        top_bit(v as nat) >= 24,
        ({
            let unit = pow2((top_bit(v as nat) - 23) as nat);
            let kept = significand(v as nat) * unit;
            &&& 2 * (kept - v) <= unit
            &&& 2 * (v - kept) <= unit
            &&& (2 * (kept - v) == unit || 2 * (v - kept) == unit) ==> significand(v as nat) % 2
                == 0
        }),
{
    let e = top_bit(v as nat);
    lemma_top_bit_bounds(v as nat);
    lemma2_to64();
    if e < 24 {
        if e < 23 {
            vstd::arithmetic::power2::lemma_pow2_strictly_increases(e, 23);
        }
        lemma_pow2_unfold(24);
        assert(false);
    }
    let unit = pow2((e - 23) as nat);
    lemma_pow2_pos((e - 23) as nat);
    let q = (v as nat) / unit;
    let r = (v as nat) % unit;
    vstd::arithmetic::div_mod::lemma_fundamental_div_mod(v as int, unit as int);
    assert(0 <= r < unit) by {
        vstd::arithmetic::div_mod::lemma_mod_bound(v as int, unit as int);
    }
    assert((q + 1) * unit == q * unit + unit) by (nonlinear_arith);
    assert(unit * q == q * unit) by (nonlinear_arith);
}

} // verus!
