//! Exact wide arithmetic on `u128` values.
//!
//! The fixed-point type needs `floor(a * b / d)` where the product `a * b`
//! can take 256 bits. `mul_wide` produces the product as a high/low pair and
//! `div_wide_sat` divides such a pair by a nonzero `u128`, saturating at
//! `u128::MAX` when the quotient does not fit.

use vstd::prelude::*;
use vstd::arithmetic::div_mod::{
    lemma_div_is_ordered, lemma_div_multiples_vanish, lemma_fundamental_div_mod_converse,
    lemma_breakdown, lemma_div_denominator, lemma_basic_div, lemma_small_mod,
};
use vstd::arithmetic::mul::lemma_mul_upper_bound;
use vstd::arithmetic::power2::{lemma2_to64, lemma_pow2_adds, lemma_pow2_pos, lemma_pow2_strictly_increases, pow2};

verus! {

/// `2^64`, the base used to split a `u128` into halves.
pub const TWO64: u128 = 0x1_0000_0000_0000_0000;

/// `2^127`, used to read the top bit of a `u128`.
pub const TWO127: u128 = 0x8000_0000_0000_0000_0000_0000_0000_0000;

/// `2^128` as a mathematical integer.
pub open spec fn two128() -> int {
    0x1_0000_0000_0000_0000_0000_0000_0000_0000int
}

/// The value of a high/low pair of `u128` halves of a 256-bit number.
pub open spec fn wide(hi: u128, lo: u128) -> int {
    hi * two128() + lo
}

/// Clamp a mathematical integer into the `u128` range from above.
pub open spec fn sat_u128(x: int) -> int {
    if x > u128::MAX {
        u128::MAX as int
    } else {
        x
    }
}

/// Full 128x128 -> 256 bit multiplication, exact.
pub fn mul_wide(a: u128, b: u128) -> (r: (u128, u128))
    ensures
        wide(r.0, r.1) == a * b,
{
    let a1 = a / TWO64;
    let a0 = a % TWO64;
    let b1 = b / TWO64;
    let b0 = b % TWO64;
    proof {
        lemma_mul_upper_bound(a1 as int, 0xffff_ffff_ffff_ffff, b1 as int, 0xffff_ffff_ffff_ffff);
        lemma_mul_upper_bound(a1 as int, 0xffff_ffff_ffff_ffff, b0 as int, 0xffff_ffff_ffff_ffff);
        lemma_mul_upper_bound(a0 as int, 0xffff_ffff_ffff_ffff, b1 as int, 0xffff_ffff_ffff_ffff);
        lemma_mul_upper_bound(a0 as int, 0xffff_ffff_ffff_ffff, b0 as int, 0xffff_ffff_ffff_ffff);
    }
    let p00 = a0 * b0;
    let p01 = a0 * b1;
    let p10 = a1 * b0;
    let p11 = a1 * b1;
    let mid = p10 + p00 / TWO64;
    let mid2 = p01 + mid % TWO64;
    let hi = p11 + mid / TWO64 + mid2 / TWO64;
    let lo = (mid2 % TWO64) * TWO64 + p00 % TWO64;
    proof {
        let t = TWO64 as int;
        assert((a as int) * (b as int) == p11 * t * t + (p01 + p10) * t + p00)
            by (nonlinear_arith)
            requires
                a == a1 * t + a0,
                b == b1 * t + b0,
                p00 == a0 * b0,
                p01 == a0 * b1,
                p10 == a1 * b0,
                p11 == a1 * b1,
        ;
        assert(hi * two128() + lo == p11 * t * t + (p01 + p10) * t + p00)
            by (nonlinear_arith)
            requires
                t == TWO64 as int,
                two128() == t * t,
                hi == p11 + mid as int / t + mid2 as int / t,
                lo == (mid2 as int % t) * t + p00 as int % t,
                mid == p10 + p00 as int / t,
                mid2 == p01 + mid as int % t,
                p00 == t * (p00 as int / t) + p00 as int % t,
                mid == t * (mid as int / t) + mid as int % t,
                mid2 == t * (mid2 as int / t) + mid2 as int % t,
        ;
    }
    (hi, lo)
}

/// `floor(wide(hi, lo) / (d as int))`, saturating at `u128::MAX`, by restoring
/// binary long division once the easy saturating case is peeled off.
pub fn div_wide_sat(hi: u128, lo: u128, d: u128) -> (q: u128)
    requires
        d > 0,
    ensures
        q == sat_u128(wide(hi, lo) / (d as int)),
{
    if hi >= d {
        proof {
            let n = wide(hi, lo);
            assert(d * two128() <= hi * two128()) by (nonlinear_arith)
                requires d <= hi,
            ;
            lemma_div_multiples_vanish(two128(), d as int);
            lemma_div_is_ordered(d * two128(), n, d as int);
        }
        u128::MAX
    } else {
        let mut q: u128 = 0;
        let mut rem: u128 = hi;
        let mut l: u128 = lo;
        let mut k: usize = 0;
        proof {
            lemma2_to64();
            lemma_pow2_adds(64, 64);
            lemma_pow2_adds(64, 32);
            lemma_pow2_adds(96, 31);
            lemma_basic_div(lo as int, pow2(128) as int);
            lemma_small_mod(lo as nat, pow2(128));
            assert(hi * pow2(0) == hi * 1 == hi);
            assert((lo as int % pow2(128) as int) * pow2(0) as int == lo as int * 1 == lo);
        }
        while k < 128
            invariant
                0 < d,
                hi < d,
                k <= 128,
                rem < d,
                q < pow2(k as nat),
                d * q + rem == hi * pow2(k as nat) + lo as int / pow2((128 - k) as nat) as int,
                l == (lo as int % pow2((128 - k) as nat) as int) * pow2(k as nat),
                pow2(128) == two128(),
                pow2(127) == TWO127,
            decreases 128 - k,
        {
            let ghost m: nat = (128 - k) as nat;
            let ghost pk = pow2(k as nat) as int;
            let ghost pm1 = pow2((m - 1) as nat) as int;
            let ghost prefix = hi * pk + lo as int / pow2(m) as int;
            proof {
                lemma_pow2_pos((m - 1) as nat);
                lemma_pow2_pos(k as nat);
                lemma_pow2_adds((m - 1) as nat, 1);
                lemma_pow2_adds(k as nat, 1);
                lemma_pow2_adds((m - 1) as nat, k as nat);
                lemma2_to64();
            }
            // Split the remaining low bits at the top: the next quotient bit.
            let ghost low_rest = lo as int % pm1;
            proof {
                lemma_breakdown(lo as int, pm1, 2);
                // lo % (pm1 * 2) == pm1 * ((lo / pm1) % 2) + lo % pm1
                assert(pm1 * 2 == pow2(m) as int);
                lemma_div_denominator(lo as int, pm1, 2);
                // (lo / pm1) / 2 == lo / (pm1 * 2)
            }
            let ghost bit = (lo as int / pm1) % 2;
            proof {
                // l == (bit * pm1 + low_rest) * pk == bit * (pm1 * pk) + low_rest * pk
                assert(l == bit * (pm1 * pk) + low_rest * pk) by (nonlinear_arith)
                    requires
                        l == (lo as int % (pm1 * 2)) * pk,
                        lo as int % (pm1 * 2) == pm1 * bit + low_rest,
                ;
                assert(pm1 * pk == pow2(127) as int);
                assert(low_rest * pk < pm1 * pk) by (nonlinear_arith)
                    requires
                        0 <= low_rest < pm1,
                        0 < pk,
                ;
                assert(0 <= low_rest * pk) by (nonlinear_arith)
                    requires
                        0 <= low_rest,
                        0 < pk,
                ;
                // So the top bit of l is exactly `bit`.
                assert(0 <= bit < 2);
                assert(l == bit * TWO127 as int + low_rest * pk);
            }
            let top: u128 = l / TWO127;
            let lrest: u128 = l % TWO127;
            proof {
                if bit == 1 {
                    assert(l == TWO127 as int + low_rest * pk);
                    assert(l as int / TWO127 as int == 1 && l as int % TWO127 as int == low_rest * pk) by {
                        lemma_fundamental_div_mod_converse(l as int, TWO127 as int, 1, low_rest * pk);
                    }
                } else {
                    assert(l == low_rest * pk);
                    assert(l as int / TWO127 as int == 0 && l as int % TWO127 as int == low_rest * pk) by {
                        lemma_fundamental_div_mod_converse(l as int, TWO127 as int, 0, low_rest * pk);
                    }
                }
                assert(top == bit);
                assert(lrest == low_rest * pk);
                // New low register: shift one position left.
                assert(low_rest * pk * 2 == low_rest * (pk * 2)) by (nonlinear_arith);
            }
            l = lrest * 2;
            // The prefix of the dividend gains one bit:
            // prefix' == 2 * prefix + bit.
            let ghost prefix2 = hi * (pk * 2) + lo as int / pm1;
            proof {
                assert(lo as int / pow2(m) as int == (lo as int / pm1) / 2) by {
                    lemma_div_denominator(lo as int, pm1, 2);
                }
                assert(lo as int / pm1 == 2 * (lo as int / pow2(m) as int) + bit);
                assert(hi * (pk * 2) == 2 * (hi * pk)) by (nonlinear_arith);
                assert(prefix2 == 2 * prefix + bit);
            }
            // Update remainder and quotient.
            let carry: u128;
            let newrem: u128;
            if rem >= TWO127 {
                // 2*rem + top >= 2^128 > d, so a subtraction is owed.
                let shifted = (rem - TWO127) * 2 + top;
                proof {
                    assert(2 * rem + top - d < d);
                    assert(shifted == 2 * rem + top - two128());
                }
                newrem = shifted + (u128::MAX - d) + 1;
                carry = 1;
            } else {
                let shifted = rem * 2 + top;
                if shifted >= d {
                    newrem = shifted - d;
                    carry = 1;
                } else {
                    newrem = shifted;
                    carry = 0;
                }
            }
            proof {
                assert(newrem == 2 * rem + bit - carry * d);
                assert(newrem < d);
                assert(d * (2 * q + carry) + newrem == 2 * (d * q + rem) + bit) by (nonlinear_arith)
                    requires
                        newrem == 2 * rem + bit - carry * d,
                ;
                assert(d * (2 * q + carry) + newrem == prefix2);
            }
            rem = newrem;
            proof {
                if k < 127 {
                    lemma_pow2_strictly_increases(k as nat, 127);
                }
                assert(q < TWO127);
            }
            q = q * 2 + carry;
            k = k + 1;
            proof {
                assert(pow2(k as nat) == pk * 2);
                assert(pow2((128 - k) as nat) == pm1);
                assert(q < pow2(k as nat));
                assert(d * q + rem == hi * pow2(k as nat) + lo as int / pow2((128 - k) as nat) as int);
            }
        }
        proof {
            lemma2_to64();
            lemma_pow2_adds(64, 64);
            assert(pow2(0) == 1);
            assert(lo as int / pow2(0) as int == lo);
            assert(d * q + rem == hi * two128() + lo);
            lemma_fundamental_div_mod_converse(wide(hi, lo), d as int, q as int, rem as int);
            assert(q == wide(hi, lo) / (d as int));
        }
        q
    }
}

/// `floor(a * b / d)`, saturating at `u128::MAX`.
pub fn mul_div_sat(a: u128, b: u128, d: u128) -> (r: u128)
    requires
        d > 0,
    ensures
        r == sat_u128((a * b) / (d as int)),
{
    let (hi, lo) = mul_wide(a, b);
    div_wide_sat(hi, lo, d)
}

} // verus!
