//! Fixed-point multiplication and exactness helpers shared by the two
//! format drivers.
//!
//! `mul_shift_64` extracts the relevant window of a 128x64-bit product by
//! combining two 64x64 -> 128 partial products; `mul_shift_32` does the same
//! for the narrower format with a single 64-bit intermediate. The factor
//! counters decide whether a scaled significand is an exact decimal value,
//! which controls boundary inclusiveness downstream.

use vstd::prelude::*;
use vstd::arithmetic::div_mod::lemma_div_is_ordered;
use vstd::arithmetic::div_mod::lemma_div_denominator;
use vstd::arithmetic::div_mod::lemma_hoist_over_denominator;
use vstd::arithmetic::div_mod::lemma_small_mod;
use vstd::arithmetic::div_mod::lemma_div_is_ordered_by_denominator;
use vstd::arithmetic::div_mod::lemma_fundamental_div_mod;
use vstd::arithmetic::div_mod::lemma_mod_bound;
use vstd::arithmetic::mul::lemma_mul_inequality;
use vstd::arithmetic::mul::lemma_mul_is_distributive_add;
use vstd::arithmetic::mul::lemma_mul_nonnegative;
use vstd::arithmetic::mul::lemma_mul_is_associative;
use vstd::arithmetic::mul::lemma_mul_upper_bound;
use vstd::arithmetic::power::pow;
use vstd::arithmetic::power::lemma_pow_increases;
use vstd::arithmetic::power::lemma_pow_adds;
use vstd::arithmetic::power::lemma_pow1;
use vstd::arithmetic::power::lemma_pow0;
use vstd::arithmetic::power2::pow2;
use vstd::arithmetic::power2::lemma_pow2_strictly_increases;
use vstd::arithmetic::power2::lemma_pow2_pos;
use vstd::arithmetic::power2::lemma_pow2_adds;
use vstd::arithmetic::power2::lemma2_to64;
use vstd::arithmetic::power2::lemma2_to64_rest;
use vstd::bits::lemma_u128_shr_is_div;
use vstd::bits::lemma_u64_shr_is_div;
use vstd::bits::lemma_u64_shl_is_mul;
use vstd::bits::lemma_u64_low_bits_mask_is_mod;
use vstd::bits::low_bits_mask;

verus! {

/// Number of factors of five in `v` (zero for `v == 0`).
pub open spec fn five_factor(v: nat) -> nat
    decreases v,
{
    if v == 0 {
        0
    } else if v % 5 != 0 {
        0
    } else {
        five_factor(v / 5) + 1
    }
}

/// `5^k` with `k` the factor count never exceeds the value itself.
proof fn lemma_five_factor_pow(v: nat)
    requires
        1 <= v,
    ensures
        pow(5, five_factor(v)) <= v,
    decreases v,
{
    if v % 5 == 0 {
        let w = v / 5;
        lemma_fundamental_div_mod(v as int, 5);
        assert(v == 5 * w);
        assert(five_factor(v) == five_factor(w) + 1);
        lemma_five_factor_pow(w);
        lemma_pow_adds(5, five_factor(w), 1);
        lemma_pow1(5);
        assert(pow(5, five_factor(w) + 1) == 5 * pow(5, five_factor(w)));
        lemma_mul_inequality(pow(5, five_factor(w)), w as int, 5);
    } else {
        lemma_pow0(5);
        assert(five_factor(v) == 0);
    }
}

/// Count of factors of five in a scaled significand.
pub fn pow5_factor(value: u64) -> (r: u32)
    requires
        1 <= value,
    ensures
        r == five_factor(value as nat),
{
    let mut v: u64 = value;
    let mut count: u32 = 0;
    loop
        invariant
            1 <= v,
            count <= 27,
            five_factor(value as nat) == count + five_factor(v as nat),
        ensures
            five_factor(value as nat) == count,
        decreases v,
    {
        let q = v / 5;
        let rem = v % 5;
        if rem != 0 {
            proof {
                assert(five_factor(v as nat) == 0);
            }
            break;
        }
        proof {
            lemma_fundamental_div_mod(v as int, 5);
            assert(five_factor(v as nat) == five_factor(q as nat) + 1);
            if count == 27 {
                lemma_five_factor_pow(value as nat);
                lemma_pow_increases(5, 28, five_factor(value as nat));
                reveal_with_fuel(pow, 29);
                assert(pow(5, 28) == 37252902984619140625);
            }
        }
        v = q;
        count += 1;
    }
    count
}

/// Whether `value` is divisible by `5^p`.
pub fn multiple_of_power_of_5(value: u64, p: u32) -> (r: bool)
    requires
        1 <= value,
    ensures
        r == (p <= five_factor(value as nat)),
{
    pow5_factor(value) >= p
}

/// Whether `value` is divisible by `2^p`.
pub fn multiple_of_power_of_2(value: u64, p: u32) -> (r: bool)
    requires
        p < 64,
    ensures
        r == (value as nat % pow2(p as nat) == 0),
{
    proof {
        lemma2_to64();
        lemma2_to64_rest();
        lemma_pow2_strictly_increases(p as nat, 64);
        lemma_u64_shl_is_mul(1u64, p as u64);
        lemma_u64_low_bits_mask_is_mod(value, p as nat);
        assert((1u64 << (p as u64)) - 1 == low_bits_mask(p as nat));
    }
    (value & ((1u64 << p) - 1)) == 0
}

/// `floor(m * (mul.0 + 2^64 * mul.1) / 2^j)`, by two 64x64 -> 128 partial
/// products; the contract states that value exactly. The bound keeps every
/// rescaled boundary strictly below `2^63 + 3`, so the digit generation can
/// nudge it by one without overflow.
pub fn mul_shift_64(m: u64, mul: &(u64, u64), j: u32) -> (r: u64)
    requires
        m <= 0x7fffffffffffff,
        mul.1 <= 0x3fffffffffffffff,
        118 <= j <= 191,
    ensures
        r == (m as int) * (mul.0 as int + mul.1 as int * pow2(64) as int)
            / (pow2(j as nat) as int),
        r <= 0x8000000000000002,
{
    let ghost full: int = mul.0 as int + mul.1 as int * pow2(64) as int;
    proof {
        lemma2_to64();
        lemma2_to64_rest();
        lemma_mul_upper_bound(m as int, 0x7fffffffffffff, mul.0 as int, 0xffffffffffffffff);
        lemma_mul_upper_bound(m as int, 0x7fffffffffffff, mul.1 as int, 0x3fffffffffffffff);
    }
    let b0: u128 = m as u128 * mul.0 as u128;
    let b2: u128 = m as u128 * mul.1 as u128;
    let hi: u128 = b0 >> 64u32;
    proof {
        lemma_u128_shr_is_div(b0, 64);
        lemma_div_is_ordered(
            b0 as int,
            (0x7fffffffffffff as int) * 0xffffffffffffffff,
            pow2(64) as int,
        );
    }
    let sum: u128 = hi + b2;
    proof {
        // sum is the product's upper window: m * full / 2^64.
        lemma_mul_is_distributive_add(m as int, mul.0 as int, mul.1 as int * pow2(64) as int);
        lemma_mul_is_associative(m as int, mul.1 as int, pow2(64) as int);
        assert(m as int * full == b0 as int + b2 as int * pow2(64) as int);
        lemma_hoist_over_denominator(b0 as int, b2 as int, pow2(64));
        assert(sum == m as int * full / pow2(64) as int);
    }
    let s: u32 = j - 64;
    let shifted: u128 = sum >> s;
    proof {
        lemma_u128_shr_is_div(sum, s as u128);
        lemma_pow2_pos(s as nat);
        lemma_pow2_pos(64);
        lemma_mul_nonnegative(b2 as int, pow2(64) as int);
        lemma_div_denominator(m as int * full, pow2(64) as int, pow2(s as nat) as int);
        lemma_pow2_adds(64, s as nat);
        assert(shifted == m as int * full / pow2(j as nat) as int);
        if 54 < s {
            lemma_pow2_strictly_increases(54, s as nat);
        }
        lemma_div_is_ordered_by_denominator(sum as int, pow2(54) as int, pow2(s as nat) as int);
        lemma_div_is_ordered(
            sum as int,
            (0x7fffffffffffff as int) * 0xffffffffffffffff / pow2(64) as int
                + (0x7fffffffffffff as int) * 0x3fffffffffffffff,
            pow2(54) as int,
        );
    }
    shifted as u64
}

/// The three rescaled boundaries `(vr, vp, vm)` of the rounding interval,
/// all shifted by the same multiplier and amount. `mm_shift` widens the
/// lower gap at the smallest significand of a binary exponent.
pub fn mul_shift_all_64(m2: u64, mul: &(u64, u64), j: u32, mm_shift: u32) -> (r: (u64, u64, u64))
    requires
        1 <= m2 <= 0x1fffffffffffff,
        mul.1 <= 0x3fffffffffffffff,
        118 <= j <= 191,
        mm_shift <= 1,
    ensures
        r.0 == (4 * m2 as int) * (mul.0 as int + mul.1 as int * pow2(64) as int)
            / (pow2(j as nat) as int),
        r.1 == (4 * m2 as int + 2) * (mul.0 as int + mul.1 as int * pow2(64) as int)
            / (pow2(j as nat) as int),
        r.2 == (4 * m2 as int - 1 - mm_shift as int) * (mul.0 as int + mul.1 as int * pow2(64) as int)
            / (pow2(j as nat) as int),
        r.0 <= 0x8000000000000002,
        r.1 <= 0x8000000000000002,
        r.2 <= 0x8000000000000002,
{
    let mv: u64 = 4 * m2;
    (
        mul_shift_64(mv, mul, j),
        mul_shift_64(mv + 2, mul, j),
        mul_shift_64(mv - 1 - mm_shift as u64, mul, j),
    )
}

/// `floor(m * factor / 2^shift)`, truncated to 32 bits, with a single
/// 64-bit intermediate: the narrower format never needs the 128-bit
/// product. For the shifts the boundary rescaling uses the quotient fits
/// and no truncation occurs.
pub fn mul_shift_32(m: u32, factor: u64, shift: u32) -> (r: u32)
    requires
        33 <= shift <= 95,
        m < 0x4000000,
        factor <= 0x3fffffffffffffff,
    ensures
        r == (m as int * factor as int / (pow2(shift as nat) as int)) % (pow2(32) as int),
        shift >= 57 ==> r == m as int * factor as int / (pow2(shift as nat) as int),
        shift >= 57 ==> r <= 0x80000002,
{
    proof {
        lemma2_to64();
        lemma_u64_shr_is_div(factor, 32);
        lemma_fundamental_div_mod(factor as int, 0x100000000);
        lemma_mod_bound(factor as int, 0x100000000);
        lemma_div_is_ordered(factor as int, 0x3fffffffffffffff, pow2(32) as int);
    }
    let factor_lo: u32 = (factor % 0x100000000) as u32;
    let factor_hi: u32 = (factor >> 32u32) as u32;
    proof {
        lemma_mul_upper_bound(m as int, 0x3ffffff, factor_lo as int, 0xffffffff);
        lemma_mul_upper_bound(m as int, 0x3ffffff, factor_hi as int, 0x3fffffff);
    }
    let bits0: u64 = m as u64 * factor_lo as u64;
    let bits1: u64 = m as u64 * factor_hi as u64;
    let lo_hi: u64 = bits0 >> 32u32;
    proof {
        lemma_u64_shr_is_div(bits0, 32);
        lemma_div_is_ordered(bits0 as int, (0x3ffffff as int) * 0xffffffff, pow2(32) as int);
    }
    let sum: u64 = lo_hi + bits1;
    proof {
        // sum is the product's upper window: m * factor / 2^32.
        lemma_mul_is_distributive_add(m as int, factor_lo as int, factor_hi as int * pow2(32) as int);
        lemma_mul_is_associative(m as int, factor_hi as int, pow2(32) as int);
        assert(m as int * (factor as int) == bits0 as int + bits1 as int * pow2(32) as int);
        lemma_hoist_over_denominator(bits0 as int, bits1 as int, pow2(32));
        assert(sum == m as int * factor as int / pow2(32) as int);
    }
    let s: u32 = shift - 32;
    let shifted_sum: u64 = sum >> s;
    proof {
        lemma_u64_shr_is_div(sum, s as u64);
        lemma_pow2_pos(s as nat);
        lemma_pow2_pos(32);
        lemma_mul_nonnegative(bits1 as int, pow2(32) as int);
        lemma_div_denominator(m as int * factor as int, pow2(32) as int, pow2(s as nat) as int);
        lemma_pow2_adds(32, s as nat);
        assert(shifted_sum == m as int * factor as int / pow2(shift as nat) as int);
        if shift >= 57 {
            if 25 < s {
                lemma_pow2_strictly_increases(25, s as nat);
            }
            lemma_div_is_ordered_by_denominator(sum as int, pow2(25) as int, pow2(s as nat) as int);
            lemma_div_is_ordered(
                sum as int,
                (0x3ffffff as int) * 0xffffffff / pow2(32) as int + (0x3ffffff as int) * 0x3fffffff,
                pow2(25) as int,
            );
        }
    }
    let truncated: u64 = shifted_sum % 0x100000000;
    proof {
        lemma_fundamental_div_mod(shifted_sum as int, 0x100000000);
        lemma_mod_bound(shifted_sum as int, 0x100000000);
        if shift >= 57 {
            lemma_small_mod(shifted_sum as nat, 0x100000000);
        }
    }
    truncated as u32
}

} // verus!
