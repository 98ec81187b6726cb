//! Shortest round-trip decimal conversion for the 32-bit binary format.
//!
//! The control flow mirrors the 64-bit driver, with narrower bit fields, a
//! smaller bias, and a single 64-bit intermediate in place of the 128-bit
//! product.

use vstd::prelude::*;
use vstd::arithmetic::div_mod::lemma_fundamental_div_mod;
use vstd::arithmetic::div_mod::lemma_mod_bound;
use vstd::arithmetic::div_mod::lemma_div_is_ordered;
use vstd::arithmetic::mul::lemma_mul_inequality;
use vstd::arithmetic::power::pow;
use vstd::arithmetic::power::lemma_pow_positive;
use vstd::arithmetic::power::lemma_pow0;
use vstd::arithmetic::power::lemma_pow1;
use vstd::arithmetic::power::lemma_pow_adds;
use vstd::arithmetic::div_mod::lemma_div_denominator;
use vstd::arithmetic::mul::lemma_mul_is_associative;
use vstd::arithmetic::power2::pow2;
use crate::tables::FLOAT_POW5_INV_SPLIT;
use crate::tables::FLOAT_POW5_SPLIT;
use crate::common::log10_pow2;
use crate::common::log10_pow5;
use crate::common::pow5bits;
use crate::common::lemma_strip_step;
use crate::common::apart_after;
use crate::common::rare_strips;
use crate::intrinsics::five_factor;
use crate::intrinsics::mul_shift_32;
use crate::intrinsics::multiple_of_power_of_5;
use crate::intrinsics::multiple_of_power_of_2;
use crate::tables::float_pow5;
use crate::tables::float_pow5_inv;

verus! {

/// Width of the stored mantissa field.
pub const FLOAT_MANTISSA_BITS: u32 = 23;

/// Width of the stored exponent field.
pub const FLOAT_EXPONENT_BITS: u32 = 8;

/// Exponent bias of the format.
pub const FLOAT_BIAS: u32 = 127;

/// Decimal representation of a finite 32-bit float:
/// `(-1)^sign * mantissa * 10^exponent`.
pub struct FloatingDecimal32 {
    pub sign: bool,
    pub mantissa: u32,
    pub exponent: i32,
}

/// A mantissa is canonical when it carries no trailing zero digit, except
/// for the value zero itself.
pub open spec fn canonical_mantissa32(m: u32) -> bool {
    m == 0 || m % 10 != 0
}

/// Sign bit of the raw representation.
pub open spec fn float_sign(bits: u32) -> bool {
    bits >> 31 == 1
}

/// Stored (biased) exponent field of the raw representation.
pub open spec fn float_exponent_field(bits: u32) -> u32 {
    (bits >> 23) & 0xff
}

/// Stored mantissa field of the raw representation.
pub open spec fn float_mantissa_field(bits: u32) -> u32 {
    bits & 0x7fffff
}

/// The raw bits denote a finite value: the exponent field is not all ones.
pub open spec fn float_is_finite(bits: u32) -> bool {
    float_exponent_field(bits) != 0xff
}

/// The raw bits denote positive or negative zero.
pub open spec fn float_is_zero(bits: u32) -> bool {
    float_exponent_field(bits) == 0 && float_mantissa_field(bits) == 0
}

/// Binary exponent of the scaled significand: the unbiased exponent,
/// less the mantissa width, less two extra bits of scale for the
/// boundary computation.
pub open spec fn f2d_e2(mant: u32, exp: u32) -> int {
    if exp == 0 {
        1 - 127 - 23 - 2
    } else {
        exp - 127 - 23 - 2
    }
}

/// Scaled significand: the mantissa field, with the implicit bit for
/// normal values.
pub open spec fn f2d_m2(mant: u32, exp: u32) -> u32 {
    if exp == 0 {
        mant
    } else {
        (1u32 << 23) | mant
    }
}

/// The decimal shift chosen for the rescaling.
pub open spec fn f2d_q(mant: u32, exp: u32) -> int {
    let e2 = f2d_e2(mant, exp);
    if e2 >= 0 {
        e2 * 78913 / 262144
    } else {
        (-e2) * 732923 / 1048576
    }
}

/// Base-ten exponent of the rescaled boundaries.
pub open spec fn f2d_e10(mant: u32, exp: u32) -> int {
    let e2 = f2d_e2(mant, exp);
    if e2 >= 0 {
        f2d_q(mant, exp)
    } else {
        f2d_q(mant, exp) + e2
    }
}

/// Width formula for `5^e`, as computed by `pow5bits`.
pub open spec fn pow5bits_of32(e: int) -> int {
    e * 1217359 / 524288 + 1
}

/// The shift applied to the fixed-point product.
pub open spec fn f2d_j(mant: u32, exp: u32) -> int {
    let e2 = f2d_e2(mant, exp);
    let q = f2d_q(mant, exp);
    if e2 >= 0 {
        q - e2 + 61 + pow5bits_of32(q) - 1
    } else {
        q - (pow5bits_of32(-e2 - q) - 61)
    }
}

/// The 61-bit fixed-point multiplier used for the rescaling, masked as
/// the table accessors hand it out.
pub open spec fn f2d_multiplier(mant: u32, exp: u32) -> int {
    let e2 = f2d_e2(mant, exp);
    let q = f2d_q(mant, exp);
    if e2 >= 0 {
        (FLOAT_POW5_INV_SPLIT[q] & 0x3fffffffffffffff) as int
    } else {
        (FLOAT_POW5_SPLIT[-e2 - q] & 0x3fffffffffffffff) as int
    }
}

/// The rescaled midpoint of the rounding interval:
/// `floor(4 * significand * multiplier / 2^j)`.
pub open spec fn f2d_scaled_mid(mant: u32, exp: u32) -> int {
    (4 * f2d_m2(mant, exp) as int) * f2d_multiplier(mant, exp)
        / (pow2(f2d_j(mant, exp) as nat) as int)
}

/// Parity of the scaled significand: an even significand may accept an
/// exact boundary.
pub open spec fn f2d_even(mant: u32, exp: u32) -> bool {
    f2d_m2(mant, exp) % 2 == 0
}

/// Width of the gap below the value, in quarter units.
pub open spec fn f2d_mm_shift(mant: u32, exp: u32) -> int {
    if mant != 0 || exp <= 1 {
        1
    } else {
        0
    }
}

/// Whether the rescaled midpoint is an exact value (all truncated digits
/// zero), as the driver decides it.
pub open spec fn f2d_vr_exact(mant: u32, exp: u32) -> bool {
    let e2 = f2d_e2(mant, exp);
    let q = f2d_q(mant, exp);
    let mv: nat = 4 * f2d_m2(mant, exp) as nat;
    if e2 >= 0 {
        q <= 9 && mv % 5 == 0 && q <= five_factor(mv)
    } else if q <= 1 {
        true
    } else {
        q < 31 && mv % pow2((q - 1) as nat) == 0
    }
}

/// Whether the rescaled lower boundary is exact and acceptable, as the
/// driver decides it.
pub open spec fn f2d_vm_exact(mant: u32, exp: u32) -> bool {
    let e2 = f2d_e2(mant, exp);
    let q = f2d_q(mant, exp);
    let mv: nat = 4 * f2d_m2(mant, exp) as nat;
    if e2 >= 0 {
        q <= 9 && mv % 5 != 0 && f2d_even(mant, exp)
            && q <= five_factor((mv - 1 - f2d_mm_shift(mant, exp)) as nat)
    } else {
        q <= 1 && f2d_even(mant, exp) && f2d_mm_shift(mant, exp) == 1
    }
}

/// The digit generation takes the slow, exactness-aware path.
pub open spec fn f2d_rare_path(mant: u32, exp: u32) -> bool {
    f2d_vm_exact(mant, exp) || f2d_vr_exact(mant, exp)
}

/// The rescaled upper boundary, after excluding an inexact boundary that
/// may not be selected.
pub open spec fn f2d_scaled_hi(mant: u32, exp: u32) -> int {
    let e2 = f2d_e2(mant, exp);
    let q = f2d_q(mant, exp);
    let mv: nat = 4 * f2d_m2(mant, exp) as nat;
    let raw = (4 * f2d_m2(mant, exp) as int + 2) * f2d_multiplier(mant, exp)
        / (pow2(f2d_j(mant, exp) as nat) as int);
    if e2 >= 0 {
        if q <= 9 && mv % 5 != 0 && !f2d_even(mant, exp) && q <= five_factor((mv + 2) as nat)
            && raw > 0 {
            raw - 1
        } else {
            raw
        }
    } else {
        if q <= 1 && !f2d_even(mant, exp) && raw > 0 {
            raw - 1
        } else {
            raw
        }
    }
}

/// The rescaled lower boundary.
pub open spec fn f2d_scaled_lo(mant: u32, exp: u32) -> int {
    (4 * f2d_m2(mant, exp) as int - 1 - f2d_mm_shift(mant, exp)) * f2d_multiplier(mant, exp)
        / (pow2(f2d_j(mant, exp) as nat) as int)
}

/// Whether a removed digit must be fetched up front: the boundaries are
/// already too close for the strip loop to run even once.
pub open spec fn f2d_preset_cond(mant: u32, exp: u32) -> bool {
    let q = f2d_q(mant, exp);
    let raw = (4 * f2d_m2(mant, exp) as int + 2) * f2d_multiplier(mant, exp)
        / (pow2(f2d_j(mant, exp) as nat) as int);
    q != 0 && raw > 0 && (raw - 1) / 10 <= f2d_scaled_lo(mant, exp) / 10
}

/// The multiplier for the next smaller power, used for that one digit.
pub open spec fn f2d_second_multiplier(mant: u32, exp: u32) -> int {
    let e2 = f2d_e2(mant, exp);
    let q = f2d_q(mant, exp);
    if e2 >= 0 {
        (FLOAT_POW5_INV_SPLIT[q - 1] & 0x3fffffffffffffff) as int
    } else {
        (FLOAT_POW5_SPLIT[-e2 - q + 1] & 0x3fffffffffffffff) as int
    }
}

/// The shift paired with the next smaller power.
pub open spec fn f2d_second_shift(mant: u32, exp: u32) -> int {
    let e2 = f2d_e2(mant, exp);
    let q = f2d_q(mant, exp);
    if e2 >= 0 {
        (q - 1) - e2 + 61 + pow5bits_of32(q - 1) - 1
    } else {
        q - 1 - (pow5bits_of32(-e2 - q + 1) - 61)
    }
}

/// The digit that stands removed before the strip loop runs, zero when
/// none is fetched.
pub open spec fn f2d_preset(mant: u32, exp: u32) -> int {
    if f2d_preset_cond(mant, exp) {
        (4 * f2d_m2(mant, exp) as int) * f2d_second_multiplier(mant, exp)
            / (pow2(f2d_second_shift(mant, exp) as nat) as int) % (pow2(32) as int) % 10
    } else {
        0
    }
}

/// The removal depth `k` is the one the boundaries dictate, as in the
/// 64-bit driver.
pub open spec fn f2d_strips_exactly(mant: u32, exp: u32, k: nat) -> bool {
    let hi = f2d_scaled_hi(mant, exp);
    let lo = f2d_scaled_lo(mant, exp);
    if f2d_rare_path(mant, exp) {
        exists|k1: nat| #[trigger] rare_strips(hi, lo, k, k1)
    } else {
        &&& (forall|i: nat| i < k ==> #[trigger] apart_after(hi, lo, i))
        &&& !apart_after(hi, lo, k)
    }
}

/// Common-path rounding rule: take one more than the truncated midpoint
/// when the truncation collides with the lower boundary, or when the last
/// removed digit (fetched up front if the loop never ran) calls for
/// rounding up.
pub open spec fn f2d_rounds_up(mant: u32, exp: u32, k: nat) -> bool {
    ||| f2d_scaled_mid(mant, exp) / pow(10, k) == f2d_scaled_lo(mant, exp) / pow(10, k)
    ||| (k > 0 && (f2d_scaled_mid(mant, exp) / pow(10, (k - 1) as nat)) % 10 >= 5)
    ||| (k == 0 && f2d_preset(mant, exp) >= 5)
}

/// Rare-path rounding rule, as in the 64-bit driver, except that the
/// digit standing removed before the loops is the fetched one.
pub open spec fn f2d_rare_rounds_up(mant: u32, exp: u32, k: nat, k1: nat) -> bool {
    let mid = f2d_scaled_mid(mant, exp);
    let lo = f2d_scaled_lo(mant, exp);
    let vm_still = f2d_vm_exact(mant, exp) && (forall|i: nat|
        i < k1 ==> (lo / #[trigger] pow(10, i)) % 10 == 0);
    let vr_still = f2d_vr_exact(mant, exp) && (k == 0 || f2d_preset(mant, exp) == 0) && (
    forall|i: nat| i + 1 < k ==> (mid / #[trigger] pow(10, i)) % 10 == 0);
    let digit_raw = if k > 0 {
        (mid / pow(10, (k - 1) as nat)) % 10
    } else {
        f2d_preset(mant, exp)
    };
    let digit = if vr_still && digit_raw == 5 && (mid / pow(10, k)) % 2 == 0 {
        4int
    } else {
        digit_raw
    };
    (mid / pow(10, k) == lo / pow(10, k) && (!f2d_even(mant, exp) || !vm_still)) || digit >= 5
}

/// One digit-generation outcome, as in the 64-bit driver: exactly the
/// dictated `k` digits are removed, the final digit follows the path's
/// rounding rule, and `t` more trailing zero digits are dropped.
pub open spec fn f2d_digit_outcome(mant: u32, exp: u32, m: u32, e: i32, k: nat, t: nat) -> bool {
    &&& k <= 19
    &&& t <= 19
    &&& f2d_strips_exactly(mant, exp, k)
    &&& (if f2d_rare_path(mant, exp) {
        exists|k1: nat|
            {
                &&& #[trigger] rare_strips(f2d_scaled_hi(mant, exp), f2d_scaled_lo(mant, exp), k, k1)
                &&& m * pow(10, t) == f2d_scaled_mid(mant, exp) / pow(10, k) + (
                if f2d_rare_rounds_up(mant, exp, k, k1) {
                    1int
                } else {
                    0int
                })
            }
    } else {
        m * pow(10, t) == f2d_scaled_mid(mant, exp) / pow(10, k)
            + (if f2d_rounds_up(mant, exp, k) { 1int } else { 0int })
    })
    &&& e == f2d_e10(mant, exp) + k + t
}

/// The digit generation derives `(m, e)` from the rescaled boundaries.
pub open spec fn derives_from_scaled_mid32(mant: u32, exp: u32, m: u32, e: i32) -> bool {
    exists|k: nat, t: nat| #[trigger] f2d_digit_outcome(mant, exp, m, e, k, t)
}

/// Shortest decimal mantissa and exponent for a nonzero finite value given
/// by its stored mantissa and exponent fields.
#[verifier::rlimit(100)]
pub fn f2d_core(ieee_mantissa: u32, ieee_exponent: u32) -> (r: (u32, i32))
    requires
        ieee_mantissa <= 0x7fffff,
        ieee_exponent <= 254,
        ieee_mantissa != 0 || ieee_exponent != 0,
    ensures
        canonical_mantissa32(r.0),
        derives_from_scaled_mid32(ieee_mantissa, ieee_exponent, r.0, r.1),
{
    let (e2, m2): (i32, u32) = if ieee_exponent == 0 {
        // Subnormal: no implicit bit; two extra bits of scale for the
        // boundary computation.
        (1 - 127 - 23 - 2, ieee_mantissa)
    } else {
        (
            ieee_exponent as i32 - 127 - 23 - 2,
            (1u32 << 23) | ieee_mantissa,
        )
    };
    let even: bool = (m2 & 1) == 0;
    let accept_bounds: bool = even;
    proof {
        assert((1u32 << 23) | ieee_mantissa >= 1u32 << 23 && (1u32 << 23) | ieee_mantissa
            <= 0xffffff && (1u32 << 23) == 0x800000) by (bit_vector)
            requires ieee_mantissa <= 0x7fffff;
        assert(((m2 & 1) == 0) == (m2 % 2 == 0)) by (bit_vector);
    }

    // Interval of valid decimal representations, scaled by four so the
    // half-ulp boundaries stay integral.
    let mv: u32 = 4 * m2;
    let mp: u32 = 4 * m2 + 2;
    // The gap below is a full ulp only when the significand is the smallest
    // of its binary exponent (and its predecessor is one exponent down).
    let mm_shift: u32 = if ieee_mantissa != 0 || ieee_exponent <= 1 {
        1
    } else {
        0
    };
    let mm: u32 = 4 * m2 - 1 - mm_shift;

    // Rescale the boundaries to a decimal power base.
    let mut vr: u32;
    let mut vp: u32;
    let mut vm: u32;
    let e10: i32;
    let mut vm_is_trailing_zeros = false;
    let mut vr_is_trailing_zeros = false;
    let mut last_removed_digit: u8 = 0;
    if e2 >= 0 {
        proof {
            lemma_fundamental_div_mod(e2 * 78913, 262144);
            lemma_mod_bound(e2 * 78913, 262144);
        }
        let q: u32 = log10_pow2(e2 as u32);
        e10 = q as i32;
        proof {
            lemma_fundamental_div_mod(q as int * 1217359, 524288);
            lemma_mod_bound(q as int * 1217359, 524288);
        }
        let k: u32 = 61 + pow5bits(q) - 1;
        let i: u32 = ((q as i32 - e2) + k as i32) as u32;
        proof {
            assert(57 <= (q as i32 - e2) + k as i32 <= 61);
        }
        vr = mul_shift_32(mv, float_pow5_inv(q as usize), i);
        vp = mul_shift_32(mp, float_pow5_inv(q as usize), i);
        vm = mul_shift_32(mm, float_pow5_inv(q as usize), i);
        // The rescaled vp is never zero; the test on it only makes the
        // decrement evidently safe.
        if q != 0 && vp > 0 && (vp - 1) / 10 <= vm / 10 {
            // One removed digit is needed even if the loop below never
            // runs; compute it with the next smaller power.
            proof {
                lemma_fundamental_div_mod((q - 1) as int * 1217359, 524288);
                lemma_mod_bound((q - 1) as int * 1217359, 524288);
            }
            let l: u32 = 61 + pow5bits(q - 1) - 1;
            let s2: u32 = ((q as i32 - 1 - e2) + l as i32) as u32;
            proof {
                assert(33 <= (q as i32 - 1 - e2) + l as i32 <= 95);
            }
            last_removed_digit = (mul_shift_32(mv, float_pow5_inv((q - 1) as usize), s2) % 10)
                as u8;
        }
        proof {
            assert(last_removed_digit as int == f2d_preset(ieee_mantissa, ieee_exponent));
        }
        if q <= 9 {
            // Only one of mv, mp and mm can be a multiple of five, if any.
            if mv % 5 == 0 {
                vr_is_trailing_zeros = multiple_of_power_of_5(mv as u64, q);
            } else if accept_bounds {
                vm_is_trailing_zeros = multiple_of_power_of_5(mm as u64, q);
            } else if multiple_of_power_of_5(mp as u64, q) && vp > 0 {
                // An inexact upper boundary may not be selected; the
                // rescaled boundary is never zero, so the test on vp only
                // makes the decrement evidently safe.
                vp = vp - 1;
            }
        }
        proof {
            assert(vr == f2d_scaled_mid(ieee_mantissa, ieee_exponent));
            assert(e10 == f2d_e10(ieee_mantissa, ieee_exponent));
            assert(vp == f2d_scaled_hi(ieee_mantissa, ieee_exponent));
            assert(vm == f2d_scaled_lo(ieee_mantissa, ieee_exponent));
            assert(vm_is_trailing_zeros == f2d_vm_exact(ieee_mantissa, ieee_exponent));
            assert(vr_is_trailing_zeros == f2d_vr_exact(ieee_mantissa, ieee_exponent));
        }
    } else {
        let ne: u32 = (-e2) as u32;
        proof {
            lemma_fundamental_div_mod(ne as int * 732923, 1048576);
            lemma_mod_bound(ne as int * 732923, 1048576);
        }
        let q: u32 = log10_pow5(ne);
        e10 = q as i32 + e2;
        let i: u32 = ne - q;
        proof {
            lemma_fundamental_div_mod(i as int * 1217359, 524288);
            lemma_mod_bound(i as int * 1217359, 524288);
        }
        let k: i32 = pow5bits(i) as i32 - 61;
        let j: u32 = (q as i32 - k) as u32;
        proof {
            assert(57 <= q as i32 - k <= 61);
            assert(i < 47);
        }
        vr = mul_shift_32(mv, float_pow5(i as usize), j);
        vp = mul_shift_32(mp, float_pow5(i as usize), j);
        vm = mul_shift_32(mm, float_pow5(i as usize), j);
        // As above: vp is never zero; the test only makes the decrement
        // evidently safe.
        if q != 0 && vp > 0 && (vp - 1) / 10 <= vm / 10 {
            proof {
                lemma_fundamental_div_mod((i + 1) as int * 1217359, 524288);
                lemma_mod_bound((i + 1) as int * 1217359, 524288);
            }
            let j2: i32 = q as i32 - 1 - (pow5bits(i + 1) as i32 - 61);
            proof {
                assert(33 <= j2 <= 95);
            }
            last_removed_digit = (mul_shift_32(mv, float_pow5((i + 1) as usize), j2 as u32) % 10)
                as u8;
        }
        proof {
            assert(last_removed_digit as int == f2d_preset(ieee_mantissa, ieee_exponent));
        }
        if q <= 1 {
            // mv has at least two factors of two, so vr is exact; the lower
            // boundary is exact only when the gap below is a full ulp.
            vr_is_trailing_zeros = true;
            if accept_bounds {
                vm_is_trailing_zeros = mm_shift == 1;
            } else if vp > 0 {
                // The upper boundary always has a factor of two: it is
                // exact, but not acceptable.
                vp = vp - 1;
            }
        } else if q < 31 {
            vr_is_trailing_zeros = multiple_of_power_of_2(mv as u64, q - 1);
        }
        proof {
            assert(vr == f2d_scaled_mid(ieee_mantissa, ieee_exponent));
            assert(e10 == f2d_e10(ieee_mantissa, ieee_exponent));
            assert(vp == f2d_scaled_hi(ieee_mantissa, ieee_exponent));
            assert(vm == f2d_scaled_lo(ieee_mantissa, ieee_exponent));
            assert(vm_is_trailing_zeros == f2d_vm_exact(ieee_mantissa, ieee_exponent));
            assert(vr_is_trailing_zeros == f2d_vr_exact(ieee_mantissa, ieee_exponent));
        }
    }

    // Shortest representation inside the interval: strip digits while the
    // upper and lower boundaries still agree.
    let ghost vr0: int = vr as int;
    let ghost hi: int = f2d_scaled_hi(ieee_mantissa, ieee_exponent);
    let ghost lo: int = f2d_scaled_lo(ieee_mantissa, ieee_exponent);
    let ghost preset: int = f2d_preset(ieee_mantissa, ieee_exponent);
    proof {
        lemma_pow0(10);
        assert(vr0 == f2d_scaled_mid(ieee_mantissa, ieee_exponent));
        assert(vp == hi && vm == lo && 0 <= hi && 0 <= lo);
        assert(last_removed_digit as int == preset);
    }
    let mut removed: u32 = 0;
    let output: u32;
    if vm_is_trailing_zeros || vr_is_trailing_zeros {
        proof {
            assert(f2d_rare_path(ieee_mantissa, ieee_exponent));
        }
        // Rare path: an exact boundary may be included, so digit removal
        // must track whether removed digits were all zero.
        loop
            invariant
                removed <= 19,
                0 <= vr0 && 0 <= hi && 0 <= lo,
                pow(10, removed as nat) * vp <= 0x80000002,
                pow(10, removed as nat) * vm <= 0x80000002,
                pow(10, removed as nat) * vr <= 0x80000002,
                vr == vr0 / pow(10, removed as nat),
                vp == hi / pow(10, removed as nat),
                vm == lo / pow(10, removed as nat),
                forall|i: nat| i < removed ==> #[trigger] apart_after(hi, lo, i),
                vm_is_trailing_zeros == (f2d_vm_exact(ieee_mantissa, ieee_exponent)
                    && (forall|i: nat| i < removed ==> (lo / #[trigger] pow(10, i)) % 10 == 0)),
                vr_is_trailing_zeros == (f2d_vr_exact(ieee_mantissa, ieee_exponent) && (removed
                    == 0 || preset == 0) && (forall|i: nat|
                i + 1 < removed ==> (vr0 / #[trigger] pow(10, i)) % 10 == 0)),
                last_removed_digit as int == (if removed > 0 {
                    (vr0 / pow(10, (removed - 1) as nat)) % 10
                } else {
                    preset
                }),
            ensures
                removed <= 19,
                pow(10, removed as nat) * vp <= 0x80000002,
                pow(10, removed as nat) * vm <= 0x80000002,
                pow(10, removed as nat) * vr <= 0x80000002,
                vr == vr0 / pow(10, removed as nat),
                vm == lo / pow(10, removed as nat),
                forall|i: nat| i < removed ==> #[trigger] apart_after(hi, lo, i),
                !apart_after(hi, lo, removed as nat),
                vm_is_trailing_zeros == (f2d_vm_exact(ieee_mantissa, ieee_exponent)
                    && (forall|i: nat| i < removed ==> (lo / #[trigger] pow(10, i)) % 10 == 0)),
                vr_is_trailing_zeros == (f2d_vr_exact(ieee_mantissa, ieee_exponent) && (removed
                    == 0 || preset == 0) && (forall|i: nat|
                i + 1 < removed ==> (vr0 / #[trigger] pow(10, i)) % 10 == 0)),
                last_removed_digit as int == (if removed > 0 {
                    (vr0 / pow(10, (removed - 1) as nat)) % 10
                } else {
                    preset
                }),
            decreases vp,
        {
            if vp / 10 <= vm / 10 {
                break;
            }
            proof {
                lemma_strip_step(removed as nat, vp as u64, 0x80000002);
                lemma_strip_step(removed as nat, vm as u64, 0x80000002);
                lemma_strip_step(removed as nat, vr as u64, 0x80000002);
                lemma_pow_adds(10, removed as nat, 1);
                lemma_pow1(10);
                lemma_pow_positive(10, removed as nat);
                lemma_div_denominator(vr0, pow(10, removed as nat), 10);
                lemma_div_denominator(hi, pow(10, removed as nat), 10);
                lemma_div_denominator(lo, pow(10, removed as nat), 10);
                assert(apart_after(hi, lo, removed as nat));
            }
            vm_is_trailing_zeros = vm_is_trailing_zeros && vm % 10 == 0;
            vr_is_trailing_zeros = vr_is_trailing_zeros && last_removed_digit == 0;
            last_removed_digit = (vr % 10) as u8;
            vr = vr / 10;
            vp = vp / 10;
            vm = vm / 10;
            removed = removed + 1;
        }
        let ghost k1: nat = removed as nat;
        if vm_is_trailing_zeros {
            loop
                invariant
                    removed <= 19,
                    0 <= vr0 && 0 <= hi && 0 <= lo,
                    k1 <= removed,
                    pow(10, removed as nat) * vm <= 0x80000002,
                    pow(10, removed as nat) * vr <= 0x80000002,
                    vr == vr0 / pow(10, removed as nat),
                    vm == lo / pow(10, removed as nat),
                    !apart_after(hi, lo, k1),
                    forall|i: nat| i < k1 ==> #[trigger] apart_after(hi, lo, i),
                    forall|i: nat| k1 <= i < removed ==> (lo / #[trigger] pow(10, i)) % 10 == 0,
                    vm_is_trailing_zeros == (f2d_vm_exact(ieee_mantissa, ieee_exponent)
                        && (forall|i: nat| i < k1 ==> (lo / #[trigger] pow(10, i)) % 10 == 0)),
                    vr_is_trailing_zeros == (f2d_vr_exact(ieee_mantissa, ieee_exponent)
                        && (removed == 0 || preset == 0) && (forall|i: nat|
                    i + 1 < removed ==> (vr0 / #[trigger] pow(10, i)) % 10 == 0)),
                    last_removed_digit as int == (if removed > 0 {
                        (vr0 / pow(10, (removed - 1) as nat)) % 10
                    } else {
                        preset
                    }),
                ensures
                    removed <= 19,
                    k1 <= removed,
                    pow(10, removed as nat) * vr <= 0x80000002,
                    vr == vr0 / pow(10, removed as nat),
                    vm == lo / pow(10, removed as nat),
                    !apart_after(hi, lo, k1),
                    forall|i: nat| i < k1 ==> #[trigger] apart_after(hi, lo, i),
                    forall|i: nat| k1 <= i < removed ==> (lo / #[trigger] pow(10, i)) % 10 == 0,
                    vm % 10 != 0 || vm == 0,
                    vm_is_trailing_zeros == (f2d_vm_exact(ieee_mantissa, ieee_exponent)
                        && (forall|i: nat| i < k1 ==> (lo / #[trigger] pow(10, i)) % 10 == 0)),
                    vr_is_trailing_zeros == (f2d_vr_exact(ieee_mantissa, ieee_exponent)
                        && (removed == 0 || preset == 0) && (forall|i: nat|
                    i + 1 < removed ==> (vr0 / #[trigger] pow(10, i)) % 10 == 0)),
                    last_removed_digit as int == (if removed > 0 {
                        (vr0 / pow(10, (removed - 1) as nat)) % 10
                    } else {
                        preset
                    }),
                decreases vm,
            {
                // The lower boundary cannot reach zero here; the extra test
                // only makes termination evident.
                if vm % 10 != 0 || vm == 0 {
                    break;
                }
                proof {
                    lemma_strip_step(removed as nat, vm as u64, 0x80000002);
                    lemma_strip_step(removed as nat, vr as u64, 0x80000002);
                    lemma_pow_adds(10, removed as nat, 1);
                    lemma_pow1(10);
                    lemma_pow_positive(10, removed as nat);
                    lemma_div_denominator(vr0, pow(10, removed as nat), 10);
                    lemma_div_denominator(lo, pow(10, removed as nat), 10);
                    assert((lo / pow(10, removed as nat)) % 10 == 0);
                }
                vr_is_trailing_zeros = vr_is_trailing_zeros && last_removed_digit == 0;
                last_removed_digit = (vr % 10) as u8;
                vr = vr / 10;
                vm = vm / 10;
                removed = removed + 1;
            }
        }
        if vr_is_trailing_zeros && last_removed_digit == 5 && vr % 2 == 0 {
            // Round even if the exact value ends in five followed by zeros.
            last_removed_digit = 4;
        }
        proof {
            lemma_pow_positive(10, removed as nat);
            lemma_mul_inequality(1, pow(10, removed as nat), vr as int);
        }
        // Take one more than vr if vr is outside the interval or the
        // removed digits call for rounding up.
        output = vr + (if (vr == vm && (!accept_bounds || !vm_is_trailing_zeros))
            || last_removed_digit >= 5 {
            1u32
        } else {
            0u32
        });
        proof {
            assert(rare_strips(hi, lo, removed as nat, k1));
            assert(f2d_strips_exactly(ieee_mantissa, ieee_exponent, removed as nat));
            assert(output == f2d_scaled_mid(ieee_mantissa, ieee_exponent) / pow(
                10,
                removed as nat,
            ) + (if f2d_rare_rounds_up(ieee_mantissa, ieee_exponent, removed as nat, k1) {
                1int
            } else {
                0int
            }));
        }
    } else {
        proof {
            assert(!f2d_rare_path(ieee_mantissa, ieee_exponent));
        }
        // Common path: no exact boundary; a plain nearest-rounding strip.
        loop
            invariant
                removed <= 19,
                0 <= vr0 && 0 <= hi && 0 <= lo,
                pow(10, removed as nat) * vp <= 0x80000002,
                pow(10, removed as nat) * vm <= 0x80000002,
                pow(10, removed as nat) * vr <= 0x80000002,
                vr == vr0 / pow(10, removed as nat),
                vp == hi / pow(10, removed as nat),
                vm == lo / pow(10, removed as nat),
                forall|i: nat| i < removed ==> #[trigger] apart_after(hi, lo, i),
                last_removed_digit as int == (if removed > 0 {
                    (vr0 / pow(10, (removed - 1) as nat)) % 10
                } else {
                    preset
                }),
            ensures
                removed <= 19,
                pow(10, removed as nat) * vr <= 0x80000002,
                vr == vr0 / pow(10, removed as nat),
                vm == lo / pow(10, removed as nat),
                forall|i: nat| i < removed ==> #[trigger] apart_after(hi, lo, i),
                !apart_after(hi, lo, removed as nat),
                last_removed_digit as int == (if removed > 0 {
                    (vr0 / pow(10, (removed - 1) as nat)) % 10
                } else {
                    preset
                }),
            decreases vp,
        {
            if vp / 10 <= vm / 10 {
                break;
            }
            proof {
                lemma_strip_step(removed as nat, vp as u64, 0x80000002);
                lemma_strip_step(removed as nat, vm as u64, 0x80000002);
                lemma_strip_step(removed as nat, vr as u64, 0x80000002);
                lemma_pow_adds(10, removed as nat, 1);
                lemma_pow1(10);
                lemma_pow_positive(10, removed as nat);
                lemma_div_denominator(vr0, pow(10, removed as nat), 10);
                lemma_div_denominator(hi, pow(10, removed as nat), 10);
                lemma_div_denominator(lo, pow(10, removed as nat), 10);
                assert(apart_after(hi, lo, removed as nat));
            }
            last_removed_digit = (vr % 10) as u8;
            vr = vr / 10;
            vp = vp / 10;
            vm = vm / 10;
            removed = removed + 1;
        }
        proof {
            lemma_pow_positive(10, removed as nat);
            lemma_mul_inequality(1, pow(10, removed as nat), vr as int);
        }
        output = vr + (if vr == vm || last_removed_digit >= 5 {
            1u32
        } else {
            0u32
        });
        proof {
            assert(f2d_strips_exactly(ieee_mantissa, ieee_exponent, removed as nat));
            assert(output == f2d_scaled_mid(ieee_mantissa, ieee_exponent) / pow(
                10,
                removed as nat,
            ) + (if f2d_rounds_up(ieee_mantissa, ieee_exponent, removed as nat) {
                1int
            } else {
                0int
            }));
        }
    }
    let mut exp: i32 = e10 + removed as i32;

    // Canonical form: the shortest mantissa never carries a trailing zero
    // digit; dropping one preserves the denoted value.
    let mut out: u32 = output;
    let ghost exp0: int = exp as int;
    proof {
        lemma_pow0(10);
    }
    loop
        invariant
            exp0 <= exp <= exp0 + 19,
            -170 <= exp0 <= 70,
            pow(10, (exp - exp0) as nat) * out <= 0x80000003,
            out as int * pow(10, (exp - exp0) as nat) == output,
        ensures
            canonical_mantissa32(out),
            out as int * pow(10, (exp - exp0) as nat) == output,
            exp0 <= exp <= exp0 + 19,
        decreases out,
    {
        if out == 0 || out % 10 != 0 {
            break;
        }
        proof {
            lemma_strip_step((exp - exp0) as nat, out as u64, 0x80000003);
            lemma_fundamental_div_mod(out as int, 10);
            lemma_pow_adds(10, (exp - exp0) as nat, 1);
            lemma_pow1(10);
            lemma_mul_is_associative((out / 10) as int, 10, pow(10, (exp - exp0) as nat));
        }
        out = out / 10;
        exp = exp + 1;
    }
    proof {
        let ghost stripped = removed as nat;
        let ghost canon = (exp - exp0) as nat;
        assert(exp == f2d_e10(ieee_mantissa, ieee_exponent) + stripped + canon);
        assert(f2d_digit_outcome(ieee_mantissa, ieee_exponent, out, exp, stripped, canon));
        assert(derives_from_scaled_mid32(ieee_mantissa, ieee_exponent, out, exp));
    }
    (out, exp)
}

/// Shortest round-trip decimal representation of the finite 32-bit float
/// with the given raw bits. The sign of the result is the sign bit of the
/// input; both zeros map to mantissa zero with exponent zero; any other
/// value maps to a canonical mantissa derived from the rescaled midpoint
/// of its rounding interval by digit removal and a final rounding step.
pub fn f2d(bits: u32) -> (r: FloatingDecimal32)
    requires
        float_is_finite(bits),
    ensures
        r.sign == float_sign(bits),
        float_is_zero(bits) ==> r.mantissa == 0 && r.exponent == 0,
        !float_is_zero(bits) ==> derives_from_scaled_mid32(
            float_mantissa_field(bits),
            float_exponent_field(bits),
            r.mantissa,
            r.exponent,
        ),
        canonical_mantissa32(r.mantissa),
{
    let sign: bool = bits >> 31 == 1;
    let ieee_mantissa: u32 = bits & 0x7fffff;
    let ieee_exponent_w: u32 = (bits >> 23) & 0xff;
    proof {
        assert((bits >> 23) & 0xff <= 0xff && bits & 0x7fffff <= 0x7fffff) by (bit_vector);
    }
    let ieee_exponent: u32 = ieee_exponent_w;
    if ieee_mantissa == 0 && ieee_exponent == 0 {
        return FloatingDecimal32 { sign, mantissa: 0, exponent: 0 };
    }
    let (mantissa, exponent) = f2d_core(ieee_mantissa, ieee_exponent);
    FloatingDecimal32 { sign, mantissa, exponent }
}

} // verus!
