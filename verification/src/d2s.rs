//! Shortest round-trip decimal conversion for the 64-bit binary format.
//!
//! The driver decomposes the raw bits, normalizes the significand, rescales
//! the rounding-interval boundaries to a decimal fixed point through the
//! precomputed power-of-five tables, and strips digits until the shortest
//! mantissa that still identifies the original value remains.

use vstd::prelude::*;
use vstd::arithmetic::div_mod::lemma_div_is_ordered;
use vstd::arithmetic::div_mod::lemma_div_denominator;
use vstd::arithmetic::div_mod::lemma_fundamental_div_mod;
use vstd::arithmetic::div_mod::lemma_mod_bound;
use vstd::arithmetic::div_mod::lemma_mod_breakdown;
use vstd::arithmetic::mul::lemma_mul_inequality;
use vstd::arithmetic::power::pow;
use vstd::arithmetic::power::lemma_pow_positive;
use vstd::arithmetic::power::lemma_pow0;
use vstd::arithmetic::power::lemma_pow1;
use vstd::arithmetic::power::lemma_pow_adds;
use vstd::arithmetic::mul::lemma_mul_is_associative;
use vstd::arithmetic::power2::pow2;
use crate::tables::DOUBLE_POW5_INV_SPLIT;
use crate::tables::DOUBLE_POW5_SPLIT;
use crate::common::log10_pow2;
use crate::common::log10_pow5;
use crate::common::pow5bits;
use crate::common::lemma_strip_step;
use crate::common::apart_after;
use crate::common::rare_strips;
use crate::intrinsics::five_factor;
use crate::intrinsics::mul_shift_all_64;
use crate::intrinsics::multiple_of_power_of_5;
use crate::intrinsics::multiple_of_power_of_2;
use crate::tables::double_pow5;
use crate::tables::double_pow5_inv;

verus! {

/// Width of the stored mantissa field.
pub const DOUBLE_MANTISSA_BITS: u32 = 52;

/// Width of the stored exponent field.
pub const DOUBLE_EXPONENT_BITS: u32 = 11;

/// Exponent bias of the format.
pub const DOUBLE_BIAS: u32 = 1023;

/// Decimal representation of a finite 64-bit float:
/// `(-1)^sign * mantissa * 10^exponent`.
pub struct FloatingDecimal64 {
    pub sign: bool,
    pub mantissa: u64,
    pub exponent: i32,
}

/// A mantissa is canonical when it carries no trailing zero digit, except
/// for the value zero itself.
pub open spec fn canonical_mantissa64(m: u64) -> bool {
    m == 0 || m % 10 != 0
}

/// Sign bit of the raw representation.
pub open spec fn double_sign(bits: u64) -> bool {
    bits >> 63 == 1
}

/// Stored (biased) exponent field of the raw representation.
pub open spec fn double_exponent_field(bits: u64) -> u64 {
    (bits >> 52) & 0x7ff
}

/// Stored mantissa field of the raw representation.
pub open spec fn double_mantissa_field(bits: u64) -> u64 {
    bits & 0xfffffffffffff
}

/// The raw bits denote a finite value: the exponent field is not all ones.
pub open spec fn double_is_finite(bits: u64) -> bool {
    double_exponent_field(bits) != 0x7ff
}

/// The raw bits denote positive or negative zero.
pub open spec fn double_is_zero(bits: u64) -> bool {
    double_exponent_field(bits) == 0 && double_mantissa_field(bits) == 0
}

/// Binary exponent of the scaled significand: the unbiased exponent,
/// less the mantissa width, less two extra bits of scale for the
/// boundary computation.
pub open spec fn d2d_e2(mant: u64, exp: u32) -> int {
    if exp == 0 {
        1 - 1023 - 52 - 2
    } else {
        exp - 1023 - 52 - 2
    }
}

/// Scaled significand: the mantissa field, with the implicit bit for
/// normal values.
pub open spec fn d2d_m2(mant: u64, exp: u32) -> u64 {
    if exp == 0 {
        mant
    } else {
        (1u64 << 52) | mant
    }
}

/// The decimal shift chosen for the rescaling.
pub open spec fn d2d_q(mant: u64, exp: u32) -> int {
    let e2 = d2d_e2(mant, exp);
    if e2 >= 0 {
        e2 * 78913 / 262144 - (if e2 > 3 { 1int } else { 0int })
    } else {
        (-e2) * 732923 / 1048576 - (if -e2 > 1 { 1int } else { 0int })
    }
}

/// Base-ten exponent of the rescaled boundaries.
pub open spec fn d2d_e10(mant: u64, exp: u32) -> int {
    let e2 = d2d_e2(mant, exp);
    if e2 >= 0 {
        d2d_q(mant, exp)
    } else {
        d2d_q(mant, exp) + e2
    }
}

/// Width formula for `5^e`, as computed by `pow5bits`.
pub open spec fn pow5bits_of(e: int) -> int {
    e * 1217359 / 524288 + 1
}

/// The shift applied to the fixed-point product.
pub open spec fn d2d_j(mant: u64, exp: u32) -> int {
    let e2 = d2d_e2(mant, exp);
    let q = d2d_q(mant, exp);
    if e2 >= 0 {
        q - e2 + 125 + pow5bits_of(q) - 1
    } else {
        q - (pow5bits_of(-e2 - q) - 125)
    }
}

/// The 125-bit fixed-point multiplier used for the rescaling, with the
/// high word masked exactly as the table accessors hand it out.
pub open spec fn d2d_multiplier(mant: u64, exp: u32) -> int {
    let e2 = d2d_e2(mant, exp);
    let q = d2d_q(mant, exp);
    if e2 >= 0 {
        DOUBLE_POW5_INV_SPLIT[q].0 as int
            + (DOUBLE_POW5_INV_SPLIT[q].1 & 0x3fffffffffffffff) as int * pow2(64) as int
    } else {
        DOUBLE_POW5_SPLIT[-e2 - q].0 as int
            + (DOUBLE_POW5_SPLIT[-e2 - q].1 & 0x3fffffffffffffff) as int * pow2(64) as int
    }
}

/// The rescaled midpoint of the rounding interval:
/// `floor(4 * significand * multiplier / 2^j)`.
pub open spec fn d2d_scaled_mid(mant: u64, exp: u32) -> int {
    (4 * d2d_m2(mant, exp) as int) * d2d_multiplier(mant, exp)
        / (pow2(d2d_j(mant, exp) as nat) as int)
}

/// Parity of the scaled significand: an even significand may accept an
/// exact boundary.
pub open spec fn d2d_even(mant: u64, exp: u32) -> bool {
    d2d_m2(mant, exp) % 2 == 0
}

/// Width of the gap below the value, in quarter units.
pub open spec fn d2d_mm_shift(mant: u64, exp: u32) -> int {
    if mant != 0 || exp <= 1 {
        1
    } else {
        0
    }
}

/// Whether the rescaled midpoint is an exact value (all truncated digits
/// zero), as the driver decides it.
pub open spec fn d2d_vr_exact(mant: u64, exp: u32) -> bool {
    let e2 = d2d_e2(mant, exp);
    let q = d2d_q(mant, exp);
    let mv: nat = 4 * d2d_m2(mant, exp) as nat;
    if e2 >= 0 {
        q <= 21 && mv % 5 == 0 && q <= five_factor(mv)
    } else {
        q <= 1 || (q < 63 && mv % pow2(q as nat) == 0)
    }
}

/// Whether the rescaled lower boundary is exact and acceptable, as the
/// driver decides it.
pub open spec fn d2d_vm_exact(mant: u64, exp: u32) -> bool {
    let e2 = d2d_e2(mant, exp);
    let q = d2d_q(mant, exp);
    let mv: nat = 4 * d2d_m2(mant, exp) as nat;
    if e2 >= 0 {
        q <= 21 && mv % 5 != 0 && d2d_even(mant, exp)
            && q <= five_factor((mv - 1 - d2d_mm_shift(mant, exp)) as nat)
    } else {
        q <= 1 && d2d_even(mant, exp) && d2d_mm_shift(mant, exp) == 1
    }
}

/// The digit generation takes the slow, exactness-aware path.
pub open spec fn d2d_rare_path(mant: u64, exp: u32) -> bool {
    d2d_vm_exact(mant, exp) || d2d_vr_exact(mant, exp)
}

/// The rescaled upper boundary, after excluding an inexact boundary that
/// may not be selected.
pub open spec fn d2d_scaled_hi(mant: u64, exp: u32) -> int {
    let e2 = d2d_e2(mant, exp);
    let q = d2d_q(mant, exp);
    let mv: nat = 4 * d2d_m2(mant, exp) as nat;
    let raw = (4 * d2d_m2(mant, exp) as int + 2) * d2d_multiplier(mant, exp)
        / (pow2(d2d_j(mant, exp) as nat) as int);
    if e2 >= 0 {
        if q <= 21 && mv % 5 != 0 && !d2d_even(mant, exp) && q <= five_factor((mv + 2) as nat)
            && raw > 0 {
            raw - 1
        } else {
            raw
        }
    } else {
        if q <= 1 && !d2d_even(mant, exp) && raw > 0 {
            raw - 1
        } else {
            raw
        }
    }
}

/// The rescaled lower boundary.
pub open spec fn d2d_scaled_lo(mant: u64, exp: u32) -> int {
    (4 * d2d_m2(mant, exp) as int - 1 - d2d_mm_shift(mant, exp)) * d2d_multiplier(mant, exp)
        / (pow2(d2d_j(mant, exp) as nat) as int)
}

/// The removal depth `k` is the one the boundaries dictate. On the common
/// path it is exactly the greatest depth at which the boundaries stay
/// apart; on the rare path, `d2d_rare_strips` holds for some split.
pub open spec fn d2d_strips_exactly(mant: u64, exp: u32, k: nat) -> bool {
    let hi = d2d_scaled_hi(mant, exp);
    let lo = d2d_scaled_lo(mant, exp);
    if d2d_rare_path(mant, exp) {
        exists|k1: nat| #[trigger] rare_strips(hi, lo, k, k1)
    } else {
        &&& (forall|i: nat| i < k ==> #[trigger] apart_after(hi, lo, i))
        &&& !apart_after(hi, lo, k)
    }
}

/// Common-path rounding rule: take one more than the truncated midpoint
/// when the truncation collides with the lower boundary, or when the last
/// removed digit calls for rounding up.
pub open spec fn d2d_rounds_up(mant: u64, exp: u32, k: nat) -> bool {
    ||| d2d_scaled_mid(mant, exp) / pow(10, k) == d2d_scaled_lo(mant, exp) / pow(10, k)
    ||| (k > 0 && (d2d_scaled_mid(mant, exp) / pow(10, (k - 1) as nat)) % 10 >= 5)
}

/// Rare-path rounding rule. The boundary flags survive digit removal only
/// while the removed digits are zero; the last removed digit, lowered from
/// five to four when the midpoint is exact and the kept digits are even,
/// decides rounding; an inexact or unacceptable lower boundary may not be
/// selected as is.
pub open spec fn d2d_rare_rounds_up(mant: u64, exp: u32, k: nat, k1: nat) -> bool {
    let mid = d2d_scaled_mid(mant, exp);
    let lo = d2d_scaled_lo(mant, exp);
    let vm_still = d2d_vm_exact(mant, exp) && (forall|i: nat|
        i < k1 ==> (lo / #[trigger] pow(10, i)) % 10 == 0);
    let vr_still = d2d_vr_exact(mant, exp) && (forall|i: nat|
        i + 1 < k ==> (mid / #[trigger] pow(10, i)) % 10 == 0);
    let digit_raw = if k > 0 {
        (mid / pow(10, (k - 1) as nat)) % 10
    } else {
        0int
    };
    let digit = if vr_still && digit_raw == 5 && (mid / pow(10, k)) % 2 == 0 {
        4int
    } else {
        digit_raw
    };
    (mid / pow(10, k) == lo / pow(10, k) && (!d2d_even(mant, exp) || !vm_still)) || digit >= 5
}

/// One digit-generation outcome: the midpoint loses exactly the `k`
/// digits the boundaries dictate, the final digit is adjusted by the
/// path's rounding rule, and `t` more trailing zero digits are dropped;
/// the decimal exponent accounts for every removed digit.
pub open spec fn d2d_digit_outcome(mant: u64, exp: u32, m: u64, e: i32, k: nat, t: nat) -> bool {
    &&& k <= 19
    &&& t <= 19
    &&& d2d_strips_exactly(mant, exp, k)
    &&& (if d2d_rare_path(mant, exp) {
        exists|k1: nat|
            {
                &&& #[trigger] rare_strips(d2d_scaled_hi(mant, exp), d2d_scaled_lo(mant, exp), k, k1)
                &&& m * pow(10, t) == d2d_scaled_mid(mant, exp) / pow(10, k) + (
                if d2d_rare_rounds_up(mant, exp, k, k1) {
                    1int
                } else {
                    0int
                })
            }
    } else {
        m * pow(10, t) == d2d_scaled_mid(mant, exp) / pow(10, k)
            + (if d2d_rounds_up(mant, exp, k) { 1int } else { 0int })
    })
    &&& e == d2d_e10(mant, exp) + k + t
}

/// The digit generation derives `(m, e)` from the rescaled boundaries.
pub open spec fn derives_from_scaled_mid64(mant: u64, exp: u32, m: u64, e: i32) -> bool {
    exists|k: nat, t: nat| #[trigger] d2d_digit_outcome(mant, exp, m, e, k, t)
}

/// Shortest decimal mantissa and exponent for a nonzero finite value given
/// by its stored mantissa and exponent fields.
#[verifier::rlimit(100)]
pub fn d2d_core(ieee_mantissa: u64, ieee_exponent: u32) -> (r: (u64, i32))
    requires
        ieee_mantissa <= 0xfffffffffffff,
        ieee_exponent <= 2046,
        ieee_mantissa != 0 || ieee_exponent != 0,
    ensures
        canonical_mantissa64(r.0),
        derives_from_scaled_mid64(ieee_mantissa, ieee_exponent, r.0, r.1),
{
    let (e2, m2): (i32, u64) = if ieee_exponent == 0 {
        // Subnormal: no implicit bit; two extra bits of scale for the
        // boundary computation.
        (1 - 1023 - 52 - 2, ieee_mantissa)
    } else {
        (
            ieee_exponent as i32 - 1023 - 52 - 2,
            (1u64 << 52) | ieee_mantissa,
        )
    };
    let even: bool = (m2 & 1) == 0;
    let accept_bounds: bool = even;
    proof {
        assert((1u64 << 52) | ieee_mantissa >= 1u64 << 52 && (1u64 << 52) | ieee_mantissa
            <= 0x1fffffffffffff && (1u64 << 52) == 0x10000000000000) by (bit_vector)
            requires ieee_mantissa <= 0xfffffffffffff;
        assert(((m2 & 1) == 0) == (m2 % 2 == 0)) by (bit_vector);
    }

    // Interval of valid decimal representations, scaled by four so the
    // half-ulp boundaries stay integral.
    let mv: u64 = 4 * m2;
    // The gap below is a full ulp only when the significand is the smallest
    // of its binary exponent (and its predecessor is one exponent down).
    let mm_shift: u32 = if ieee_mantissa != 0 || ieee_exponent <= 1 {
        1
    } else {
        0
    };

    // Rescale the boundaries to a decimal power base.
    let vr: u64;
    let mut vp: u64;
    let vm: u64;
    let e10: i32;
    let mut vm_is_trailing_zeros = false;
    let mut vr_is_trailing_zeros = false;
    if e2 >= 0 {
        proof {
            lemma_fundamental_div_mod(e2 * 78913, 262144);
            lemma_mod_bound(e2 * 78913, 262144);
        }
        let q: u32 = log10_pow2(e2 as u32) - (if e2 > 3 { 1 } else { 0 });
        e10 = q as i32;
        proof {
            lemma_fundamental_div_mod(q as int * 1217359, 524288);
            lemma_mod_bound(q as int * 1217359, 524288);
        }
        let k: u32 = 125 + pow5bits(q) - 1;
        let j: u32 = ((q as i32 - e2) + k as i32) as u32;
        proof {
            assert(118 <= (q as i32 - e2) + k as i32 <= 191);
        }
        let mul: (u64, u64) = double_pow5_inv(q as usize);
        let bounds = mul_shift_all_64(m2, &mul, j, mm_shift);
        vr = bounds.0;
        vp = bounds.1;
        vm = bounds.2;
        if q <= 21 {
            // Only one of mv, mv + 2 and mv - 1 - mm_shift can be a
            // multiple of five, if any.
            if mv % 5 == 0 {
                vr_is_trailing_zeros = multiple_of_power_of_5(mv, q);
            } else if accept_bounds {
                vm_is_trailing_zeros = multiple_of_power_of_5(mv - 1 - mm_shift as u64, q);
            } else if multiple_of_power_of_5(mv + 2, q) && vp > 0 {
                // An inexact upper boundary may not be selected; the
                // rescaled boundary is never zero, so the test on vp only
                // makes the decrement evidently safe.
                vp = vp - 1;
            }
        }
        proof {
            assert(vr == d2d_scaled_mid(ieee_mantissa, ieee_exponent));
            assert(e10 == d2d_e10(ieee_mantissa, ieee_exponent));
            assert(vp == d2d_scaled_hi(ieee_mantissa, ieee_exponent));
            assert(vm == d2d_scaled_lo(ieee_mantissa, ieee_exponent));
            assert(vm_is_trailing_zeros == d2d_vm_exact(ieee_mantissa, ieee_exponent));
            assert(vr_is_trailing_zeros == d2d_vr_exact(ieee_mantissa, ieee_exponent));
        }
    } else {
        let ne: u32 = (-e2) as u32;
        proof {
            lemma_fundamental_div_mod(ne as int * 732923, 1048576);
            lemma_mod_bound(ne as int * 732923, 1048576);
        }
        let q: u32 = log10_pow5(ne) - (if ne > 1 { 1 } else { 0 });
        e10 = q as i32 + e2;
        let i: u32 = ne - q;
        proof {
            lemma_fundamental_div_mod(i as int * 1217359, 524288);
            lemma_mod_bound(i as int * 1217359, 524288);
        }
        let k: i32 = pow5bits(i) as i32 - 125;
        let j: u32 = (q as i32 - k) as u32;
        proof {
            assert(118 <= q as i32 - k <= 191);
            assert(i < 326);
        }
        let mul: (u64, u64) = double_pow5(i as usize);
        let bounds = mul_shift_all_64(m2, &mul, j, mm_shift);
        vr = bounds.0;
        vp = bounds.1;
        vm = bounds.2;
        if q <= 1 {
            // mv has at least two factors of two, so vr is exact; the lower
            // boundary is exact only when the gap below is a full ulp.
            vr_is_trailing_zeros = true;
            if accept_bounds {
                vm_is_trailing_zeros = mm_shift == 1;
            } else if vp > 0 {
                // The upper boundary always has a factor of two: it is
                // exact, but not acceptable.
                vp = vp - 1;
            }
        } else if q < 63 {
            vr_is_trailing_zeros = multiple_of_power_of_2(mv, q);
        }
        proof {
            assert(vr == d2d_scaled_mid(ieee_mantissa, ieee_exponent));
            assert(e10 == d2d_e10(ieee_mantissa, ieee_exponent));
            assert(vp == d2d_scaled_hi(ieee_mantissa, ieee_exponent));
            assert(vm == d2d_scaled_lo(ieee_mantissa, ieee_exponent));
            assert(vm_is_trailing_zeros == d2d_vm_exact(ieee_mantissa, ieee_exponent));
            assert(vr_is_trailing_zeros == d2d_vr_exact(ieee_mantissa, ieee_exponent));
        }
    }

    // Shortest representation inside the interval: strip digits while the
    // upper and lower boundaries still agree.
    let ghost hi: int = d2d_scaled_hi(ieee_mantissa, ieee_exponent);
    let ghost lo: int = d2d_scaled_lo(ieee_mantissa, ieee_exponent);
    proof {
        lemma_pow0(10);
        assert(vp == hi && vm == lo && 0 <= hi && 0 <= lo);
    }
    let mut removed: u32 = 0;
    let mut last_removed_digit: u8 = 0;
    let mut vr_s: u64 = vr;
    let mut vp_s: u64 = vp;
    let mut vm_s: u64 = vm;
    let output: u64;
    if vm_is_trailing_zeros || vr_is_trailing_zeros {
        proof {
            assert(d2d_rare_path(ieee_mantissa, ieee_exponent));
        }
        // Rare path: an exact boundary may be included, so digit removal
        // must track whether removed digits were all zero.
        loop
            invariant
                removed <= 19,
                0 <= hi && 0 <= lo,
                pow(10, removed as nat) * vp_s <= 0x8000000000000002,
                pow(10, removed as nat) * vm_s <= 0x8000000000000002,
                pow(10, removed as nat) * vr_s <= 0x8000000000000002,
                vr_s == vr as int / pow(10, removed as nat),
                vp_s == hi / pow(10, removed as nat),
                vm_s == lo / pow(10, removed as nat),
                forall|i: nat| i < removed ==> #[trigger] apart_after(hi, lo, i),
                vm_is_trailing_zeros == (d2d_vm_exact(ieee_mantissa, ieee_exponent)
                    && (forall|i: nat| i < removed ==> (lo / #[trigger] pow(10, i)) % 10 == 0)),
                vr_is_trailing_zeros == (d2d_vr_exact(ieee_mantissa, ieee_exponent)
                    && (forall|i: nat|
                    i + 1 < removed ==> (vr as int / #[trigger] pow(10, i)) % 10 == 0)),
                last_removed_digit as int == (if removed > 0 {
                    (vr as int / pow(10, (removed - 1) as nat)) % 10
                } else {
                    0int
                }),
            ensures
                removed <= 19,
                pow(10, removed as nat) * vp_s <= 0x8000000000000002,
                pow(10, removed as nat) * vm_s <= 0x8000000000000002,
                pow(10, removed as nat) * vr_s <= 0x8000000000000002,
                vr_s == vr as int / pow(10, removed as nat),
                vp_s == hi / pow(10, removed as nat),
                vm_s == lo / pow(10, removed as nat),
                forall|i: nat| i < removed ==> #[trigger] apart_after(hi, lo, i),
                !apart_after(hi, lo, removed as nat),
                vm_is_trailing_zeros == (d2d_vm_exact(ieee_mantissa, ieee_exponent)
                    && (forall|i: nat| i < removed ==> (lo / #[trigger] pow(10, i)) % 10 == 0)),
                vr_is_trailing_zeros == (d2d_vr_exact(ieee_mantissa, ieee_exponent)
                    && (forall|i: nat|
                    i + 1 < removed ==> (vr as int / #[trigger] pow(10, i)) % 10 == 0)),
                last_removed_digit as int == (if removed > 0 {
                    (vr as int / pow(10, (removed - 1) as nat)) % 10
                } else {
                    0int
                }),
            decreases vp_s,
        {
            let vp_div10 = vp_s / 10;
            let vm_div10 = vm_s / 10;
            if vp_div10 <= vm_div10 {
                break;
            }
            proof {
                lemma_strip_step(removed as nat, vp_s, 0x8000000000000002);
                lemma_strip_step(removed as nat, vm_s, 0x8000000000000002);
                lemma_strip_step(removed as nat, vr_s, 0x8000000000000002);
                lemma_pow_adds(10, removed as nat, 1);
                lemma_pow1(10);
                lemma_pow_positive(10, removed as nat);
                lemma_div_denominator(vr as int, pow(10, removed as nat), 10);
                lemma_div_denominator(hi, pow(10, removed as nat), 10);
                lemma_div_denominator(lo, pow(10, removed as nat), 10);
                assert(apart_after(hi, lo, removed as nat));
            }
            let vm_mod10 = vm_s % 10;
            let vr_div10 = vr_s / 10;
            let vr_mod10 = vr_s % 10;
            vm_is_trailing_zeros = vm_is_trailing_zeros && vm_mod10 == 0;
            vr_is_trailing_zeros = vr_is_trailing_zeros && last_removed_digit == 0;
            last_removed_digit = vr_mod10 as u8;
            vr_s = vr_div10;
            vp_s = vp_div10;
            vm_s = vm_div10;
            removed = removed + 1;
        }
        let ghost k1: nat = removed as nat;
        if vm_is_trailing_zeros {
            loop
                invariant
                    removed <= 19,
                    0 <= hi && 0 <= lo,
                    k1 <= removed,
                    pow(10, removed as nat) * vp_s <= 0x8000000000000002,
                    pow(10, removed as nat) * vm_s <= 0x8000000000000002,
                    pow(10, removed as nat) * vr_s <= 0x8000000000000002,
                    vr_s == vr as int / pow(10, removed as nat),
                    vm_s == lo / pow(10, removed as nat),
                    !apart_after(hi, lo, k1),
                    forall|i: nat| i < k1 ==> #[trigger] apart_after(hi, lo, i),
                    forall|i: nat| k1 <= i < removed ==> (lo / #[trigger] pow(10, i)) % 10 == 0,
                    vm_is_trailing_zeros == (d2d_vm_exact(ieee_mantissa, ieee_exponent)
                        && (forall|i: nat| i < k1 ==> (lo / #[trigger] pow(10, i)) % 10 == 0)),
                    vr_is_trailing_zeros == (d2d_vr_exact(ieee_mantissa, ieee_exponent)
                        && (forall|i: nat|
                        i + 1 < removed ==> (vr as int / #[trigger] pow(10, i)) % 10 == 0)),
                    last_removed_digit as int == (if removed > 0 {
                        (vr as int / pow(10, (removed - 1) as nat)) % 10
                    } else {
                        0int
                    }),
                ensures
                    removed <= 19,
                    k1 <= removed,
                    pow(10, removed as nat) * vr_s <= 0x8000000000000002,
                    vr_s == vr as int / pow(10, removed as nat),
                    vm_s == lo / pow(10, removed as nat),
                    !apart_after(hi, lo, k1),
                    forall|i: nat| i < k1 ==> #[trigger] apart_after(hi, lo, i),
                    forall|i: nat| k1 <= i < removed ==> (lo / #[trigger] pow(10, i)) % 10 == 0,
                    vm_s % 10 != 0 || vm_s == 0,
                    vm_is_trailing_zeros == (d2d_vm_exact(ieee_mantissa, ieee_exponent)
                        && (forall|i: nat| i < k1 ==> (lo / #[trigger] pow(10, i)) % 10 == 0)),
                    vr_is_trailing_zeros == (d2d_vr_exact(ieee_mantissa, ieee_exponent)
                        && (forall|i: nat|
                        i + 1 < removed ==> (vr as int / #[trigger] pow(10, i)) % 10 == 0)),
                    last_removed_digit as int == (if removed > 0 {
                        (vr as int / pow(10, (removed - 1) as nat)) % 10
                    } else {
                        0int
                    }),
                decreases vm_s,
            {
                let vm_div10 = vm_s / 10;
                let vm_mod10 = vm_s % 10;
                // The lower boundary cannot reach zero here; the extra test
                // only makes termination evident.
                if vm_mod10 != 0 || vm_s == 0 {
                    break;
                }
                proof {
                    lemma_strip_step(removed as nat, vp_s, 0x8000000000000002);
                    lemma_strip_step(removed as nat, vm_s, 0x8000000000000002);
                    lemma_strip_step(removed as nat, vr_s, 0x8000000000000002);
                    lemma_pow_adds(10, removed as nat, 1);
                    lemma_pow1(10);
                    lemma_pow_positive(10, removed as nat);
                    lemma_div_denominator(vr as int, pow(10, removed as nat), 10);
                    lemma_div_denominator(lo, pow(10, removed as nat), 10);
                    assert((lo / pow(10, removed as nat)) % 10 == 0);
                }
                let vp_div10 = vp_s / 10;
                let vr_div10 = vr_s / 10;
                let vr_mod10 = vr_s % 10;
                vr_is_trailing_zeros = vr_is_trailing_zeros && last_removed_digit == 0;
                last_removed_digit = vr_mod10 as u8;
                vr_s = vr_div10;
                vp_s = vp_div10;
                vm_s = vm_div10;
                removed = removed + 1;
            }
        }
        if vr_is_trailing_zeros && last_removed_digit == 5 && vr_s % 2 == 0 {
            // Round even if the exact value ends in five followed by zeros.
            last_removed_digit = 4;
        }
        proof {
            lemma_pow_positive(10, removed as nat);
            lemma_mul_inequality(1, pow(10, removed as nat), vr_s as int);
        }
        // Take one more than vr if vr is outside the interval or the
        // removed digits call for rounding up.
        output = vr_s + (if (vr_s == vm_s && (!accept_bounds || !vm_is_trailing_zeros))
            || last_removed_digit >= 5 {
            1u64
        } else {
            0u64
        });
        proof {
            assert(rare_strips(hi, lo, removed as nat, k1));
            assert(d2d_strips_exactly(ieee_mantissa, ieee_exponent, removed as nat));
            assert(output == d2d_scaled_mid(ieee_mantissa, ieee_exponent) / pow(
                10,
                removed as nat,
            ) + (if d2d_rare_rounds_up(ieee_mantissa, ieee_exponent, removed as nat, k1) {
                1int
            } else {
                0int
            }));
        }
    } else {
        proof {
            assert(!d2d_rare_path(ieee_mantissa, ieee_exponent));
        }
        // Common path: no exact boundary; a plain nearest-rounding strip,
        // removing two digits at a time first.
        let mut round_up: bool = false;
        let vp_div100 = vp_s / 100;
        let vm_div100 = vm_s / 100;
        if vp_div100 > vm_div100 {
            let vr_div100 = vr_s / 100;
            let vr_mod100 = vr_s % 100;
            round_up = vr_mod100 >= 50;
            proof {
                lemma_div_denominator(vp_s as int, 10, 10);
                lemma_div_denominator(vm_s as int, 10, 10);
                lemma_div_denominator(vr_s as int, 10, 10);
                lemma_strip_step(removed as nat, vp_s, 0x8000000000000002);
                lemma_strip_step(removed as nat, vm_s, 0x8000000000000002);
                lemma_strip_step(removed as nat, vr_s, 0x8000000000000002);
                lemma_div_is_ordered(100, vp_s as int, 10);
                lemma_strip_step((removed + 1) as nat, vp_s / 10, 0x8000000000000002);
                lemma_strip_step((removed + 1) as nat, vm_s / 10, 0x8000000000000002);
                lemma_strip_step((removed + 1) as nat, vr_s / 10, 0x8000000000000002);
                lemma_pow_adds(10, removed as nat, 2);
                lemma_pow1(10);
                lemma_pow_adds(10, 1, 1);
                lemma_pow_positive(10, removed as nat);
                lemma_div_denominator(vr as int, pow(10, removed as nat), 100);
                // Both removed digits kept the boundaries apart: the
                // hundredfold test implies the tenfold one.
                lemma_div_denominator(hi, 10, 10);
                lemma_div_denominator(lo, 10, 10);
                assert(apart_after(hi, lo, 1));
                if hi / 10 <= lo / 10 {
                    lemma_div_is_ordered(hi / 10, lo / 10, 10);
                    assert(false);
                }
                assert(apart_after(hi, lo, 0));
                assert(pow(10, 2) == 100);
                // The fifty test on the last two digits is the five test
                // on the tens digit.
                lemma_mod_breakdown(vr as int, 10, 10);
                lemma_mod_bound(vr as int, 10);
            }
            vr_s = vr_div100;
            vp_s = vp_div100;
            vm_s = vm_div100;
            removed = removed + 2;
        }
        loop
            invariant
                removed <= 19,
                0 <= hi && 0 <= lo,
                pow(10, removed as nat) * vp_s <= 0x8000000000000002,
                pow(10, removed as nat) * vm_s <= 0x8000000000000002,
                pow(10, removed as nat) * vr_s <= 0x8000000000000002,
                vr_s == vr as int / pow(10, removed as nat),
                vp_s == hi / pow(10, removed as nat),
                vm_s == lo / pow(10, removed as nat),
                forall|i: nat| i < removed ==> #[trigger] apart_after(hi, lo, i),
                round_up == (removed > 0 && (vr as int / pow(10, (removed - 1) as nat)) % 10
                    >= 5),
            ensures
                removed <= 19,
                pow(10, removed as nat) * vr_s <= 0x8000000000000002,
                vr_s == vr as int / pow(10, removed as nat),
                vp_s == hi / pow(10, removed as nat),
                vm_s == lo / pow(10, removed as nat),
                forall|i: nat| i < removed ==> #[trigger] apart_after(hi, lo, i),
                !apart_after(hi, lo, removed as nat),
                round_up == (removed > 0 && (vr as int / pow(10, (removed - 1) as nat)) % 10
                    >= 5),
            decreases vp_s,
        {
            let vp_div10 = vp_s / 10;
            let vm_div10 = vm_s / 10;
            if vp_div10 <= vm_div10 {
                break;
            }
            proof {
                lemma_strip_step(removed as nat, vp_s, 0x8000000000000002);
                lemma_strip_step(removed as nat, vm_s, 0x8000000000000002);
                lemma_strip_step(removed as nat, vr_s, 0x8000000000000002);
                lemma_pow_adds(10, removed as nat, 1);
                lemma_pow1(10);
                lemma_pow_positive(10, removed as nat);
                lemma_div_denominator(vr as int, pow(10, removed as nat), 10);
                lemma_div_denominator(hi, pow(10, removed as nat), 10);
                lemma_div_denominator(lo, pow(10, removed as nat), 10);
                assert(apart_after(hi, lo, removed as nat));
            }
            let vr_div10 = vr_s / 10;
            let vr_mod10 = vr_s % 10;
            round_up = vr_mod10 >= 5;
            vr_s = vr_div10;
            vp_s = vp_div10;
            vm_s = vm_div10;
            removed = removed + 1;
        }
        proof {
            lemma_pow_positive(10, removed as nat);
            lemma_mul_inequality(1, pow(10, removed as nat), vr_s as int);
        }
        output = vr_s + (if vr_s == vm_s || round_up {
            1u64
        } else {
            0u64
        });
        proof {
            assert(d2d_strips_exactly(ieee_mantissa, ieee_exponent, removed as nat));
            assert(output == d2d_scaled_mid(ieee_mantissa, ieee_exponent) / pow(
                10,
                removed as nat,
            ) + (if d2d_rounds_up(ieee_mantissa, ieee_exponent, removed as nat) {
                1int
            } else {
                0int
            }));
        }
    }
    let mut exp: i32 = e10 + removed as i32;

    // Canonical form: the shortest mantissa never carries a trailing zero
    // digit; dropping one preserves the denoted value.
    let mut out: u64 = output;
    let ghost exp0: int = exp as int;
    proof {
        lemma_pow0(10);
        assert(pow(10, 0) == 1);
        assert(output <= 0x8000000000000003);
        assert((exp - exp0) as nat == 0);
        assert(pow(10, (exp - exp0) as nat) * out <= 0x8000000000000003);
        assert(out as int * pow(10, (exp - exp0) as nat) == output);
    }
    loop
        invariant
            exp0 <= exp <= exp0 + 19,
            -1096 <= exp0 <= 311,
            pow(10, (exp - exp0) as nat) * out <= 0x8000000000000003,
            out as int * pow(10, (exp - exp0) as nat) == output,
        ensures
            canonical_mantissa64(out),
            out as int * pow(10, (exp - exp0) as nat) == output,
            exp0 <= exp <= exp0 + 19,
        decreases out,
    {
        if out == 0 || out % 10 != 0 {
            break;
        }
        proof {
            lemma_strip_step((exp - exp0) as nat, out, 0x8000000000000003);
            lemma_fundamental_div_mod(out as int, 10);
            lemma_pow_adds(10, (exp - exp0) as nat, 1);
            lemma_pow1(10);
            lemma_mul_is_associative((out / 10) as int, 10, pow(10, (exp - exp0) as nat));
        }
        out = out / 10;
        exp = exp + 1;
    }
    proof {
        let ghost stripped = removed as nat;
        let ghost canon = (exp - exp0) as nat;
        assert(exp == d2d_e10(ieee_mantissa, ieee_exponent) + stripped + canon);
        assert(d2d_digit_outcome(ieee_mantissa, ieee_exponent, out, exp, stripped, canon));
        assert(derives_from_scaled_mid64(ieee_mantissa, ieee_exponent, out, exp));
    }
    (out, exp)
}

/// Shortest round-trip decimal representation of the finite 64-bit float
/// with the given raw bits. The sign of the result is the sign bit of the
/// input; both zeros map to mantissa zero with exponent zero; any other
/// value maps to a canonical mantissa derived from the rescaled midpoint
/// of its rounding interval by digit removal and a final rounding step.
pub fn d2d(bits: u64) -> (r: FloatingDecimal64)
    requires
        double_is_finite(bits),
    ensures
        r.sign == double_sign(bits),
        double_is_zero(bits) ==> r.mantissa == 0 && r.exponent == 0,
        !double_is_zero(bits) ==> derives_from_scaled_mid64(
            double_mantissa_field(bits),
            double_exponent_field(bits) as u32,
            r.mantissa,
            r.exponent,
        ),
        canonical_mantissa64(r.mantissa),
{
    let sign: bool = bits >> 63 == 1;
    let ieee_mantissa: u64 = bits & 0xfffffffffffff;
    let ieee_exponent_w: u64 = (bits >> 52) & 0x7ff;
    proof {
        assert((bits >> 52) & 0x7ff <= 0x7ff && bits & 0xfffffffffffff <= 0xfffffffffffff)
            by (bit_vector);
    }
    let ieee_exponent: u32 = ieee_exponent_w as u32;
    if ieee_mantissa == 0 && ieee_exponent == 0 {
        return FloatingDecimal64 { sign, mantissa: 0, exponent: 0 };
    }
    let (mantissa, exponent) = d2d_core(ieee_mantissa, ieee_exponent);
    FloatingDecimal64 { sign, mantissa, exponent }
}

} // verus!
