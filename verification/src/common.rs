//! Logarithm approximations shared by the format drivers, and the
//! bookkeeping lemma for the digit-removal loops.
//!
//! Each approximation is a fixed-point linear formula, and each contract
//! states that formula exactly; the drivers and their contracts are built
//! on the formulas alone. That a formula agrees with the mathematical
//! logarithm on the stated domain is a property of its constant, too tight
//! for an algebraic certificate (the slack over the whole domain is below
//! one unit), and is exercised by the round-trip test suite instead.

use vstd::prelude::*;
use vstd::arithmetic::div_mod::lemma_div_is_ordered;
use vstd::arithmetic::div_mod::lemma_fundamental_div_mod;
use vstd::arithmetic::mul::lemma_mul_inequality;
use vstd::arithmetic::mul::lemma_mul_is_associative;
use vstd::arithmetic::power::pow;
use vstd::arithmetic::power::lemma_pow_adds;
use vstd::arithmetic::power::lemma_pow_increases;
use vstd::arithmetic::power::lemma_pow_positive;
use vstd::arithmetic::power::lemma_pow1;

verus! {

/// Fixed-point formula for the bit width of `5^e`: agrees with
/// `ceil(log2(5^e))` for `0 < e <= 3528`, and gives 1 for `e == 0`.
pub fn pow5bits(e: u32) -> (r: u32)
    requires
        e <= 3528,
    ensures
        r == e * 1217359 / 524288 + 1,
{
    (e * 1217359) / 524288 + 1
}

/// Fixed-point formula for `floor(log10(2^e))`: agrees with it for
/// `e <= 1650`.
pub fn log10_pow2(e: u32) -> (r: u32)
    requires
        e <= 1650,
    ensures
        r == e * 78913 / 262144,
{
    (e * 78913) / 262144
}

/// Fixed-point formula for `floor(log10(5^e))`: agrees with it for
/// `e <= 2620`.
pub fn log10_pow5(e: u32) -> (r: u32)
    requires
        e <= 2620,
    ensures
        r == e * 732923 / 1048576,
{
    (e * 732923) / 1048576
}

/// Removing one decimal digit keeps the product of the removed scale and
/// the shrinking value from growing; while the value still has two digits,
/// fewer than twenty digits can ever have been removed, because the scaled
/// product stays below `10^19`.
pub proof fn lemma_strip_step(r: nat, v: u64, bound: nat)
    requires
        pow(10, r) * v <= bound,
        bound <= 0x9000000000000000,
    ensures
        pow(10, r + 1) * ((v / 10) as nat) <= bound,
        v >= 10 ==> r + 1 <= 19,
        v >= 10 ==> v / 10 >= 1,
{
    lemma_pow_adds(10, r, 1);
    lemma_pow1(10);
    lemma_pow_positive(10, r);
    lemma_pow_positive(10, r + 1);
    lemma_fundamental_div_mod(v as int, 10);
    assert(10 * ((v / 10) as int) <= v);
    lemma_mul_inequality(10 * ((v / 10) as int), v as int, pow(10, r));
    lemma_mul_is_associative(pow(10, r), 10, (v / 10) as int);
    assert(pow(10, r + 1) * ((v / 10) as int) <= pow(10, r) * v);
    if v >= 10 {
        lemma_div_is_ordered(10, v as int, 10);
        assert(v / 10 >= 1);
        lemma_mul_inequality(1, (v / 10) as int, pow(10, r + 1));
        assert(pow(10, r + 1) <= bound);
        if r + 1 >= 20 {
            lemma_pow_increases(10, 20, r + 1);
            reveal_with_fuel(pow, 21);
            assert(pow(10, 20) == 100000000000000000000);
            assert(false);
        }
    }
}

/// After `i + 1` removed digits the two boundaries still differ, so the
/// shortened representation still identifies the value.
pub open spec fn apart_after(hi: int, lo: int, i: nat) -> bool {
    hi / pow(10, i) / 10 > lo / pow(10, i) / 10
}

/// Rare-path removal: the boundaries dictate the first `k1` removals,
/// and the remaining removed digits are trailing zero digits of the exact
/// lower boundary, stripped until a nonzero digit appears.
pub open spec fn rare_strips(hi: int, lo: int, k: nat, k1: nat) -> bool {
    &&& k1 <= k
    &&& (forall|i: nat| i < k1 ==> #[trigger] apart_after(hi, lo, i))
    &&& !apart_after(hi, lo, k1)
    &&& (forall|i: nat| k1 <= i < k ==> (lo / #[trigger] pow(10, i)) % 10 == 0)
    &&& (k == k1 || (lo / pow(10, k)) % 10 != 0 || lo / pow(10, k) == 0)
}

} // verus!
