//! Single-precision arithmetic on integers.
//!
//! Thresholds and budgets are scaled by small powers of two in single
//! precision, and memory pressure is a single-precision fraction. Both are
//! handled here exactly, without floating point: a scaled integer is first
//! rounded to 24 significant bits (ties to even), and a fraction is its IEEE 754
//! bit pattern.

use vstd::arithmetic::div_mod::*;
use vstd::arithmetic::mul::*;
use vstd::prelude::*;

verus! {

/// Distance between the single-precision values around `x`: 1 up to 24 bits,
/// then one more factor of two for each further bit.
pub open spec fn single_step(x: nat) -> nat
    decreases x,
{
    if x < 0x100_0000 {
        1
    } else {
        2 * single_step(x / 2)
    }
}

/// The single-precision value closest to `x`; of two equally close ones, that
/// with the even significand.
pub open spec fn nearest_single(x: nat) -> nat {
    let step = single_step(x);
    let below = (x / step) * step;
    let rest = x % step;
    if 2 * rest > step || (2 * rest == step && (x / step) % 2 == 1) {
        below + step
    } else {
        below
    }
}

/// An integer of at most 24 bits is a single-precision value itself.
pub proof fn nearest_single_is_exact_below_25_bits(x: nat)
    requires
        x < 0x100_0000,
    ensures
        nearest_single(x) == x,
{
    assert(single_step(x) == 1);
}

proof fn lemma_halving(x: nat, step: nat)
    requires
        step > 0,
    ensures
        (x / step) / 2 == x / (2 * step),
{
    lemma_div_denominator(x as int, step as int, 2);
    assert(step * 2 == 2 * step);
}

/// Rounds `x` to the closest single-precision value.
pub fn round_to_single(x: u128) -> (rounded: u128)
    requires
        x <= u128::MAX / 4,
    ensures
        rounded == nearest_single(x as nat),
        rounded <= 2 * x,
{
    let mut step: u128 = 1;
    let mut quotient: u128 = x;
    while quotient >= 0x100_0000
        invariant
            step > 0,
            quotient == x as nat / step as nat,
            quotient * step <= x,
            single_step(x as nat) == step * single_step(quotient as nat),
            step == 1 || quotient >= 0x80_0000,
            x <= u128::MAX / 4,
        decreases quotient,
    {
        proof {
            lemma_halving(x as nat, step as nat);
            assert(step * 2 * single_step((quotient / 2) as nat) == step * (2 * single_step(
                (quotient / 2) as nat,
            ))) by (nonlinear_arith);
            assert(step * 2 <= quotient * step) by (nonlinear_arith)
                requires
                    quotient >= 2,
                    step > 0,
            ;
            assert((quotient / 2) * (step * 2) <= quotient * step) by (nonlinear_arith)
                requires
                    step > 0,
            ;
        }
        quotient = quotient / 2;
        step = step * 2;
    }
    proof {
        assert(single_step(quotient as nat) == 1);
        lemma_mul_basics(step as int);
        lemma_fundamental_div_mod(x as int, step as int);
        lemma_mod_bound(x as int, step as int);
        lemma_mul_is_commutative(quotient as int, step as int);
    }
    let below: u128 = quotient * step;
    let rest: u128 = x - below;
    if 2 * rest > step || (2 * rest == step && quotient % 2 == 1) {
        assert(step <= quotient * step) by (nonlinear_arith)
            requires
                quotient >= 1,
                step > 0,
        ;
        below + step
    } else {
        below
    }
}

/// The value of a bit pattern on a scale that orders numbers as single
/// precision does.
pub open spec fn single_order(bits: u32) -> int {
    if bits >= 0x8000_0000 {
        0x8000_0000 - bits
    } else {
        bits as int
    }
}

/// Whether a bit pattern stands for no number.
pub open spec fn single_is_nan(bits: u32) -> bool {
    single_order(bits) > 0x7f80_0000 || single_order(bits) < -0x7f80_0000
}

/// `a > b` for two single-precision bit patterns: false as soon as one of them
/// stands for no number.
pub open spec fn single_exceeds(a: u32, b: u32) -> bool {
    !single_is_nan(a) && !single_is_nan(b) && single_order(a) > single_order(b)
}

fn order_of(bits: u32) -> (order: i64)
    ensures
        order == single_order(bits),
{
    if bits >= 0x8000_0000 {
        0x8000_0000i64 - bits as i64
    } else {
        bits as i64
    }
}

/// Compares two single-precision bit patterns.
pub fn exceeds(a: u32, b: u32) -> (result: bool)
    ensures
        result == single_exceeds(a, b),
{
    let x: i64 = order_of(a);
    let y: i64 = order_of(b);
    x <= 0x7f80_0000 && x >= -0x7f80_0000 && y <= 0x7f80_0000 && y >= -0x7f80_0000 && x > y
}

/// The bit pattern of one.
pub const ONE_BITS: u32 = 0x3f80_0000;

/// `bits` limited to the range from zero to one. A pattern that stands for no
/// number is kept.
pub open spec fn unit_range(bits: u32) -> u32 {
    if single_exceeds(bits, ONE_BITS) {
        ONE_BITS
    } else if single_exceeds(0, bits) {
        0
    } else {
        bits
    }
}

/// Limits a single-precision bit pattern to the range from zero to one.
pub fn clamp_to_unit(bits: u32) -> (clamped: u32)
    ensures
        clamped == unit_range(bits),
{
    if exceeds(bits, ONE_BITS) {
        ONE_BITS
    } else if exceeds(0, bits) {
        0
    } else {
        bits
    }
}

/// Rounding to single precision is the best that 24 significant bits can do: the result
/// is a multiple of a power of two, so that no more than 24 bits are left, and no other
/// such multiple is closer; of two equally close ones the even one is taken.
pub proof fn rounding_is_to_the_nearest(x: nat)
    requires
        x >= 0x100_0000,
    ensures
        ({
            let step = single_step(x);
            let rounded = nearest_single(x);
            &&& step > 0
            &&& 0x80_0000 <= x / step < 0x100_0000
            &&& rounded % step == 0
            &&& 2 * (rounded - x) <= step && 2 * (x - rounded) <= step
            &&& 2 * (rounded - x) == step || 2 * (x - rounded) == step ==> (rounded / step) % 2 == 0
        }),
{
    let step = single_step(x);
    lemma_step_bounds(x);
    let (q, rest) = (x / step, x % step);
    lemma_fundamental_div_mod(x as int, step as int);
    lemma_mod_bound(x as int, step as int);
    lemma_mul_is_commutative(q as int, step as int);
    assert(q * step + step == (q + 1) * step) by (nonlinear_arith);
    lemma_mod_multiples_basic(q as int, step as int);
    lemma_mod_multiples_basic(q as int + 1, step as int);
    lemma_div_multiples_vanish(q as int, step as int);
    lemma_div_multiples_vanish(q as int + 1, step as int);
    lemma_mul_is_commutative(q as int + 1, step as int);
}

proof fn lemma_step_bounds(x: nat)
    ensures
        single_step(x) > 0,
        x / single_step(x) < 0x100_0000,
        x >= 0x100_0000 ==> x / single_step(x) >= 0x80_0000,
    decreases x,
{
    if x >= 0x100_0000 {
        lemma_step_bounds(x / 2);
        let half = single_step(x / 2);
        lemma_div_denominator(x as int, 2, half as int);
        if x / 2 < 0x100_0000 {
            assert(half == 1);
        }
    }
}

/// Patterns of numbers without a sign are ordered as the numbers are; with a sign the
/// order is the opposite, and a negative number is below one that is not. Zero has two
/// patterns, which are equal. What is no number is above and below nothing.
pub proof fn patterns_are_ordered_as_numbers(a: u32, b: u32)
    ensures
        a <= 0x7f80_0000 && b <= 0x7f80_0000 ==> (single_exceeds(a, b) <==> a > b),
        0x8000_0000 <= a <= 0xff80_0000 && 0x8000_0000 <= b <= 0xff80_0000 ==> (single_exceeds(a, b)
            <==> a < b),
        a <= 0x7f80_0000 && 0x8000_0000 <= b <= 0xff80_0000 ==> (single_exceeds(a, b) <==> a > 0
            || b > 0x8000_0000),
        0x8000_0000 <= a <= 0xff80_0000 && b <= 0x7f80_0000 ==> !single_exceeds(a, b),
        0x7f80_0000 < a < 0x8000_0000 || a > 0xff80_0000 || 0x7f80_0000 < b < 0x8000_0000 || b
            > 0xff80_0000 ==> !single_exceeds(a, b),
{
}

/// A fraction that is limited to the range from zero to one lies there, and one that did
/// before is unchanged.
pub proof fn fractions_are_limited(bits: u32)
    ensures
        bits <= 0x3f80_0000 ==> unit_range(bits) == bits,
        0x3f80_0000 < bits <= 0x7f80_0000 ==> unit_range(bits) == 0x3f80_0000,
        0x8000_0000 < bits <= 0xff80_0000 ==> unit_range(bits) == 0,
        0x7f80_0000 < bits < 0x8000_0000 || bits > 0xff80_0000 ==> unit_range(bits) == bits,
{
}

} // verus!
