//! Fixed-point micro-unit arithmetic.
//!
//! Every scalar in this crate (brightness, scaling factors, angles, color
//! channels) is an integer count of millionths of a whole unit.  The helpers
//! here perform the products and quotients the conversion routines need, with
//! exact contracts over mathematical integers.

use vstd::prelude::*;

verus! {

/// One whole unit expressed in micro-units.
pub const MICRO: u64 = 1_000_000;

/// Largest scalar magnitude (in micro-units, i.e. one million whole units)
/// that the conversion arithmetic accepts; keeps every intermediate product
/// inside 128 bits and every result inside 64 bits.
pub const MAX_MICRO: u64 = 1_000_000_000_000;

/// Largest brightness or HDR-scale value accepted, in micro-units
/// (ten thousand whole units): brightnesses are multiplied twice, so their
/// bound is tighter than `MAX_MICRO`.
pub const MAX_BRIGHT: u64 = 10_000_000_000;

/// Largest brightness multiplier accepted, in micro-units (one thousand
/// whole units).
pub const MAX_FACTOR: u64 = 1_000_000_000;

/// Pi scaled by 10^9; used to convert micro-degrees to micro-radians.
pub const PI_NANO: u64 = 3_141_592_653;

/// Nano-degrees per half turn.
pub const HALF_TURN_NANO: u64 = 180_000_000_000;

/// Product of two micro-unit scalars, itself in micro-units
/// (the exact rational value rounded toward zero).
pub open spec fn mul_micro_spec(a: int, b: int) -> int {
    (a * b) / (MICRO as int)
}

/// Micro-radians corresponding to `d` micro-degrees, magnitude rounded down.
pub open spec fn deg_to_rad_spec(d: int) -> int {
    if d >= 0 {
        (d * (PI_NANO as int)) / (HALF_TURN_NANO as int)
    } else {
        -((-d * (PI_NANO as int)) / (HALF_TURN_NANO as int))
    }
}

/// Signed coordinate `p` scaled by the non-negative micro-unit factor `s`,
/// magnitude rounded down.
pub open spec fn scale_micro_spec(p: int, s: int) -> int {
    if p >= 0 {
        (p * s) / (MICRO as int)
    } else {
        -((-p * s) / (MICRO as int))
    }
}

/// An 8-bit channel value normalized from 0..=255 to micro-units in
/// [0, 1_000_000], rounded down.
pub open spec fn alpha_micro_spec(a: int) -> int {
    (a * (MICRO as int)) / 255
}

pub fn mul_micro(a: u64, b: u64) -> (r: u64)
    requires
        a as int * b as int <= 1_000_000_000_000_000_000_000_000,
    ensures
        r == mul_micro_spec(a as int, b as int),
        r <= 1_000_000_000_000_000_000u64,
{
    proof {
        assert(0 <= a as int * b as int) by (nonlinear_arith);
        vstd::arithmetic::div_mod::lemma_div_is_ordered(
            a as int * b as int,
            1_000_000_000_000_000_000_000_000,
            MICRO as int,
        );
    }
    let wide: u128 = (a as u128) * (b as u128) / (MICRO as u128);
    wide as u64
}

pub fn deg_to_rad_micro(d: i64) -> (r: i64)
    requires
        -(MAX_MICRO as i64) <= d <= MAX_MICRO as i64,
    ensures
        r == deg_to_rad_spec(d as int),
        -20_000_000_000 <= r <= 20_000_000_000,
        d >= 0 ==> r >= 0,
{
    if d >= 0 {
        proof {
            lemma_bounded_product(d as int, PI_NANO as int, MAX_MICRO as int, PI_NANO as int);
            vstd::arithmetic::div_mod::lemma_div_is_ordered(
                d as int * PI_NANO as int,
                MAX_MICRO as int * PI_NANO as int,
                HALF_TURN_NANO as int,
            );
            vstd::arithmetic::div_mod::lemma_div_pos_is_pos(
                d as int * PI_NANO as int,
                HALF_TURN_NANO as int,
            );
        }
        let mag: u128 = (d as u128) * (PI_NANO as u128) / (HALF_TURN_NANO as u128);
        mag as i64
    } else {
        let neg: u64 = (-d) as u64;
        proof {
            lemma_bounded_product(neg as int, PI_NANO as int, MAX_MICRO as int, PI_NANO as int);
            vstd::arithmetic::div_mod::lemma_div_is_ordered(
                neg as int * PI_NANO as int,
                MAX_MICRO as int * PI_NANO as int,
                HALF_TURN_NANO as int,
            );
            vstd::arithmetic::div_mod::lemma_div_pos_is_pos(
                neg as int * PI_NANO as int,
                HALF_TURN_NANO as int,
            );
        }
        let mag: u128 = (neg as u128) * (PI_NANO as u128) / (HALF_TURN_NANO as u128);
        -(mag as i64)
    }
}

pub fn scale_micro(p: i64, s: u64) -> (r: i64)
    requires
        -(MAX_MICRO as i64) <= p <= MAX_MICRO as i64,
        s <= MAX_MICRO,
    ensures
        r == scale_micro_spec(p as int, s as int),
{
    if p >= 0 {
        proof {
            lemma_bounded_product(p as int, s as int, MAX_MICRO as int, MAX_MICRO as int);
            vstd::arithmetic::div_mod::lemma_div_is_ordered(
                p as int * s as int,
                MAX_MICRO as int * MAX_MICRO as int,
                MICRO as int,
            );
        }
        let wide: u128 = (p as u128) * (s as u128) / (MICRO as u128);
        wide as i64
    } else {
        let neg: u64 = (-p) as u64;
        proof {
            lemma_bounded_product(neg as int, s as int, MAX_MICRO as int, MAX_MICRO as int);
            vstd::arithmetic::div_mod::lemma_div_is_ordered(
                neg as int * s as int,
                MAX_MICRO as int * MAX_MICRO as int,
                MICRO as int,
            );
        }
        let wide: u128 = (neg as u128) * (s as u128) / (MICRO as u128);
        -(wide as i64)
    }
}

pub fn alpha_micro(a: u8) -> (r: u32)
    requires
        true,
    ensures
        r == alpha_micro_spec(a as int),
        r <= MICRO,
{
    (((a as u64) * MICRO) / 255) as u32
}

/// 0 <= a <= ba and 0 <= b <= bb bound the product by ba * bb.
pub proof fn lemma_bounded_product(a: int, b: int, ba: int, bb: int)
    requires
        0 <= a <= ba,
        0 <= b <= bb,
    ensures
        0 <= a * b <= ba * bb,
{
    vstd::arithmetic::mul::lemma_mul_inequality(a, ba, b);
    vstd::arithmetic::mul::lemma_mul_inequality(b, bb, ba);
    assert(a * b == b * a) by (nonlinear_arith);
    assert(ba * b == b * ba) by (nonlinear_arith);
    assert(0 <= a * b) by (nonlinear_arith)
        requires 0 <= a, 0 <= b;
}

} // verus!
