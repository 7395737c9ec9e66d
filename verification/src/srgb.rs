//! sRGB to linear color conversion in micro-units.
//!
//! The electro-optical transfer function is the standard piecewise curve: a
//! linear segment below the conventional threshold and the 2.4-power law
//! above it.  A channel value `c` in 0..=255 stands for `c / 255`; the result
//! is the linear intensity in micro-units (millionths, so 1_000_000 is full
//! intensity).  The power law `x^2.4 = x^2 * (x^2)^(1/5)` is evaluated with
//! an exact integer floor fifth root, which makes the whole function a
//! defined, provably monotone integer map with exact endpoints.

use vstd::prelude::*;

verus! {

/// Fifth power.
pub open spec fn pow5(x: int) -> int {
    x * x * x * x * x
}

/// Floor of the fifth root of `n`, defined recursively so that facts about
/// it can be proved by induction.
pub open spec fn root5_floor(n: int) -> int
    decreases n,
{
    if n < 1 {
        0
    } else if pow5(root5_floor(n - 1) + 1) <= n {
        root5_floor(n - 1) + 1
    } else {
        root5_floor(n - 1)
    }
}

/// Numerator of `(c/255 + 0.055) / 1.055` over the denominator 269_025.
pub open spec fn srgb_num(c: int) -> int {
    1000 * c + 14025
}

/// `x^2` in micro-units for `x = srgb_num(c) / 269_025`.
pub open spec fn srgb_square(c: int) -> int {
    (srgb_num(c) * srgb_num(c) * 1_000_000) / (269_025int * 269_025)
}

/// The linear intensity, in micro-units, of the sRGB channel value
/// `c / 255`: the linear segment for `c <= 10` (that is, `c/255 <= 0.04045`),
/// the 2.4-power law above, evaluated as `x^2 * (x^2)^(1/5)`.
pub open spec fn srgb_micro(c: int) -> int {
    if c <= 10 {
        (c * 10_000_000) / 32946
    } else {
        (srgb_square(c) * root5_floor(srgb_square(c) * 1_000_000_000_000_000_000_000_000)) / 1_000_000
    }
}

proof fn lemma_pow5_nonneg(a: int)
    requires
        0 <= a,
    ensures
        0 <= pow5(a),
{
    assert(0 <= a * a * a * a * a) by (nonlinear_arith)
        requires 0 <= a;
}

proof fn lemma_pow5_strict(a: int, b: int)
    requires
        0 <= a < b,
    ensures
        pow5(a) < pow5(b),
{
    assert(a * a * a * a * a < b * b * b * b * b) by (nonlinear_arith)
        requires 0 <= a < b;
}

proof fn lemma_pow5_le(a: int, b: int)
    requires
        0 <= a <= b,
    ensures
        pow5(a) <= pow5(b),
{
    if a < b {
        lemma_pow5_strict(a, b);
    }
}

/// The recursive floor root brackets its argument.
proof fn lemma_root5_props(n: int)
    requires
        0 <= n,
    ensures
        0 <= root5_floor(n),
        pow5(root5_floor(n)) <= n,
        n < pow5(root5_floor(n) + 1),
    decreases n,
{
    if n < 1 {
        assert(pow5(0) == 0);
        assert(pow5(1) == 1);
    } else {
        lemma_root5_props(n - 1);
        let p = root5_floor(n - 1);
        if pow5(p + 1) <= n {
            assert(root5_floor(n) == p + 1);
            assert(n - 1 < pow5(p + 1));
            assert(pow5(p + 2) > n) by {
                assert(n <= pow5(p + 1));
                lemma_pow5_strict(p + 1, p + 2);
            };
        } else {
            assert(root5_floor(n) == p);
        }
    }
}

/// Any value bracketed like the floor root is the floor root.
proof fn lemma_root5_unique(n: int, r: int)
    requires
        0 <= n,
        0 <= r,
        pow5(r) <= n,
        n < pow5(r + 1),
    ensures
        r == root5_floor(n),
{
    lemma_root5_props(n);
    let q = root5_floor(n);
    if r < q {
        lemma_pow5_le(r + 1, q);
        assert(pow5(q) <= n);
        assert(false);
    } else if q < r {
        lemma_pow5_le(q + 1, r);
        assert(pow5(r) <= n);
        assert(false);
    }
}

/// The floor fifth root is monotone.
proof fn lemma_root5_monotone(n1: int, n2: int)
    requires
        0 <= n1 <= n2,
    ensures
        root5_floor(n1) <= root5_floor(n2),
{
    lemma_root5_props(n1);
    lemma_root5_props(n2);
    let r1 = root5_floor(n1);
    let r2 = root5_floor(n2);
    if r2 < r1 {
        lemma_pow5_le(r2 + 1, r1);
        assert(pow5(r1) <= n1);
        assert(false);
    }
}

/// Exact floor fifth root by binary search.
fn iroot5(n: u128) -> (r: u64)
    requires
        n <= 1_000_000_000_000_000_000_000_000_000_000u128,
    ensures
        r as int == root5_floor(n as int),
        r <= 1_000_000,
{
    let mut lo: u64 = 0;
    let mut hi: u64 = 1_000_001;
    proof {
        assert(pow5(1_000_001) > 1_000_000_000_000_000_000_000_000_000_000int);
    }
    while lo + 1 < hi
        invariant
            lo < hi <= 1_000_001,
            pow5(lo as int) <= n as int,
            (n as int) < pow5(hi as int),
        decreases hi - lo,
    {
        let mid: u64 = lo + (hi - lo) / 2;
        proof {
            assert(mid <= 1_000_000);
            assert(pow5(mid as int) <= pow5(1_000_000int)) by {
                lemma_pow5_le(mid as int, 1_000_000);
            };
            assert(pow5(1_000_000int) == 1_000_000_000_000_000_000_000_000_000_000int);
            lemma_pow5_nonneg(mid as int);
        }
        let m = mid as u128;
        proof {
            assert(m * m <= 1_000_000_000_000u128 && m * m * m <= 1_000_000_000_000_000_000u128
                && m * m * m * m <= 1_000_000_000_000_000_000_000_000u128
                && m * m * m * m * m <= 1_000_000_000_000_000_000_000_000_000_000u128)
                by (nonlinear_arith)
                requires m <= 1_000_000u128;
        }
        let p: u128 = m * m * m * m * m;
        assert(p as int == pow5(mid as int));
        if p <= n {
            lo = mid;
        } else {
            hi = mid;
        }
    }
    proof {
        assert(hi == lo + 1);
        lemma_root5_unique(n as int, lo as int);
    }
    lo
}

/// sRGB channel value (0..=255, standing for `c/255`) to linear intensity in
/// micro-units, following `srgb_micro` exactly.
pub fn srgb8_to_linear(c: u8) -> (r: u32)
    ensures
        r as int == srgb_micro(c as int),
        r <= 1_000_000,
{
    if c <= 10 {
        (((c as u64) * 10_000_000) / 32946) as u32
    } else {
        let num: u64 = 1000 * (c as u64) + 14025;
        let den: u64 = 269_025;
        proof {
            assert(num <= 269_025);
            assert(num * num * 1_000_000 <= 72_374_450_625_000_000u64) by (nonlinear_arith)
                requires num <= 269_025u64;
        }
        let y: u64 = num * num * 1_000_000 / (den * den);
        proof {
            assert(y as int == srgb_square(c as int));
            assert(y <= 1_000_000) by {
                vstd::arithmetic::div_mod::lemma_div_is_ordered(
                    num as int * num as int * 1_000_000,
                    269_025int * 269_025 * 1_000_000,
                    269_025int * 269_025,
                );
            };
        }
        let n: u128 = (y as u128) * 1_000_000_000_000_000_000_000_000u128;
        let r5: u64 = iroot5(n);
        proof {
            assert(y * r5 <= 1_000_000_000_000u64) by (nonlinear_arith)
                requires y <= 1_000_000u64, r5 <= 1_000_000u64;
        }
        let lin: u64 = y * r5 / 1_000_000;
        proof {
            assert(lin as int == srgb_micro(c as int));
        }
        lin as u32
    }
}

/// The transfer function maps black to black and full intensity to full
/// intensity: `srgb_micro(0) == 0` and `srgb_micro(255)` is exactly one
/// whole unit.
pub proof fn lemma_srgb_endpoints()
    ensures
        srgb_micro(0) == 0,
        srgb_micro(255) == 1_000_000,
{
    assert(srgb_micro(0) == 0);
    assert(srgb_num(255) == 269_025);
    assert(srgb_square(255) == 1_000_000) by {
        assert((269_025int * 269_025 * 1_000_000) / (269_025int * 269_025) == 1_000_000);
    };
    let n = 1_000_000int * 1_000_000_000_000_000_000_000_000;
    assert(pow5(1_000_000int) == n);
    assert(n < pow5(1_000_001int)) by {
        lemma_pow5_strict(1_000_000, 1_000_001);
    };
    lemma_root5_unique(n, 1_000_000);
    assert(srgb_micro(255) == (1_000_000int * 1_000_000) / 1_000_000);
}

/// The transfer function is monotone: a channel value no darker than another
/// maps to a linear intensity no darker.
pub proof fn lemma_srgb_monotone(a: int, b: int)
    requires
        0 <= a <= b <= 255,
    ensures
        srgb_micro(a) <= srgb_micro(b),
{
    if b <= 10 {
        vstd::arithmetic::div_mod::lemma_div_is_ordered(
            a * 10_000_000,
            b * 10_000_000,
            32946,
        );
    } else if a > 10 {
        lemma_srgb_power_monotone(a, b);
    } else {
        vstd::arithmetic::div_mod::lemma_div_is_ordered(
            a * 10_000_000,
            10int * 10_000_000,
            32946,
        );
        assert(srgb_micro(10) == 3035);
        lemma_srgb_11();
        lemma_srgb_power_monotone(11, b);
    }
}

/// Within the power-law branch, the map is monotone.
proof fn lemma_srgb_power_monotone(a: int, b: int)
    requires
        10 < a <= b <= 255,
    ensures
        srgb_micro(a) <= srgb_micro(b),
{
    let scale24 = 1_000_000_000_000_000_000_000_000int;
    lemma_srgb_square_bounds(a);
    lemma_srgb_square_bounds(b);
    let ya = srgb_square(a);
    let yb = srgb_square(b);
    assert(ya <= yb) by {
        assert(srgb_num(a) * srgb_num(a) <= srgb_num(b) * srgb_num(b)) by (nonlinear_arith)
            requires 0 <= srgb_num(a) <= srgb_num(b);
        vstd::arithmetic::mul::lemma_mul_inequality(
            srgb_num(a) * srgb_num(a),
            srgb_num(b) * srgb_num(b),
            1_000_000,
        );
        vstd::arithmetic::div_mod::lemma_div_is_ordered(
            srgb_num(a) * srgb_num(a) * 1_000_000,
            srgb_num(b) * srgb_num(b) * 1_000_000,
            269_025int * 269_025,
        );
    };
    let ra = root5_floor(ya * scale24);
    let rb = root5_floor(yb * scale24);
    assert(ya * scale24 <= yb * scale24) by {
        vstd::arithmetic::mul::lemma_mul_inequality(ya, yb, scale24);
    };
    lemma_root5_monotone(ya * scale24, yb * scale24);
    lemma_root5_props(ya * scale24);
    assert(ya * ra <= yb * rb) by (nonlinear_arith)
        requires 0 <= ya <= yb, 0 <= ra <= rb;
    vstd::arithmetic::div_mod::lemma_div_is_ordered(ya * ra, yb * rb, 1_000_000);
}

/// `srgb_square` stays within [0, 1_000_000] on the power branch.
proof fn lemma_srgb_square_bounds(c: int)
    requires
        10 < c <= 255,
    ensures
        0 <= srgb_square(c) <= 1_000_000,
        0 <= srgb_square(c) * 1_000_000_000_000_000_000_000_000,
{
    assert(0 <= srgb_num(c) <= 269_025);
    assert(0 <= srgb_num(c) * srgb_num(c) * 1_000_000 <= 269_025int * 269_025 * 1_000_000)
        by (nonlinear_arith)
        requires 0 <= srgb_num(c) <= 269_025int;
    vstd::arithmetic::div_mod::lemma_div_is_ordered(
        srgb_num(c) * srgb_num(c) * 1_000_000,
        269_025int * 269_025 * 1_000_000,
        269_025int * 269_025,
    );
    vstd::arithmetic::div_mod::lemma_div_pos_is_pos(
        srgb_num(c) * srgb_num(c) * 1_000_000,
        269_025int * 269_025,
    );
    vstd::arithmetic::mul::lemma_mul_inequality(
        0,
        srgb_square(c),
        1_000_000_000_000_000_000_000_000,
    );
}

/// The concrete value at the first channel level of the power branch; ties
/// the two branches together for the monotonicity proof.
proof fn lemma_srgb_11()
    ensures
        srgb_micro(11) == 3346,
{
    assert(srgb_num(11) == 25025);
    assert(srgb_square(11) == 8652) by {
        assert((25025int * 25025 * 1_000_000) / (269_025int * 269_025) == 8652);
    };
    let n = 8652int * 1_000_000_000_000_000_000_000_000;
    assert(pow5(386_743int) <= n);
    assert(n < pow5(386_744int));
    lemma_root5_unique(n, 386_743);
    assert(srgb_micro(11) == (8652int * 386_743) / 1_000_000);
}

} // verus!
