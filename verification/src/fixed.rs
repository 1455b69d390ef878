//! Saturating fixed-point arithmetic with a resolution of one millionth.
//!
//! Every quantity of the library is an `i64` counting micro-units.  The
//! operations here round toward minus infinity and clamp their results into
//! `[-LIM, LIM]`, so they are total: no input can overflow them.  Each
//! executable operation is pinned to a spec-level mirror over `int`.

use vstd::prelude::*;

verus! {

use vstd::arithmetic::div_mod::{lemma_fundamental_div_mod, lemma_fundamental_div_mod_converse,
    lemma_mod_division_less_than_divisor};

/// Number of micro-units in one physical unit.
pub const SCALE: i64 = 1_000_000;

/// Saturation bound of every fixed-point result (2^62 micro-units).
pub const LIM: i64 = 0x4000_0000_0000_0000;

/// Clamp an unbounded integer into the representable band.
pub open spec fn sat_i(x: int) -> int {
    if x > LIM as int {
        LIM as int
    } else if x < -(LIM as int) {
        -(LIM as int)
    } else {
        x
    }
}

/// Floor product scaled back down: the model of `fx_mul`.
pub open spec fn fx_mul_s(a: int, b: int) -> int {
    sat_i((a * b) / (SCALE as int))
}

/// Floor quotient scaled up: the model of `fx_div`.
pub open spec fn fx_div_s(a: int, b: int) -> int
    recommends
        b >= 1,
{
    sat_i((a * (SCALE as int)) / b)
}

/// `r` is the floor of the square root of `n`.
pub open spec fn is_sqrt_floor(n: int, r: int) -> bool {
    0 <= r && r * r <= n && n < (r + 1) * (r + 1)
}

/// The floor of the square root, as a spec-level name.
pub open spec fn sqrt_floor(n: int) -> int {
    choose|r: int| is_sqrt_floor(n, r)
}

/// The model of `fx_sqrt`: square root in the fixed-point representation.
pub open spec fn fx_sqrt_s(x: int) -> int
    recommends
        x >= 0,
{
    sqrt_floor(x * (SCALE as int))
}

/// A floor square root exists for every non-negative integer.
pub proof fn lemma_sqrt_exists(n: int)
    requires
        n >= 0,
    ensures
        exists|r: int| is_sqrt_floor(n, r),
    decreases n,
{
    if n == 0 {
        assert(is_sqrt_floor(0, 0));
    } else {
        lemma_sqrt_exists(n - 1);
        let r = sqrt_floor(n - 1);
        assert(is_sqrt_floor(n - 1, r));
        if n < (r + 1) * (r + 1) {
            assert(is_sqrt_floor(n, r));
        } else {
            assert(n == (r + 1) * (r + 1));
            assert(is_sqrt_floor(n, r + 1)) by (nonlinear_arith)
                requires
                    0 <= r,
                    n == (r + 1) * (r + 1);
        }
    }
}

/// The floor square root is unique, so `sqrt_floor` names exactly it.
pub proof fn lemma_sqrt_floor_unique(n: int, r: int)
    requires
        is_sqrt_floor(n, r),
    ensures
        sqrt_floor(n) == r,
{
    assert(is_sqrt_floor(n, sqrt_floor(n)));
    let r2 = sqrt_floor(n);
    assert(r2 == r) by (nonlinear_arith)
        requires
            0 <= r,
            r * r <= n,
            n < (r + 1) * (r + 1),
            0 <= r2,
            r2 * r2 <= n,
            n < (r2 + 1) * (r2 + 1);
}

/// Clamp an `i128` into the band and narrow it.
pub fn sat128(x: i128) -> (r: i64)
    ensures
        r as int == sat_i(x as int),
{
    if x > LIM as i128 {
        LIM
    } else if x < -(LIM as i128) {
        -LIM
    } else {
        x as i64
    }
}

/// Saturating sum.
pub fn sat_add(a: i64, b: i64) -> (r: i64)
    ensures
        r as int == sat_i(a + b),
{
    sat128(a as i128 + b as i128)
}

/// Saturating difference.
pub fn sat_sub(a: i64, b: i64) -> (r: i64)
    ensures
        r as int == sat_i(a - b),
{
    sat128(a as i128 - b as i128)
}

/// Saturating product with a small plain integer.
pub fn sat_scale(a: i64, k: i64) -> (r: i64)
    requires
        0 <= k <= 8,
    ensures
        r as int == sat_i(a * k),
{
    proof {
        assert(-0x8_0000_0000_0000_0000 <= (a as int) * (k as int)
            && (a as int) * (k as int) <= 0x8_0000_0000_0000_0000) by (nonlinear_arith)
            requires
                -0x8000_0000_0000_0000 <= a as int,
                a as int <= 0x7fff_ffff_ffff_ffff,
                0 <= k as int,
                k as int <= 8;
    }
    sat128(a as i128 * k as i128)
}

/// Clamp a raw input value into the band.
pub fn clamp64(x: i64) -> (r: i64)
    ensures
        r as int == sat_i(x as int),
{
    sat128(x as i128)
}

/// Saturating negation.
pub fn sat_neg(x: i64) -> (r: i64)
    ensures
        r as int == sat_i(-(x as int)),
{
    sat128(-(x as i128))
}

/// Multiplying a floor quotient keeps it below the scaled quotient.
pub proof fn lemma_mul_div_le(x: int, t: int, d: int)
    requires
        d >= 1,
        t >= 0,
    ensures
        (x / d) * t <= (x * t) / d,
{
    lemma_fundamental_div_mod(x, d);
    lemma_mod_division_less_than_divisor(x, d);
    let q = x / d;
    assert(d * q <= x);
    vstd::arithmetic::mul::lemma_mul_inequality(d * q, x, t);
    assert((d * q) * t <= x * t);
    assert((d * q) * t == d * (q * t)) by (nonlinear_arith);
    vstd::arithmetic::div_mod::lemma_div_is_ordered(d * (q * t), x * t, d);
    vstd::arithmetic::div_mod::lemma_div_multiples_vanish(q * t, d);
    assert((d * (q * t)) / d == q * t);
}

/// A floor quotient multiplied back never exceeds the dividend.
pub proof fn lemma_div_mul_le(x: int, d: int)
    requires
        d >= 1,
    ensures
        d * (x / d) <= x,
{
    lemma_fundamental_div_mod(x, d);
    lemma_mod_division_less_than_divisor(x, d);
}

/// The quotient together with the remainder brackets the dividend.
pub proof fn lemma_div_bracket(a: int, b: int, q: int)
    requires
        b >= 1,
        q == a / b,
    ensures
        b * q <= a,
        a < b * q + b,
{
    lemma_fundamental_div_mod(a, b);
    lemma_mod_division_less_than_divisor(a, b);
    assert(b * q <= a && a < b * q + b) by (nonlinear_arith)
        requires
            a == b * (a / b) + a % b,
            0 <= a % b,
            a % b < b,
            q == a / b;
}

/// Quotient rounded toward minus infinity, with the bracketing facts callers
/// need to bound it.
pub fn floor_div_i128(a: i128, b: i128) -> (q: i128)
    requires
        b >= 1,
        -0x4000_0000_0000_0000_0000_0000_0000_0000 <= a,
        a <= 0x4000_0000_0000_0000_0000_0000_0000_0000,
    ensures
        q == (a as int) / (b as int),
        (b as int) * q <= a as int,
        (a as int) < (b as int) * q + b as int,
{
    if a >= 0 {
        let q0 = (a as u128) / (b as u128);
        proof {
            lemma_fundamental_div_mod(a as int, b as int);
            lemma_mod_division_less_than_divisor(a as int, b as int);
            lemma_div_bracket(a as int, b as int, q0 as int);
            assert(q0 as int <= a as int) by (nonlinear_arith)
                requires
                    (b as int) * (q0 as int) <= a as int,
                    q0 as int >= 0,
                    b as int >= 1;
        }
        q0 as i128
    } else {
        let m = (-a) as u128;
        let d = b as u128;
        let q0 = m / d;
        let r = m % d;
        proof {
            lemma_fundamental_div_mod(m as int, d as int);
            lemma_mod_division_less_than_divisor(m as int, d as int);
            assert(m as int == (m as int / d as int) * d as int + (m as int % d as int));
            assert(q0 as int <= m as int) by (nonlinear_arith)
                requires
                    (d as int) * (q0 as int) <= m as int,
                    q0 as int >= 0,
                    d as int >= 1;
        }
        if r == 0 {
            let q = -(q0 as i128);
            proof {
                assert(a as int == (-(q0 as int)) * (b as int) + 0) by (nonlinear_arith)
                    requires
                        m as int == (q0 as int) * (d as int),
                        a as int == -(m as int),
                        d == b;
                lemma_fundamental_div_mod_converse(a as int, b as int, -(q0 as int), 0);
                lemma_div_bracket(a as int, b as int, -(q0 as int));
            }
            q
        } else {
            let q = -(q0 as i128) - 1;
            proof {
                assert(a as int == (-(q0 as int) - 1) * (b as int) + (b as int - r as int))
                    by (nonlinear_arith)
                    requires
                        m as int == (q0 as int) * (d as int) + (r as int),
                        a as int == -(m as int),
                        d == b;
                lemma_fundamental_div_mod_converse(
                    a as int,
                    b as int,
                    -(q0 as int) - 1,
                    b as int - r as int,
                );
                lemma_div_bracket(a as int, b as int, -(q0 as int) - 1);
            }
            q
        }
    }
}

/// Fixed-point product.
pub fn fx_mul(a: i64, b: i64) -> (r: i64)
    ensures
        r as int == fx_mul_s(a as int, b as int),
{
    proof {
        assert(-0x4000_0000_0000_0000_0000_0000_0000_0000 <= (a as int) * (b as int)
            && (a as int) * (b as int) <= 0x4000_0000_0000_0000_0000_0000_0000_0000)
            by (nonlinear_arith)
            requires
                -0x8000_0000_0000_0000 <= a as int,
                a as int <= 0x7fff_ffff_ffff_ffff,
                -0x8000_0000_0000_0000 <= b as int,
                b as int <= 0x7fff_ffff_ffff_ffff;
    }
    let p = (a as i128) * (b as i128);
    let q = floor_div_i128(p, SCALE as i128);
    sat128(q)
}

/// Fixed-point quotient; the divisor must be strictly positive.
pub fn fx_div(a: i64, b: i64) -> (r: i64)
    requires
        b >= 1,
    ensures
        r as int == fx_div_s(a as int, b as int),
{
    proof {
        assert(-0x4000_0000_0000_0000_0000_0000_0000_0000 <= (a as int) * (SCALE as int)
            && (a as int) * (SCALE as int) <= 0x4000_0000_0000_0000_0000_0000_0000_0000)
            by (nonlinear_arith)
            requires
                -0x8000_0000_0000_0000 <= a as int,
                a as int <= 0x7fff_ffff_ffff_ffff,
                SCALE as int == 1_000_000;
    }
    let p = (a as i128) * (SCALE as i128);
    let q = floor_div_i128(p, b as i128);
    sat128(q)
}

/// Half of a value, rounded toward minus infinity.
pub fn half(x: i64) -> (r: i64)
    ensures
        r as int == (x as int) / 2,
{
    let q = floor_div_i128(x as i128, 2);
    q as i64
}

/// A sixth of a value, rounded toward minus infinity.
pub fn sixth(x: i64) -> (r: i64)
    ensures
        r as int == (x as int) / 6,
{
    let q = floor_div_i128(x as i128, 6);
    q as i64
}

/// Floor square root of an unsigned 128-bit value, by bisection.
pub fn isqrt_u128(n: u128) -> (r: u128)
    ensures
        is_sqrt_floor(n as int, r as int),
{
    let mut lo: u128 = 0;
    let mut hi: u128 = 0x1_0000_0000_0000_0000;
    proof {
        assert((hi as int) * (hi as int) > n as int) by (nonlinear_arith)
            requires
                hi as int == 0x1_0000_0000_0000_0000,
                n as int <= 0xffff_ffff_ffff_ffff_ffff_ffff_ffff_ffff;
    }
    while lo + 1 < hi
        invariant
            lo < hi,
            hi <= 0x1_0000_0000_0000_0000,
            (lo as int) * (lo as int) <= n as int,
            (n as int) < (hi as int) * (hi as int),
        decreases hi - lo,
    {
        let mid = lo + (hi - lo) / 2;
        proof {
            assert(mid as int * mid as int <= 0xffff_ffff_ffff_ffff_ffff_ffff_ffff_ffff)
                by (nonlinear_arith)
                requires
                    0 <= mid as int,
                    mid as int <= 0xffff_ffff_ffff_ffff;
        }
        let sq = mid * mid;
        if sq <= n {
            lo = mid;
        } else {
            hi = mid;
        }
    }
    proof {
        assert(hi as int == lo as int + 1);
    }
    lo
}

/// Fixed-point square root of a non-negative value.
pub fn fx_sqrt(x: i64) -> (r: i64)
    requires
        x >= 0,
    ensures
        r as int == fx_sqrt_s(x as int),
        r >= 0,
{
    proof {
        assert((x as int) * (SCALE as int) <= 9223372036854775807000000) by (nonlinear_arith)
            requires
                0 <= x as int,
                x as int <= 0x7fff_ffff_ffff_ffff,
                SCALE as int == 1_000_000;
    }
    let n = (x as u128) * (SCALE as u128);
    let r = isqrt_u128(n);
    proof {
        lemma_sqrt_floor_unique(n as int, r as int);
        assert(r as int * r as int <= n as int);
        assert(r as int <= 0x7fff_ffff_ffff_ffff) by (nonlinear_arith)
            requires
                r as int * r as int <= n as int,
                n as int <= 9223372036854775807000000,
                r as int >= 0;
    }
    r as i64
}

} // verus!
