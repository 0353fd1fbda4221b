//! Saturating fixed-point scalar arithmetic.
//!
//! A scalar is an `i64` holding `SCALE` times its mathematical value, so
//! `SCALE` itself stands for one. Multiplication and division round toward
//! zero, and every operation saturates at `FX_MAX` in magnitude, which keeps
//! the whole calculus total: no operation can overflow or panic.

use vstd::prelude::*;

verus! {

use vstd::arithmetic::div_mod::{
    lemma_div_is_ordered, lemma_div_pos_is_pos, lemma_div_nonincreasing,
    lemma_div_multiples_vanish, lemma_div_is_strictly_smaller, lemma_div_by_self,
};

/// One, in fixed-point units: a raw value `v` stands for `v / SCALE`.
pub const SCALE: i64 = 65536;

/// Saturation bound of the arithmetic: every operation clamps its result
/// into `[-FX_MAX, FX_MAX]`.
pub const FX_MAX: i64 = 0x4000_0000_0000;

/// Division rounding toward zero, defined for a positive divisor.
pub open spec fn tdiv(a: int, b: int) -> int {
    if a >= 0 {
        a / b
    } else {
        -((-a) / b)
    }
}

/// Clamp into the representable range `[-FX_MAX, FX_MAX]`.
pub open spec fn sat(a: int) -> int {
    if a > FX_MAX {
        FX_MAX as int
    } else if a < -(FX_MAX as int) {
        -(FX_MAX as int)
    } else {
        a
    }
}

/// Fixed-point addition.
pub open spec fn fadd(a: int, b: int) -> int {
    sat(a + b)
}

/// Fixed-point subtraction.
pub open spec fn fsub(a: int, b: int) -> int {
    sat(a - b)
}

/// Fixed-point negation.
pub open spec fn fneg(a: int) -> int {
    sat(-a)
}

/// Fixed-point multiplication: the product is rescaled by `SCALE`,
/// rounding toward zero.
pub open spec fn fmul(a: int, b: int) -> int {
    sat(tdiv(a * b, SCALE as int))
}

/// Fixed-point division. A divisor that is not positive yields zero, which
/// keeps the operation total; all callers divide by positive quantities.
pub open spec fn fdiv(a: int, b: int) -> int {
    if b <= 0 {
        0
    } else {
        sat(tdiv(a * (SCALE as int), b))
    }
}

/// `r` is the integer square root of `n`, rounded down.
pub open spec fn is_floor_sqrt(n: int, r: int) -> bool {
    &&& r >= 0
    &&& r * r <= n
    &&& n < (r + 1) * (r + 1)
}

/// The integer square root, rounded down, of a non-negative integer.
pub open spec fn floor_sqrt(n: int) -> int {
    choose|r: int| is_floor_sqrt(n, r)
}

/// Fixed-point square root: zero on non-positive input, else the rounded-down
/// square root of the value (`floor_sqrt(a * SCALE)` is the raw encoding of
/// the square root of the number that raw `a` encodes).
pub open spec fn fsqrt(a: int) -> int {
    if a <= 0 {
        0
    } else {
        floor_sqrt(a * (SCALE as int))
    }
}

/// A raw scalar on which negation is exact (no saturation).
pub open spec fn fx_bounded(a: int) -> bool {
    -(FX_MAX as int) <= a <= FX_MAX as int
}

pub proof fn lemma_sat_bounded(a: int)
    ensures
        fx_bounded(sat(a)),
        sat(-a) == -sat(a),
        a >= 0 ==> sat(a) >= 0,
        fx_bounded(a) ==> sat(a) == a,
{
}

/// Rounding toward zero is odd-symmetric and ordered.
pub proof fn lemma_tdiv_basics(a: int, b: int)
    requires
        b > 0,
    ensures
        tdiv(-a, b) == -tdiv(a, b),
        a >= 0 ==> 0 <= tdiv(a, b) <= a,
        a <= 0 ==> a <= tdiv(a, b) <= 0,
{
    if a >= 0 {
        lemma_div_pos_is_pos(a, b);
        lemma_div_nonincreasing(a, b);
    } else {
        lemma_div_pos_is_pos(-a, b);
        lemma_div_nonincreasing(-a, b);
    }
}

pub proof fn lemma_tdiv_monotone(a1: int, a2: int, b: int)
    requires
        a1 <= a2,
        b > 0,
    ensures
        tdiv(a1, b) <= tdiv(a2, b),
{
    if a1 >= 0 {
        lemma_div_is_ordered(a1, a2, b);
    } else if a2 < 0 {
        lemma_div_is_ordered(-a2, -a1, b);
    } else {
        lemma_tdiv_basics(a1, b);
        lemma_tdiv_basics(a2, b);
    }
}

/// Multiplying a bounded scalar by one is exact.
pub proof fn lemma_fmul_one(a: int)
    requires
        fx_bounded(a),
    ensures
        fmul(a, SCALE as int) == a,
        fmul(SCALE as int, a) == a,
{
    let s = SCALE as int;
    if a >= 0 {
        lemma_div_multiples_vanish(a, s);
        assert(tdiv(a * s, s) == a);
        assert(a * s == s * a) by (nonlinear_arith);
    } else {
        lemma_div_multiples_vanish(-a, s);
        assert((-a) * s == -(a * s)) by (nonlinear_arith);
        assert(tdiv(a * s, s) == a);
        assert(a * s == s * a) by (nonlinear_arith);
    }
}

/// Multiplication by zero is zero.
pub proof fn lemma_fmul_zero(a: int)
    ensures
        fmul(a, 0) == 0,
        fmul(0, a) == 0,
{
    assert(a * 0 == 0) by (nonlinear_arith);
    assert(0 * a == 0) by (nonlinear_arith);
    assert(tdiv(0, SCALE as int) == 0) by {
        lemma_tdiv_basics(0, SCALE as int);
    }
}

/// Negating either factor negates a product.
pub proof fn lemma_fmul_neg(a: int, b: int)
    ensures
        fmul(a, -b) == -fmul(a, b),
        fmul(-a, b) == -fmul(a, b),
{
    let s = SCALE as int;
    assert(a * (-b) == -(a * b)) by (nonlinear_arith);
    assert((-a) * b == -(a * b)) by (nonlinear_arith);
    lemma_tdiv_basics(a * b, s);
    lemma_sat_bounded(tdiv(a * b, s));
}

/// A square is never negative.
pub proof fn lemma_fmul_square_nonneg(a: int)
    ensures
        fmul(a, a) >= 0,
        fmul(-a, -a) == fmul(a, a),
{
    let s = SCALE as int;
    assert(a * a >= 0) by (nonlinear_arith);
    assert((-a) * (-a) == a * a) by (nonlinear_arith);
    lemma_tdiv_basics(a * a, s);
}

pub proof fn lemma_floor_sqrt_exists(n: int)
    requires
        n >= 0,
    ensures
        is_floor_sqrt(n, floor_sqrt(n)),
    decreases n,
{
    if n == 0 {
        assert(is_floor_sqrt(0, 0));
    } else {
        lemma_floor_sqrt_exists(n - 1);
        let r = floor_sqrt(n - 1);
        if n < (r + 1) * (r + 1) {
            assert(is_floor_sqrt(n, r));
        } else {
            assert(n == (r + 1) * (r + 1));
            assert((r + 1) * (r + 1) < (r + 2) * (r + 2)) by (nonlinear_arith)
                requires r >= 0;
            assert(is_floor_sqrt(n, r + 1));
        }
    }
    assert(exists|x: int| is_floor_sqrt(n, x));
}

pub proof fn lemma_floor_sqrt_unique(n: int, r: int)
    requires
        is_floor_sqrt(n, r),
    ensures
        r == floor_sqrt(n),
{
    assert(exists|x: int| is_floor_sqrt(n, x));
    let s = floor_sqrt(n);
    assert(is_floor_sqrt(n, s));
    if r < s {
        assert((r + 1) * (r + 1) <= s * s) by (nonlinear_arith)
            requires 0 <= r, r < s;
        assert(false);
    }
    if s < r {
        assert((s + 1) * (s + 1) <= r * r) by (nonlinear_arith)
            requires 0 <= s, s < r;
        assert(false);
    }
}

/// Every saturating operation lands in the representable range.
pub proof fn lemma_f_ops_bounded(a: int, b: int)
    ensures
        fx_bounded(fadd(a, b)),
        fx_bounded(fsub(a, b)),
        fx_bounded(fneg(a)),
        fx_bounded(fmul(a, b)),
{
    lemma_sat_bounded(a + b);
    lemma_sat_bounded(a - b);
    lemma_sat_bounded(-a);
    lemma_sat_bounded(tdiv(a * b, SCALE as int));
}

/// The result of a fixed-point division is always representable.
pub proof fn lemma_fdiv_bounded(a: int, b: int)
    ensures
        fx_bounded(fdiv(a, b)),
{
    if b > 0 {
        lemma_sat_bounded(tdiv(a * (SCALE as int), b));
    }
}

/// What the fixed-point square root satisfies: it is non-negative, and on a
/// positive argument it is the rounded-down square root of the rescaled value.
pub proof fn lemma_fsqrt_props(a: int)
    ensures
        fsqrt(a) >= 0,
        a > 0 ==> is_floor_sqrt(a * (SCALE as int), fsqrt(a)),
{
    if a > 0 {
        assert(a * (SCALE as int) > 0) by (nonlinear_arith)
            requires a > 0, SCALE as int == 65536;
        lemma_floor_sqrt_exists(a * (SCALE as int));
    }
}

/// Division rounded toward zero, on `i128` operands with a positive divisor.
pub(crate) fn tdiv_i128(a: i128, b: i128) -> (r: i128)
    requires
        b > 0,
        a > i128::MIN,
    ensures
        r == tdiv(a as int, b as int),
{
    if a >= 0 {
        let q: u128 = (a as u128) / (b as u128);
        proof {
            lemma_div_nonincreasing(a as int, b as int);
            lemma_div_pos_is_pos(a as int, b as int);
        }
        q as i128
    } else {
        let m: u128 = (-a) as u128;
        let q: u128 = m / (b as u128);
        proof {
            lemma_div_nonincreasing(m as int, b as int);
            lemma_div_pos_is_pos(m as int, b as int);
        }
        -(q as i128)
    }
}

/// Clamp an `i128` into the representable scalar range.
fn sat_i128(a: i128) -> (r: i64)
    ensures
        r == sat(a as int),
{
    if a > FX_MAX as i128 {
        FX_MAX
    } else if a < -(FX_MAX as i128) {
        -FX_MAX
    } else {
        a as i64
    }
}

/// Saturating fixed-point addition.
pub fn add_fx(a: i64, b: i64) -> (r: i64)
    ensures
        r == fadd(a as int, b as int),
{
    sat_i128(a as i128 + b as i128)
}

/// Saturating fixed-point subtraction.
pub fn sub_fx(a: i64, b: i64) -> (r: i64)
    ensures
        r == fsub(a as int, b as int),
{
    sat_i128(a as i128 - b as i128)
}

/// Saturating fixed-point negation.
pub fn neg_fx(a: i64) -> (r: i64)
    ensures
        r == fneg(a as int),
{
    sat_i128(-(a as i128))
}

/// Saturating fixed-point multiplication.
pub fn mul_fx(a: i64, b: i64) -> (r: i64)
    ensures
        r == fmul(a as int, b as int),
{
    proof {
        let lim = 0x8000_0000_0000_0000int;
        assert(-(lim * lim) < (a as int) * (b as int) <= lim * lim) by (nonlinear_arith)
            requires -lim <= (a as int) < lim, -lim <= (b as int) < lim;
    }
    let p: i128 = (a as i128) * (b as i128);
    let q: i128 = tdiv_i128(p, SCALE as i128);
    proof {
        lemma_tdiv_basics(p as int, SCALE as int);
    }
    sat_i128(q)
}

/// Saturating fixed-point division; zero when the divisor is not positive.
pub fn div_fx(a: i64, b: i64) -> (r: i64)
    ensures
        r == fdiv(a as int, b as int),
{
    if b <= 0 {
        0
    } else {
        proof {
            let lim = 0x8000_0000_0000_0000int;
            assert(-(lim * 65536) <= (a as int) * (SCALE as int) <= lim * 65536)
                by (nonlinear_arith)
                requires -lim <= (a as int) < lim, SCALE as int == 65536;
        }
        let p: i128 = (a as i128) * (SCALE as i128);
        let q: i128 = tdiv_i128(p, b as i128);
        proof {
            lemma_tdiv_basics(p as int, b as int);
        }
        sat_i128(q)
    }
}

/// Integer square root, rounded down, by bisection.
fn isqrt_u128(n: u128) -> (r: u128)
    requires
        n < 0x4000_0000_0000_0000_0000_0000_0000_0000u128,
    ensures
        is_floor_sqrt(n as int, r as int),
{
    let mut lo: u128 = 0;
    let mut hi: u128 = 0x8000_0000_0000_0000u128;
    assert(0x8000_0000_0000_0000int * 0x8000_0000_0000_0000int
        == 0x4000_0000_0000_0000_0000_0000_0000_0000int);
    while hi - lo > 1
        invariant
            lo < hi,
            hi <= 0x8000_0000_0000_0000u128,
            (lo as int) * (lo as int) <= n as int,
            (n as int) < (hi as int) * (hi as int),
        decreases hi - lo,
    {
        proof {
            let gap = (hi - lo) as int;
            lemma_div_is_strictly_smaller(gap, 2);
            lemma_div_by_self(2);
            lemma_div_is_ordered(2, gap, 2);
        }
        let mid: u128 = lo + (hi - lo) / 2;
        proof {
            assert((mid as int) * (mid as int)
                <= 0x8000_0000_0000_0000int * 0x8000_0000_0000_0000int)
                by (nonlinear_arith)
                requires 0 <= (mid as int) <= 0x8000_0000_0000_0000int;
        }
        if mid * mid <= n {
            lo = mid;
        } else {
            hi = mid;
        }
    }
    lo
}

/// Fixed-point square root of a saturating scalar.
pub fn sqrt_fx(a: i64) -> (r: i64)
    ensures
        r == fsqrt(a as int),
{
    if a <= 0 {
        0
    } else {
        proof {
            assert((a as int) * (SCALE as int) < 0x4000_0000_0000_0000_0000_0000_0000_0000int)
                by (nonlinear_arith)
                requires 0 < (a as int) < 0x8000_0000_0000_0000int, SCALE as int == 65536;
        }
        let n: u128 = (a as u128) * (SCALE as u128);
        let r: u128 = isqrt_u128(n);
        proof {
            lemma_floor_sqrt_unique(n as int, r as int);
            assert((r as int) * (r as int) <= n as int);
            assert((r as int) < 0x8000_0000_0000_0000int) by (nonlinear_arith)
                requires
                    0 <= r as int,
                    (r as int) * (r as int) <= n as int,
                    (n as int) < 0x4000_0000_0000_0000_0000_0000_0000_0000int,
                    (n as int) < 0x8000_0000_0000_0000int * 0x8000_0000_0000_0000int;
        }
        r as i64
    }
}

} // verus!
