//! Fixed-point scalar arithmetic.
//!
//! All physical quantities in this crate are signed 64-bit fixed-point
//! values with [`SCALE`] units per 1.0.  Every operation truncates toward
//! zero where it divides and saturates at the symmetric range bound
//! [`FX_MAX`], so no operation panics and negation is always exact.

use vstd::arithmetic::div_mod::{lemma_basic_div, lemma_div_is_ordered, lemma_div_is_ordered_by_denominator};
use vstd::arithmetic::mul::{lemma_mul_inequality, lemma_mul_upper_bound};
use vstd::prelude::*;

verus! {

/// Number of fixed-point units in 1.0.
pub const SCALE: i64 = 1_000_000;

/// Largest magnitude a fixed-point value may take.  The range is kept
/// symmetric, so the negation of a saturated value is again in range.
pub const FX_MAX: i64 = 0x7fff_ffff_ffff_ffff;

/// The magnitude of a mathematical integer.
pub open spec fn abs_int(x: int) -> int {
    if x < 0 {
        -x
    } else {
        x
    }
}

/// Saturate a mathematical integer into the symmetric fixed-point range.
pub open spec fn clamp_fx(x: int) -> i64 {
    if x > FX_MAX {
        FX_MAX
    } else if x < -(FX_MAX as int) {
        (-(FX_MAX as int)) as i64
    } else {
        x as i64
    }
}

/// Division truncating toward zero, as the hardware division does.
pub open spec fn tdiv(x: int, y: int) -> int
    recommends
        y != 0,
{
    if (x < 0) != (y < 0) {
        -(abs_int(x) / abs_int(y))
    } else {
        abs_int(x) / abs_int(y)
    }
}

/// Saturating fixed-point addition.
pub open spec fn add_fx(a: i64, b: i64) -> i64 {
    clamp_fx(a + b)
}

/// Saturating fixed-point subtraction.
pub open spec fn sub_fx(a: i64, b: i64) -> i64 {
    clamp_fx(a - b)
}

/// Saturating fixed-point multiplication, truncating toward zero.
pub open spec fn mul_fx(a: i64, b: i64) -> i64 {
    clamp_fx(tdiv(a * b, SCALE as int))
}

/// Saturating fixed-point division, truncating toward zero.
/// Division by zero is defined as zero.
pub open spec fn div_fx(a: i64, b: i64) -> i64 {
    if b == 0 {
        0
    } else {
        clamp_fx(tdiv(a * SCALE, b as int))
    }
}

/// Integer square root, rounded down; zero on negative input.
pub open spec fn isqrt(n: int) -> int
    decreases n,
{
    if n <= 0 {
        0
    } else {
        let r = isqrt(n - 1);
        if (r + 1) * (r + 1) <= n {
            r + 1
        } else {
            r
        }
    }
}

/// Fixed-point square root, rounded down; zero on negative input.
pub open spec fn sqrt_fx(a: i64) -> i64 {
    if a <= 0 {
        0
    } else {
        clamp_fx(isqrt(a * SCALE))
    }
}

/// The magnitudes and signs of a product in terms of its factors.
proof fn lemma_abs_mul(x: int, y: int)
    ensures
        abs_int(x * y) == abs_int(x) * abs_int(y),
        x * y < 0 ==> ((x < 0) != (y < 0)),
        ((x < 0) != (y < 0)) && x != 0 && y != 0 ==> x * y < 0,
{
    if x >= 0 && y >= 0 {
        assert(x * y >= 0) by (nonlinear_arith)
            requires
                x >= 0,
                y >= 0,
        ;
    } else if x < 0 && y >= 0 {
        assert(x * y <= 0 && (-x) * y == -(x * y)) by (nonlinear_arith)
            requires
                x < 0,
                y >= 0,
        ;
        assert(x != 0 && y != 0 ==> x * y < 0) by (nonlinear_arith)
            requires
                x < 0,
                y >= 0,
        ;
    } else if x >= 0 && y < 0 {
        assert(x * y <= 0 && x * (-y) == -(x * y)) by (nonlinear_arith)
            requires
                x >= 0,
                y < 0,
        ;
        assert(x != 0 && y != 0 ==> x * y < 0) by (nonlinear_arith)
            requires
                x >= 0,
                y < 0,
        ;
    } else {
        assert(x * y >= 0 && (-x) * (-y) == x * y) by (nonlinear_arith)
            requires
                x < 0,
                y < 0,
        ;
    }
}

/// The magnitude of a signed value, exact even for the smallest one.
fn fx_abs_u(a: i64) -> (r: u64)
    ensures
        r == abs_int(a as int),
{
    if a >= 0 {
        a as u64
    } else {
        (-(a as i128)) as u64
    }
}

/// Saturating fixed-point addition.
pub fn fx_add(a: i64, b: i64) -> (r: i64)
    ensures
        r == add_fx(a, b),
{
    let s: i128 = (a as i128) + (b as i128);
    if s > (FX_MAX as i128) {
        FX_MAX
    } else if s < -(FX_MAX as i128) {
        -FX_MAX
    } else {
        s as i64
    }
}

/// Saturating fixed-point subtraction.
pub fn fx_sub(a: i64, b: i64) -> (r: i64)
    ensures
        r == sub_fx(a, b),
{
    let s: i128 = (a as i128) - (b as i128);
    if s > (FX_MAX as i128) {
        FX_MAX
    } else if s < -(FX_MAX as i128) {
        -FX_MAX
    } else {
        s as i64
    }
}

/// Saturating fixed-point multiplication, truncating toward zero.
pub fn fx_mul(a: i64, b: i64) -> (r: i64)
    ensures
        r == mul_fx(a, b),
{
    let neg: bool = (a < 0) != (b < 0);
    let ua: u64 = fx_abs_u(a);
    let ub: u64 = fx_abs_u(b);
    proof {
        lemma_mul_upper_bound(ua as int, u64::MAX as int, ub as int, u64::MAX as int);
        lemma_abs_mul(a as int, b as int);
    }
    let p: u128 = (ua as u128) * (ub as u128);
    let q: u128 = p / (SCALE as u128);
    let m: i64 = if q > (FX_MAX as u128) {
        FX_MAX
    } else {
        q as i64
    };
    if neg {
        -m
    } else {
        m
    }
}

/// Saturating fixed-point division, truncating toward zero; zero when the
/// divisor is zero.
pub fn fx_div(a: i64, b: i64) -> (r: i64)
    ensures
        r == div_fx(a, b),
{
    if b == 0 {
        return 0;
    }
    let neg: bool = (a < 0) != (b < 0);
    let ua: u64 = fx_abs_u(a);
    let ub: u64 = fx_abs_u(b);
    proof {
        lemma_mul_upper_bound(ua as int, u64::MAX as int, SCALE as int, u64::MAX as int);
        lemma_abs_mul(a as int, SCALE as int);
    }
    let p: u128 = (ua as u128) * (SCALE as u128);
    let q: u128 = p / (ub as u128);
    let m: i64 = if q > (FX_MAX as u128) {
        FX_MAX
    } else {
        q as i64
    };
    if neg {
        -m
    } else {
        m
    }
}

/// `isqrt` is characterized by bracketing its input between two squares.
pub proof fn lemma_isqrt_bounds(n: int)
    requires
        n >= 0,
    ensures
        isqrt(n) >= 0,
        isqrt(n) * isqrt(n) <= n,
        n < (isqrt(n) + 1) * (isqrt(n) + 1),
    decreases n,
{
    if n == 0 {
        assert(isqrt(0) == 0);
    } else {
        lemma_isqrt_bounds(n - 1);
        let r = isqrt(n - 1);
        if (r + 1) * (r + 1) <= n {
            assert((r + 2) * (r + 2) > (r + 1) * (r + 1) + 1) by (nonlinear_arith)
                requires
                    r >= 0,
            ;
            assert(n <= (r + 1) * (r + 1));
        }
    }
}

/// Anything bracketed between the same two squares equals `isqrt`.
pub proof fn lemma_isqrt_unique(n: int, r: int)
    requires
        n >= 0,
        r >= 0,
        r * r <= n,
        n < (r + 1) * (r + 1),
    ensures
        r == isqrt(n),
{
    lemma_isqrt_bounds(n);
    let s = isqrt(n);
    if r < s {
        assert((r + 1) * (r + 1) <= s * s) by (nonlinear_arith)
            requires
                0 <= r + 1,
                r + 1 <= s,
        ;
        assert(false);
    }
    if s < r {
        assert((s + 1) * (s + 1) <= r * r) by (nonlinear_arith)
            requires
                0 <= s + 1,
                s + 1 <= r,
        ;
        assert(false);
    }
}

/// A larger input has a square root at least as large.
pub proof fn lemma_isqrt_monotone(n1: int, n2: int)
    requires
        0 <= n1 <= n2,
    ensures
        isqrt(n1) <= isqrt(n2),
{
    lemma_isqrt_bounds(n1);
    lemma_isqrt_bounds(n2);
    let a = isqrt(n1);
    let b = isqrt(n2);
    if b < a {
        assert((b + 1) * (b + 1) <= a * a) by (nonlinear_arith)
            requires
                0 <= b + 1,
                b + 1 <= a,
        ;
        assert(false);
    }
}

/// Saturating fixed-point square root, rounded down; zero on negative input.
pub fn fx_sqrt(a: i64) -> (r: i64)
    ensures
        r == sqrt_fx(a),
{
    if a <= 0 {
        return 0;
    }
    proof {
        lemma_mul_upper_bound(a as int, FX_MAX as int, SCALE as int, SCALE as int);
    }
    let n: u128 = (a as u128) * (SCALE as u128);
    let mut lo: u128 = 0;
    let mut hi: u128 = 0x8000_0000_0000;
    assert((n as int) < (hi as int) * (hi as int));
    while lo + 1 < hi
        invariant
            lo < hi <= 0x8000_0000_0000,
            (lo as int) * (lo as int) <= n as int,
            (n as int) < (hi as int) * (hi as int),
        decreases hi - lo,
    {
        let mid: u128 = lo + (hi - lo) / 2;
        proof {
            lemma_mul_upper_bound(mid as int, 0x8000_0000_0000, mid as int, 0x8000_0000_0000);
        }
        if mid * mid <= n {
            lo = mid;
        } else {
            hi = mid;
        }
    }
    proof {
        lemma_isqrt_unique(n as int, lo as int);
        lemma_mul_upper_bound(lo as int, 0x8000_0000_0000, lo as int, 0x8000_0000_0000);
    }
    lo as i64
}

/// Saturation clamps symmetrically: negating the input negates the result.
pub proof fn lemma_clamp_neg(x: int)
    ensures
        clamp_fx(-x) as int == -(clamp_fx(x) as int),
{
}

/// Reversing the operands of a saturating subtraction negates it.
pub proof fn lemma_sub_fx_antisym(a: i64, b: i64)
    ensures
        sub_fx(b, a) as int == -(sub_fx(a, b) as int),
{
    lemma_clamp_neg(a - b);
}

/// Negating one factor negates a saturating product.
pub proof fn lemma_mul_fx_neg_left(a1: i64, a2: i64, b: i64)
    requires
        a2 as int == -(a1 as int),
    ensures
        mul_fx(a2, b) as int == -(mul_fx(a1, b) as int),
{
    assert((a2 as int) * (b as int) == -((a1 as int) * (b as int))) by (nonlinear_arith)
        requires
            a2 as int == -(a1 as int),
    ;
    lemma_abs_mul(a1 as int, b as int);
    lemma_abs_mul(a2 as int, b as int);
    lemma_clamp_neg(tdiv((a1 as int) * (b as int), SCALE as int));
}

/// A saturating product of a value with itself is unchanged by negation.
pub proof fn lemma_mul_fx_neg_both(a1: i64, a2: i64)
    requires
        a2 as int == -(a1 as int),
    ensures
        mul_fx(a2, a2) == mul_fx(a1, a1),
{
    assert((a2 as int) * (a2 as int) == (a1 as int) * (a1 as int)) by (nonlinear_arith)
        requires
            a2 as int == -(a1 as int),
    ;
}

/// A nonnegative value divided by a larger positive divisor gives a
/// quotient no larger: the force of gravity only weakens with distance.
pub proof fn lemma_div_fx_antitone(a: i64, b1: i64, b2: i64)
    requires
        0 <= a,
        0 < b1 <= b2,
    ensures
        0 <= div_fx(a, b2) <= div_fx(a, b1),
{
    lemma_mul_upper_bound(a as int, FX_MAX as int, SCALE as int, SCALE as int);
    assert(0 <= (a as int) * (SCALE as int)) by (nonlinear_arith)
        requires
            0 <= a as int,
        ;
    lemma_div_is_ordered_by_denominator((a as int) * (SCALE as int), b1 as int, b2 as int);
    vstd::arithmetic::div_mod::lemma_div_pos_is_pos((a as int) * (SCALE as int), b2 as int);
}

/// Once the positive divisor exceeds the scaled dividend, the saturating
/// quotient is exactly zero.
pub proof fn lemma_div_fx_small(a: i64, b: i64)
    requires
        0 <= a,
        (a as int) * (SCALE as int) < b as int,
    ensures
        div_fx(a, b) == 0,
{
    assert(0 <= (a as int) * (SCALE as int)) by (nonlinear_arith)
        requires
            0 <= a as int,
        ;
    lemma_basic_div((a as int) * (SCALE as int), b as int);
}

/// Saturating multiplication of nonnegative values is monotone in both
/// factors, and stays nonnegative.
pub proof fn lemma_mul_fx_monotone_nonneg(a1: i64, a2: i64, b1: i64, b2: i64)
    requires
        0 <= a1 <= a2,
        0 <= b1 <= b2,
    ensures
        0 <= mul_fx(a1, b1) <= mul_fx(a2, b2),
{
    assert(0 <= (a1 as int) * (b1 as int)) by (nonlinear_arith)
        requires
            0 <= a1 as int,
            0 <= b1 as int,
    ;
    lemma_mul_inequality(a1 as int, a2 as int, b1 as int);
    lemma_mul_inequality(b1 as int, b2 as int, a2 as int);
    assert((a2 as int) * (b1 as int) == (b1 as int) * (a2 as int)) by (nonlinear_arith);
    assert((a2 as int) * (b2 as int) == (b2 as int) * (a2 as int)) by (nonlinear_arith);
    lemma_div_is_ordered((a1 as int) * (b1 as int), (a2 as int) * (b2 as int), SCALE as int);
    vstd::arithmetic::div_mod::lemma_div_pos_is_pos((a1 as int) * (b1 as int), SCALE as int);
}

/// The fixed-point square root is monotone and nonnegative.
pub proof fn lemma_sqrt_fx_monotone(a1: i64, a2: i64)
    requires
        a1 <= a2,
    ensures
        0 <= sqrt_fx(a1) <= sqrt_fx(a2),
{
    if a1 <= 0 {
        if a2 > 0 {
            assert(0 <= (a2 as int) * (SCALE as int)) by (nonlinear_arith)
                requires
                    0 <= a2 as int,
            ;
            lemma_isqrt_bounds((a2 as int) * (SCALE as int));
        }
    } else {
        lemma_mul_inequality(a1 as int, a2 as int, SCALE as int);
        assert(0 <= (a1 as int) * (SCALE as int)) by (nonlinear_arith)
            requires
                0 <= a1 as int,
        ;
        lemma_isqrt_monotone((a1 as int) * (SCALE as int), (a2 as int) * (SCALE as int));
        lemma_isqrt_bounds((a1 as int) * (SCALE as int));
    }
}

} // verus!
