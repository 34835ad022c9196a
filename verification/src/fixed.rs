//! Fixed-point scalars.
//!
//! Every simulation quantity (position, velocity, mass, time, fuel) is a
//! signed 64-bit integer holding the real value times [`SCALE`].  All
//! operations saturate at [`FIX_MIN`] / [`FIX_MAX`] instead of overflowing,
//! and division by zero yields zero, so the arithmetic is total: the stepper
//! and the forecaster never fail, they only produce values, and the same
//! inputs always produce the same values.

use vstd::prelude::*;

verus! {

/// One whole unit: scalars are Q31.32 fixed point.
pub const SCALE: i64 = 0x1_0000_0000;

/// Largest representable scalar.
pub const FIX_MAX: i64 = 0x7fff_ffff_ffff_ffff;

/// Smallest representable scalar; symmetric to [`FIX_MAX`] so that negation
/// never overflows.
pub const FIX_MIN: i64 = -0x7fff_ffff_ffff_ffff;

/// Magnitude of a mathematical integer.
pub open spec fn mag(v: int) -> int {
    if v < 0 {
        -v
    } else {
        v
    }
}

/// Sign of a mathematical integer (zero counts as positive).
pub open spec fn sgn(v: int) -> int {
    if v < 0 {
        -1
    } else {
        1
    }
}

/// Saturation into the representable range.
pub open spec fn clip(v: int) -> int {
    if v > FIX_MAX as int {
        FIX_MAX as int
    } else if v < FIX_MIN as int {
        FIX_MIN as int
    } else {
        v
    }
}

/// Saturating fixed-point addition.
pub open spec fn fix_add(a: int, b: int) -> int {
    clip(a + b)
}

/// Saturating fixed-point subtraction.
pub open spec fn fix_sub(a: int, b: int) -> int {
    clip(a - b)
}

/// Saturating fixed-point multiplication; the quotient by [`SCALE`] is
/// rounded towards zero.
pub open spec fn fix_mul(a: int, b: int) -> int {
    clip(sgn(a) * sgn(b) * ((mag(a) * mag(b)) / (SCALE as int)))
}

/// Saturating fixed-point division, rounded towards zero; division by zero
/// yields zero (the defensive guard demanded of the stepper).
pub open spec fn fix_div(a: int, b: int) -> int {
    if b == 0 {
        0
    } else {
        clip(sgn(a) * sgn(b) * ((mag(a) * (SCALE as int)) / mag(b)))
    }
}

/// `r` is the integer square root of `n`, rounded down.
pub open spec fn is_sqrt(n: int, r: int) -> bool {
    0 <= r && r * r <= n && n < (r + 1) * (r + 1)
}

/// The integer square root, rounded down (of interest for `n >= 0`).
pub open spec fn sqrt_floor(n: int) -> int {
    choose|r: int| is_sqrt(n, r)
}

/// Square root of a fixed-point scalar; non-positive inputs yield zero.
pub open spec fn fix_sqrt(a: int) -> int {
    if a <= 0 {
        0
    } else {
        sqrt_floor(a * (SCALE as int))
    }
}

pub proof fn lemma_is_sqrt_unique(n: int, r1: int, r2: int)
    requires
        is_sqrt(n, r1),
        is_sqrt(n, r2),
    ensures
        r1 == r2,
{
    if r1 < r2 {
        assert((r1 + 1) * (r1 + 1) <= r2 * r2) by (nonlinear_arith)
            requires
                0 <= r1,
                r1 + 1 <= r2,
        ;
    }
    if r2 < r1 {
        assert((r2 + 1) * (r2 + 1) <= r1 * r1) by (nonlinear_arith)
            requires
                0 <= r2,
                r2 + 1 <= r1,
        ;
    }
}

pub proof fn lemma_sqrt_floor(n: int, r: int)
    requires
        is_sqrt(n, r),
    ensures
        sqrt_floor(n) == r,
{
    assert(is_sqrt(n, sqrt_floor(n))) by {
        assert(exists|x: int| is_sqrt(n, x));
    }
    lemma_is_sqrt_unique(n, sqrt_floor(n), r);
}

pub proof fn lemma_sqrt_exists(n: int)
    requires
        0 <= n,
    ensures
        exists|r: int| is_sqrt(n, r),
    decreases n,
{
    if n == 0 {
        assert(is_sqrt(0, 0));
    } else {
        lemma_sqrt_exists(n - 1);
        let r = sqrt_floor(n - 1);
        assert(is_sqrt(n - 1, r));
        if (r + 1) * (r + 1) <= n {
            assert((r + 1) * (r + 1) < (r + 2) * (r + 2)) by (nonlinear_arith)
                requires
                    0 <= r,
            ;
            assert(is_sqrt(n, r + 1));
        } else {
            assert(is_sqrt(n, r));
        }
    }
}

pub proof fn lemma_fix_sqrt_nonneg(a: int)
    ensures
        0 <= fix_sqrt(a),
{
    if a > 0 {
        lemma_sqrt_exists(a * (SCALE as int));
        assert(is_sqrt(a * (SCALE as int), sqrt_floor(a * (SCALE as int))));
    }
}

/// On non-negative operands the signed product reduces to the plain
/// quotient.
pub proof fn lemma_fix_mul_eval_nonneg(a: int, b: int)
    requires
        0 <= a,
        0 <= b,
    ensures
        fix_mul(a, b) == clip((a * b) / (SCALE as int)),
{
    let q = (mag(a) * mag(b)) / (SCALE as int);
    assert(mag(a) == a && mag(b) == b && sgn(a) == 1 && sgn(b) == 1);
    assert(sgn(a) * sgn(b) * q == q) by (nonlinear_arith)
        requires
            sgn(a) == 1,
            sgn(b) == 1,
    ;
}

/// On non-negative operands the signed quotient reduces to the plain
/// quotient.
pub proof fn lemma_fix_div_eval_nonneg(a: int, b: int)
    requires
        0 <= a,
        0 < b,
    ensures
        fix_div(a, b) == clip((a * (SCALE as int)) / b),
{
    let q = (mag(a) * (SCALE as int)) / mag(b);
    assert(mag(a) == a && mag(b) == b && sgn(a) == 1 && sgn(b) == 1);
    assert(sgn(a) * sgn(b) * q == q) by (nonlinear_arith)
        requires
            sgn(a) == 1,
            sgn(b) == 1,
    ;
}

/// Scaling by a fixed non-negative factor preserves order.
pub proof fn lemma_fix_mul_monotone(k: int, u: int, v: int)
    requires
        0 <= k,
        0 <= u <= v,
    ensures
        fix_mul(k, u) <= fix_mul(k, v),
{
    lemma_fix_mul_eval_nonneg(k, u);
    lemma_fix_mul_eval_nonneg(k, v);
    assert(k * u <= k * v) by (nonlinear_arith)
        requires
            0 <= k,
            u <= v,
    ;
    vstd::arithmetic::div_mod::lemma_div_is_ordered(k * u, k * v, SCALE as int);
}

/// Division by a fixed positive divisor preserves order.
pub proof fn lemma_fix_div_monotone(u: int, v: int, d: int)
    requires
        0 <= u <= v,
        0 < d,
    ensures
        fix_div(u, d) <= fix_div(v, d),
{
    lemma_fix_div_eval_nonneg(u, d);
    lemma_fix_div_eval_nonneg(v, d);
    vstd::arithmetic::div_mod::lemma_div_is_ordered(u * (SCALE as int), v * (SCALE as int), d);
}

pub proof fn lemma_fix_mul_nonneg(a: int, b: int)
    requires
        0 <= a,
        0 <= b,
    ensures
        0 <= fix_mul(a, b),
{
    vstd::arithmetic::div_mod::lemma_div_pos_is_pos(a * b, SCALE as int);
    assert(0 <= a * b) by (nonlinear_arith)
        requires
            0 <= a,
            0 <= b,
    ;
}

pub proof fn lemma_fix_div_nonneg(a: int, b: int)
    requires
        0 <= a,
        0 <= b,
    ensures
        0 <= fix_div(a, b),
{
    if b != 0 {
        vstd::arithmetic::div_mod::lemma_div_pos_is_pos(a * (SCALE as int), b);
        assert(0 <= a * (SCALE as int)) by (nonlinear_arith)
            requires
                0 <= a,
        ;
    }
}

/// Magnitude of a scalar as an unsigned machine integer.
pub fn iabs(a: i64) -> (r: u64)
    ensures
        r as int == mag(a as int),
{
    if a >= 0 {
        a as u64
    } else {
        (-(a as i128)) as u64
    }
}

/// Saturate an unsigned magnitude with an explicit sign into a scalar.
fn clip_mag(neg: bool, p: u128) -> (r: i64)
    ensures
        r as int == clip(
            if neg {
                -(p as int)
            } else {
                p as int
            },
        ),
{
    if p >= FIX_MAX as u128 {
        if neg {
            FIX_MIN
        } else {
            FIX_MAX
        }
    } else {
        if neg {
            -(p as i64)
        } else {
            p as i64
        }
    }
}

/// Saturating addition.
pub fn fadd(a: i64, b: i64) -> (r: i64)
    ensures
        r as int == fix_add(a as int, b as int),
{
    let s = a as i128 + b as i128;
    if s > FIX_MAX as i128 {
        FIX_MAX
    } else if s < FIX_MIN as i128 {
        FIX_MIN
    } else {
        s as i64
    }
}

/// Saturating subtraction.
pub fn fsub(a: i64, b: i64) -> (r: i64)
    ensures
        r as int == fix_sub(a as int, b as int),
{
    let s = a as i128 - b as i128;
    if s > FIX_MAX as i128 {
        FIX_MAX
    } else if s < FIX_MIN as i128 {
        FIX_MIN
    } else {
        s as i64
    }
}

/// Saturating multiplication.
pub fn fmul(a: i64, b: i64) -> (r: i64)
    ensures
        r as int == fix_mul(a as int, b as int),
{
    let neg = (a < 0) != (b < 0);
    let aa = iabs(a) as u128;
    let bb = iabs(b) as u128;
    proof {
        assert(aa * bb < 0x1_0000_0000_0000_0000_0000_0000_0000_0000) by (nonlinear_arith)
            requires
                aa <= 0x8000_0000_0000_0000,
                bb <= 0x8000_0000_0000_0000,
        ;
    }
    let p = (aa * bb) / (SCALE as u128);
    let r = clip_mag(neg, p);
    proof {
        lemma_signed_quotient(a as int, b as int, mag(a as int) * mag(b as int), SCALE as int, neg);
    }
    r
}

/// Saturating division; division by zero yields zero.
pub fn fdiv(a: i64, b: i64) -> (r: i64)
    ensures
        r as int == fix_div(a as int, b as int),
{
    if b == 0 {
        return 0;
    }
    let neg = (a < 0) != (b < 0);
    let aa = iabs(a) as u128;
    let bb = iabs(b) as u128;
    proof {
        assert(aa * (SCALE as u128) < 0x1_0000_0000_0000_0000_0000_0000_0000_0000)
            by (nonlinear_arith)
            requires
                aa <= 0x8000_0000_0000_0000,
        ;
    }
    let p = (aa * (SCALE as u128)) / bb;
    let r = clip_mag(neg, p);
    proof {
        lemma_signed_quotient(a as int, b as int, mag(a as int) * (SCALE as int), mag(b as int), neg);
    }
    r
}

/// Relates the magnitude-and-sign computation performed by the executable
/// code to the signed quotient written in the specifications.
proof fn lemma_signed_quotient(a: int, b: int, num: int, den: int, neg: bool)
    requires
        0 < den,
        0 <= num,
        neg == ((a < 0) != (b < 0)),
    ensures
        sgn(a) * sgn(b) * (num / den) == if neg {
            -(num / den)
        } else {
            num / den
        },
{
    let q = num / den;
    if neg {
        assert(sgn(a) * sgn(b) == -1);
        assert((-1) * q == -q) by (nonlinear_arith);
    } else {
        assert(sgn(a) * sgn(b) == 1);
        assert(1 * q == q) by (nonlinear_arith);
    }
}

/// Integer square root by bisection.
fn isqrt_u128(n: u128) -> (r: u64)
    ensures
        is_sqrt(n as int, r as int),
{
    let mut lo: u128 = 0;
    let mut hi: u128 = 0x1_0000_0000_0000_0000;
    proof {
        assert((0x1_0000_0000_0000_0000 as int) * (0x1_0000_0000_0000_0000 as int)
            == 0x1_0000_0000_0000_0000_0000_0000_0000_0000) by (nonlinear_arith);
    }
    while lo + 1 < hi
        invariant
            lo < hi,
            hi <= 0x1_0000_0000_0000_0000,
            (lo as int) * (lo as int) <= n as int,
            (n as int) < (hi as int) * (hi as int),
        decreases hi - lo,
    {
        let mid = lo + (hi - lo) / 2;
        proof {
            assert(mid * mid <= 0xffff_ffff_ffff_ffff * 0xffff_ffff_ffff_ffff)
                by (nonlinear_arith)
                requires
                    mid <= 0xffff_ffff_ffff_ffff,
            ;
            assert((0xffff_ffff_ffff_ffff as int) * (0xffff_ffff_ffff_ffff as int)
                <= 0xffff_ffff_ffff_ffff_ffff_ffff_ffff_ffff) by (nonlinear_arith);
        }
        if mid * mid <= n {
            lo = mid;
        } else {
            hi = mid;
        }
    }
    lo as u64
}

/// Square root of a scalar; non-positive inputs yield zero.
pub fn fsqrt(a: i64) -> (r: i64)
    ensures
        r as int == fix_sqrt(a as int),
{
    if a <= 0 {
        return 0;
    }
    proof {
        assert((a as int) * (SCALE as int) <= 0x8000_0000_0000_0000_0000_0000)
            by (nonlinear_arith)
            requires
                a as int <= 0x8000_0000_0000_0000,
        ;
    }
    let n = (a as u128) * (SCALE as u128);
    let r = isqrt_u128(n);
    proof {
        if r as int > 0xffff_ffff_ffff {
            assert((r as int) * (r as int) > 0xffff_ffff_ffff_0000_0000_0000)
                by (nonlinear_arith)
                requires
                    r as int > 0xffff_ffff_ffff,
            ;
        }
        lemma_sqrt_floor((a as int) * (SCALE as int), r as int);
    }
    r as i64
}

/// The scalar representing the whole number `v`, saturated.
pub open spec fn fix_from_int(v: int) -> int {
    clip(v * (SCALE as int))
}

/// Turn a whole number into a scalar, saturating.
pub fn from_int(v: i64) -> (r: i64)
    ensures
        r as int == fix_from_int(v as int),
{
    proof {
        assert(mag((v as int) * (SCALE as int)) <= 0x8000_0000_0000_0000_0000_0000)
            by (nonlinear_arith)
            requires
                mag(v as int) <= 0x8000_0000_0000_0000,
        ;
    }
    let s = (v as i128) * (SCALE as i128);
    if s > FIX_MAX as i128 {
        FIX_MAX
    } else if s < FIX_MIN as i128 {
        FIX_MIN
    } else {
        s as i64
    }
}

/// The smaller of two scalars.
pub fn fmin(a: i64, b: i64) -> (r: i64)
    ensures
        r as int == if a as int <= b as int {
            a as int
        } else {
            b as int
        },
{
    if a <= b {
        a
    } else {
        b
    }
}

/// The larger of two scalars.
pub fn fmax(a: i64, b: i64) -> (r: i64)
    ensures
        r as int == if a as int >= b as int {
            a as int
        } else {
            b as int
        },
{
    if a >= b {
        a
    } else {
        b
    }
}

} // verus!
