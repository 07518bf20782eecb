//! Saturating fixed-point arithmetic on `i64`.
//!
//! Every real-valued quantity of the renderer (coordinates, colors, ray
//! parameters) is stored as `value * 65536`, truncated, in an `i64`.  All
//! operations truncate toward zero and saturate at the `i64` range, so they
//! are total: no operation here panics or overflows.

use vstd::prelude::*;

verus! {

/// Fixed-point representation of 1.0.
pub const ONE: i64 = 65536;

/// Fixed-point representation of 2.0.
pub const TWO: i64 = 131072;

/// Absolute value of a mathematical integer.
pub open spec fn abs_i(x: int) -> int {
    if x >= 0 {
        x
    } else {
        -x
    }
}

/// Apply a sign to a nonnegative magnitude.
pub open spec fn sgn_apply(neg: bool, m: int) -> int {
    if neg {
        -m
    } else {
        m
    }
}

/// Clamp an unbounded integer into the `i64` range.
pub open spec fn sat64(x: int) -> i64 {
    if x > i64::MAX as int {
        i64::MAX
    } else if x < i64::MIN as int {
        i64::MIN
    } else {
        x as i64
    }
}

/// What fixed-point addition returns.
pub open spec fn fadd_s(a: i64, b: i64) -> i64 {
    sat64(a as int + b as int)
}

/// What fixed-point subtraction returns.
pub open spec fn fsub_s(a: i64, b: i64) -> i64 {
    sat64(a as int - b as int)
}

/// What fixed-point negation returns.
pub open spec fn fneg_s(a: i64) -> i64 {
    sat64(-(a as int))
}

/// What fixed-point multiplication returns: the product scaled back down,
/// truncated toward zero, saturated.
pub open spec fn fmul_s(a: i64, b: i64) -> i64 {
    sat64(sgn_apply((a < 0) != (b < 0), (abs_i(a as int) * abs_i(b as int)) / (ONE as int)))
}

/// What fixed-point division returns: the quotient scaled up, truncated
/// toward zero, saturated.  Meaningful only for `b != 0`.
pub open spec fn fdiv_s(a: i64, b: i64) -> i64 {
    sat64(sgn_apply((a < 0) != (b < 0), (abs_i(a as int) * (ONE as int)) / abs_i(b as int)))
}

/// What division of a fixed-point value by a plain positive integer returns
/// (used to average sample sums and to scale by integer constants).
pub open spec fn idiv_s(a: i64, k: i64) -> i64 {
    sat64(sgn_apply(a < 0, abs_i(a as int) / (k as int)))
}

/// Saturating fixed-point addition.
pub fn fadd(a: i64, b: i64) -> (r: i64)
    ensures
        r == fadd_s(a, b),
{
    let s: i128 = a as i128 + b as i128;
    if s > i64::MAX as i128 {
        i64::MAX
    } else if s < i64::MIN as i128 {
        i64::MIN
    } else {
        s as i64
    }
}

/// Saturating fixed-point subtraction.
pub fn fsub(a: i64, b: i64) -> (r: i64)
    ensures
        r == fsub_s(a, b),
{
    let s: i128 = a as i128 - b as i128;
    if s > i64::MAX as i128 {
        i64::MAX
    } else if s < i64::MIN as i128 {
        i64::MIN
    } else {
        s as i64
    }
}

/// Saturating fixed-point negation.
pub fn fneg(a: i64) -> (r: i64)
    ensures
        r == fneg_s(a),
{
    if a == i64::MIN {
        i64::MAX
    } else {
        -a
    }
}

/// The absolute value of an `i64`, as a `u128` magnitude.
fn abs_mag(a: i64) -> (r: u128)
    ensures
        r as int == abs_i(a as int),
{
    if a >= 0 {
        a as u128
    } else {
        (-(a as i128)) as u128
    }
}

/// Re-attach a sign to a magnitude and saturate into `i64`.
fn sign_sat(neg: bool, m: u128) -> (r: i64)
    ensures
        r == sat64(sgn_apply(neg, m as int)),
{
    if neg {
        if m > 9223372036854775808u128 {
            i64::MIN
        } else {
            (-(m as i128)) as i64
        }
    } else {
        if m > i64::MAX as u128 {
            i64::MAX
        } else {
            m as i64
        }
    }
}

/// Saturating fixed-point multiplication.
pub fn fmul(a: i64, b: i64) -> (r: i64)
    ensures
        r == fmul_s(a, b),
{
    let neg: bool = (a < 0) != (b < 0);
    let aa: u128 = abs_mag(a);
    let bb: u128 = abs_mag(b);
    proof {
        assert(aa as int * bb as int <= u128::MAX as int)
            by (nonlinear_arith)
            requires
                aa <= 0x8000_0000_0000_0000u128,
                bb <= 0x8000_0000_0000_0000u128,
        ;
    }
    let p: u128 = aa * bb;
    let q: u128 = p / 65536u128;
    sign_sat(neg, q)
}

/// Saturating fixed-point division (truncated toward zero).
pub fn fdiv(a: i64, b: i64) -> (r: i64)
    requires
        b != 0,
    ensures
        r == fdiv_s(a, b),
{
    let neg: bool = (a < 0) != (b < 0);
    let aa: u128 = abs_mag(a);
    let bb: u128 = abs_mag(b);
    let p: u128 = aa * 65536u128;
    let q: u128 = p / bb;
    sign_sat(neg, q)
}

/// Division of a fixed-point value by a plain positive integer.
pub fn idiv(a: i64, k: i64) -> (r: i64)
    requires
        k > 0,
    ensures
        r == idiv_s(a, k),
{
    let neg: bool = a < 0;
    let aa: u128 = abs_mag(a);
    let q: u128 = aa / (k as u128);
    sign_sat(neg, q)
}

/// What converting a plain integer to fixed point returns.
pub open spec fn to_fixed_s(n: i64) -> i64 {
    sat64(n as int * (ONE as int))
}

/// Convert a plain integer count to a fixed-point value (saturating).
pub fn to_fixed(n: i64) -> (r: i64)
    ensures
        r == to_fixed_s(n),
{
    let p: i128 = (n as i128) * 65536;
    if p > i64::MAX as i128 {
        i64::MAX
    } else if p < i64::MIN as i128 {
        i64::MIN
    } else {
        p as i64
    }
}

/// The smaller of two fixed-point values.
pub open spec fn fmin_s(a: i64, b: i64) -> i64 {
    if a < b {
        a
    } else {
        b
    }
}

/// The smaller of two fixed-point values.
pub fn fmin(a: i64, b: i64) -> (r: i64)
    ensures
        r == fmin_s(a, b),
{
    if a < b {
        a
    } else {
        b
    }
}

/// Clamp a fixed-point value into `[lo, hi]`.
pub open spec fn fclamp_s(x: i64, lo: i64, hi: i64) -> i64 {
    if x < lo {
        lo
    } else if x > hi {
        hi
    } else {
        x
    }
}

/// Clamp a fixed-point value into `[lo, hi]`.
pub fn fclamp(x: i64, lo: i64, hi: i64) -> (r: i64)
    ensures
        r == fclamp_s(x, lo, hi),
{
    if x < lo {
        lo
    } else if x > hi {
        hi
    } else {
        x
    }
}

/// Division by a positive fixed-point value is monotone in the numerator.
pub proof fn lemma_fdiv_mono(n1: i64, n2: i64, d: i64)
    requires
        n1 <= n2,
        d > 0,
    ensures
        fdiv_s(n1, d) <= fdiv_s(n2, d),
{
    let s = ONE as int;
    let dd = abs_i(d as int);
    if n1 >= 0 {
        vstd::arithmetic::div_mod::lemma_div_is_ordered(n1 as int * s, n2 as int * s, dd);
    } else if n2 < 0 {
        vstd::arithmetic::div_mod::lemma_div_is_ordered(
            (-(n2 as int)) * s,
            (-(n1 as int)) * s,
            dd,
        );
    } else {
        vstd::arithmetic::div_mod::lemma_div_pos_is_pos((-(n1 as int)) * s, dd);
        vstd::arithmetic::div_mod::lemma_div_pos_is_pos(n2 as int * s, dd);
    }
}

/// A product of nonnegative factors is nonnegative and bounded by the
/// scaled product of the factors' bounds.
pub proof fn lemma_fmul_bounds(a: i64, b: i64, ba: i64, bb: i64)
    requires
        0 <= a <= ba,
        0 <= b <= bb,
        ba as int * bb as int <= i64::MAX,
    ensures
        0 <= fmul_s(a, b) <= (ba as int * bb as int) / (ONE as int),
{
    assert(0 <= a as int * b as int <= ba as int * bb as int) by (nonlinear_arith)
        requires
            0 <= a <= ba,
            0 <= b <= bb,
    ;
    vstd::arithmetic::div_mod::lemma_div_is_ordered(
        a as int * b as int,
        ba as int * bb as int,
        ONE as int,
    );
    vstd::arithmetic::div_mod::lemma_div_pos_is_pos(a as int * b as int, ONE as int);
}

/// Multiplying by zero gives zero.
pub proof fn lemma_fmul_zero_left(b: i64)
    ensures
        fmul_s(0, b) == 0,
{
    let m = abs_i(b as int);
    assert(0 * m == 0) by (nonlinear_arith);
}

/// A square stays within `[0, 1]` when its argument lies in `[-1, 1]`.
pub proof fn lemma_sq_unit_range(a: i64)
    requires
        -65536 <= a <= 65536,
    ensures
        0 <= fmul_s(a, a) <= ONE,
{
    let m = abs_i(a as int);
    assert(0 <= m * m <= 65536 * 65536) by (nonlinear_arith)
        requires
            0 <= m <= 65536,
    ;
    assert((m * m) / 65536 <= 65536);
}

/// The integer square root of a natural number, defined by counting up.
pub open spec fn isqrt_rec(x: nat) -> nat
    decreases x,
{
    if x == 0 {
        0
    } else {
        let p = isqrt_rec((x - 1) as nat);
        if (p + 1) * (p + 1) <= x {
            p + 1
        } else {
            p
        }
    }
}

/// The integer square root, extended to `int` (0 below zero).
pub open spec fn isqrt_s(x: int) -> int {
    if x >= 0 {
        isqrt_rec(x as nat) as int
    } else {
        0
    }
}

/// `isqrt_s(x)` is the floor of the square root: `r * r <= x < (r + 1) * (r + 1)`.
pub proof fn lemma_isqrt_bounds(x: int)
    requires
        x >= 0,
    ensures
        isqrt_s(x) >= 0,
        isqrt_s(x) * isqrt_s(x) <= x,
        (isqrt_s(x) + 1) * (isqrt_s(x) + 1) > x,
    decreases x,
{
    if x == 0 {
        assert(isqrt_rec(0) == 0);
    } else {
        lemma_isqrt_bounds(x - 1);
        let p = isqrt_s(x - 1);
        assert(isqrt_rec(x as nat) == if (p + 1) * (p + 1) <= x {
            p + 1
        } else {
            p
        });
        if (p + 1) * (p + 1) <= x {
            assert(x - 1 < (p + 1) * (p + 1));
            assert(x == (p + 1) * (p + 1));
            assert((p + 2) * (p + 2) > (p + 1) * (p + 1)) by (nonlinear_arith)
                requires
                    p >= 0,
            ;
        }
    }
}

/// The floor square root is unique.
pub proof fn lemma_isqrt_unique(x: int, r1: int, r2: int)
    by (nonlinear_arith)
    requires
        0 <= r1,
        r1 * r1 <= x,
        (r1 + 1) * (r1 + 1) > x,
        0 <= r2,
        r2 * r2 <= x,
        (r2 + 1) * (r2 + 1) > x,
    ensures
        r1 == r2,
{
}

/// Floor of the square root of a `u128`, by bisection.
pub fn isqrt(x: u128) -> (r: u64)
    ensures
        r as int == isqrt_s(x as int),
{
    let mut lo: u128 = 0;
    let mut hi: u128 = 0x1_0000_0000_0000_0000u128;
    proof {
        assert((0x1_0000_0000_0000_0000u128 as int) * (0x1_0000_0000_0000_0000u128 as int)
            > u128::MAX as int) by (nonlinear_arith);
    }
    while hi - lo > 1
        invariant
            0 <= lo < hi <= 0x1_0000_0000_0000_0000u128,
            lo as int * lo as int <= x as int,
            hi as int * hi as int > x as int,
        decreases hi - lo,
    {
        let mid: u128 = lo + (hi - lo) / 2;
        proof {
            assert(mid as int * mid as int <= u128::MAX as int)
                by (nonlinear_arith)
                requires
                    mid < 0x1_0000_0000_0000_0000u128,
            ;
        }
        let sq: u128 = mid * mid;
        if sq <= x {
            lo = mid;
        } else {
            hi = mid;
        }
    }
    proof {
        lemma_isqrt_bounds(x as int);
        lemma_isqrt_unique(x as int, lo as int, isqrt_s(x as int));
    }
    lo as u64
}

/// What the fixed-point square root returns, for `a >= 0`.
pub open spec fn fsqrt_s(a: i64) -> i64 {
    sat64(isqrt_s(a as int * (ONE as int)))
}

/// Fixed-point square root: `fsqrt(a)` is the floor of `sqrt(a / 65536) * 65536`.
pub fn fsqrt(a: i64) -> (r: i64)
    requires
        a >= 0,
    ensures
        r == fsqrt_s(a),
        r >= 0,
{
    let x: u128 = (a as u128) * 65536u128;
    let r: u64 = isqrt(x);
    proof {
        let rr = isqrt_s(x as int);
        lemma_isqrt_bounds(x as int);
        assert(rr <= i64::MAX as int) by (nonlinear_arith)
            requires
                rr >= 0,
                rr * rr <= x as int,
                x as int <= 0x7FFF_FFFF_FFFF_FFFF_0000,
        ;
    }
    r as i64
}

} // verus!
