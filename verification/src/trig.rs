//! Fixed-point circular functions by truncated power series.
//!
//! `sin_core` and `cos_core` evaluate the series up to the seventh and
//! eighth power on `[0, pi/2]`; the full-circle versions fold `[0, 2*pi]`
//! onto that quarter by symmetry.  The tangent divides the two and is used
//! once, to size the camera's image plane from the field of view.

use crate::fixed::{
    fadd, fadd_s, fdiv, fdiv_s, fmul, fmul_s, fneg, fneg_s, fsub, fsub_s, idiv, idiv_s, ONE,
};
use vstd::prelude::*;

verus! {

/// Fixed-point pi.
pub const PI_FIX: i64 = 205887;

/// Fixed-point pi / 2.
pub const HALF_PI_FIX: i64 = 102944;

/// Fixed-point 2 * pi.
pub const TWO_PI_FIX: i64 = 411775;

/// Fixed-point pi / 180 (one degree in radians).
pub const DEG_FIX: i64 = 1144;

/// The truncated sine series `x - x^3/6 + x^5/120 - x^7/5040`.
pub open spec fn sin_core_s(x: i64) -> i64 {
    let x2 = fmul_s(x, x);
    let x3 = fmul_s(x, x2);
    let x5 = fmul_s(x3, x2);
    let x7 = fmul_s(x5, x2);
    fsub_s(fadd_s(fsub_s(x, idiv_s(x3, 6)), idiv_s(x5, 120)), idiv_s(x7, 5040))
}

/// The truncated cosine series `1 - x^2/2 + x^4/24 - x^6/720 + x^8/40320`.
pub open spec fn cos_core_s(x: i64) -> i64 {
    let x2 = fmul_s(x, x);
    let x4 = fmul_s(x2, x2);
    let x6 = fmul_s(x4, x2);
    let x8 = fmul_s(x4, x4);
    fadd_s(fsub_s(fadd_s(fsub_s(ONE, idiv_s(x2, 2)), idiv_s(x4, 24)), idiv_s(x6, 720)),
        idiv_s(x8, 40320))
}

/// The truncated sine series, for arguments in `[0, pi/2]`.
pub fn sin_core(x: i64) -> (r: i64)
    ensures
        r == sin_core_s(x),
{
    let x2: i64 = fmul(x, x);
    let x3: i64 = fmul(x, x2);
    let x5: i64 = fmul(x3, x2);
    let x7: i64 = fmul(x5, x2);
    fsub(fadd(fsub(x, idiv(x3, 6)), idiv(x5, 120)), idiv(x7, 5040))
}

/// The truncated cosine series, for arguments in `[0, pi/2]`.
pub fn cos_core(x: i64) -> (r: i64)
    ensures
        r == cos_core_s(x),
{
    let x2: i64 = fmul(x, x);
    let x4: i64 = fmul(x2, x2);
    let x6: i64 = fmul(x4, x2);
    let x8: i64 = fmul(x4, x4);
    fadd(fsub(fadd(fsub(ONE, idiv(x2, 2)), idiv(x4, 24)), idiv(x6, 720)), idiv(x8, 40320))
}

/// Sine on `[0, 2*pi]`, folded onto the first quarter by symmetry.
pub open spec fn sin_s(a: i64) -> i64 {
    if a < HALF_PI_FIX {
        sin_core_s(a)
    } else if a < PI_FIX {
        sin_core_s(fsub_s(PI_FIX, a))
    } else if a < fadd_s(PI_FIX, HALF_PI_FIX) {
        fneg_s(sin_core_s(fsub_s(a, PI_FIX)))
    } else {
        fneg_s(sin_core_s(fsub_s(TWO_PI_FIX, a)))
    }
}

/// Cosine on `[0, 2*pi]`, folded onto the first quarter by symmetry.
pub open spec fn cos_s(a: i64) -> i64 {
    if a < HALF_PI_FIX {
        cos_core_s(a)
    } else if a < PI_FIX {
        fneg_s(cos_core_s(fsub_s(PI_FIX, a)))
    } else if a < fadd_s(PI_FIX, HALF_PI_FIX) {
        fneg_s(cos_core_s(fsub_s(a, PI_FIX)))
    } else {
        cos_core_s(fsub_s(TWO_PI_FIX, a))
    }
}

/// Sine on `[0, 2*pi]`.
pub fn sin_full(a: i64) -> (r: i64)
    ensures
        r == sin_s(a),
{
    if a < HALF_PI_FIX {
        sin_core(a)
    } else if a < PI_FIX {
        sin_core(fsub(PI_FIX, a))
    } else if a < fadd(PI_FIX, HALF_PI_FIX) {
        fneg(sin_core(fsub(a, PI_FIX)))
    } else {
        fneg(sin_core(fsub(TWO_PI_FIX, a)))
    }
}

/// Cosine on `[0, 2*pi]`.
pub fn cos_full(a: i64) -> (r: i64)
    ensures
        r == cos_s(a),
{
    if a < HALF_PI_FIX {
        cos_core(a)
    } else if a < PI_FIX {
        fneg(cos_core(fsub(PI_FIX, a)))
    } else if a < fadd(PI_FIX, HALF_PI_FIX) {
        fneg(cos_core(fsub(a, PI_FIX)))
    } else {
        cos_core(fsub(TWO_PI_FIX, a))
    }
}

/// Tangent by the two series; saturated where the cosine series is not
/// positive (arguments at or beyond a quarter turn).
pub open spec fn tan_s(x: i64) -> i64 {
    let c = cos_core_s(x);
    if c <= 0 {
        i64::MAX
    } else {
        fdiv_s(sin_core_s(x), c)
    }
}

/// Tangent, meaningful on `[0, pi/2)`.
pub fn tan_approx(x: i64) -> (r: i64)
    ensures
        r == tan_s(x),
{
    let c: i64 = cos_core(x);
    if c <= 0 {
        i64::MAX
    } else {
        fdiv(sin_core(x), c)
    }
}

} // verus!
