//! Three-component fixed-point vectors, used as positions, directions and
//! RGB colors alike.

use crate::fixed::{
    abs_i, fadd, fadd_s, fdiv, fdiv_s, fmul, fmul_s, fneg, fneg_s, fsub, fsub_s, isqrt, isqrt_s,
    sat64, ONE,
};
use vstd::prelude::*;

verus! {

/// A vector of three fixed-point components.
#[derive(Clone, Copy, PartialEq, Eq, Structural, Debug)]
pub struct Vec3 {
    pub x: i64,
    pub y: i64,
    pub z: i64,
}

/// The zero vector.
pub open spec fn vzero_s() -> Vec3 {
    Vec3 { x: 0, y: 0, z: 0 }
}

/// Component-wise sum.
pub open spec fn vadd_s(a: Vec3, b: Vec3) -> Vec3 {
    Vec3 { x: fadd_s(a.x, b.x), y: fadd_s(a.y, b.y), z: fadd_s(a.z, b.z) }
}

/// Component-wise difference.
pub open spec fn vsub_s(a: Vec3, b: Vec3) -> Vec3 {
    Vec3 { x: fsub_s(a.x, b.x), y: fsub_s(a.y, b.y), z: fsub_s(a.z, b.z) }
}

/// Component-wise negation.
pub open spec fn vneg_s(a: Vec3) -> Vec3 {
    Vec3 { x: fneg_s(a.x), y: fneg_s(a.y), z: fneg_s(a.z) }
}

/// A vector scaled by a fixed-point factor.
pub open spec fn vscale_s(k: i64, a: Vec3) -> Vec3 {
    Vec3 { x: fmul_s(k, a.x), y: fmul_s(k, a.y), z: fmul_s(k, a.z) }
}

/// Component-wise product (color attenuation).
pub open spec fn vmul_s(a: Vec3, b: Vec3) -> Vec3 {
    Vec3 { x: fmul_s(a.x, b.x), y: fmul_s(a.y, b.y), z: fmul_s(a.z, b.z) }
}

/// A vector divided by a fixed-point scalar (`k != 0`).
pub open spec fn vdiv_scalar_s(a: Vec3, k: i64) -> Vec3 {
    Vec3 { x: fdiv_s(a.x, k), y: fdiv_s(a.y, k), z: fdiv_s(a.z, k) }
}

/// The fixed-point dot product, folded left over the components.
pub open spec fn dot_s(a: Vec3, b: Vec3) -> i64 {
    fadd_s(fadd_s(fmul_s(a.x, b.x), fmul_s(a.y, b.y)), fmul_s(a.z, b.z))
}

/// The fixed-point cross product.
pub open spec fn cross_s(a: Vec3, b: Vec3) -> Vec3 {
    Vec3 {
        x: fsub_s(fmul_s(a.y, b.z), fmul_s(a.z, b.y)),
        y: fsub_s(fmul_s(a.z, b.x), fmul_s(a.x, b.z)),
        z: fsub_s(fmul_s(a.x, b.y), fmul_s(a.y, b.x)),
    }
}

/// The squared length as a fixed-point value: `dot_s(v, v)`.
pub open spec fn squared_length_s(v: Vec3) -> i64 {
    dot_s(v, v)
}

/// The raw sum of squared components (an exact integer, not yet scaled).
pub open spec fn raw_sq_sum(v: Vec3) -> int {
    v.x as int * v.x as int + v.y as int * v.y as int + v.z as int * v.z as int
}

/// The fixed-point length: the square root is taken on the raw sum of
/// squares, which equals `sqrt(real squared length) * 65536` exactly.
pub open spec fn length_s(v: Vec3) -> i64 {
    sat64(isqrt_s(raw_sq_sum(v)))
}

/// What normalizing returns: each component divided by the length, or the
/// zero vector when the length truncates to zero.
pub open spec fn unit_s(v: Vec3) -> Vec3 {
    let l = length_s(v);
    if l <= 0 {
        vzero_s()
    } else {
        vdiv_scalar_s(v, l)
    }
}

/// The zero vector has squared length zero.
pub proof fn lemma_zero_squared_length()
    ensures
        squared_length_s(vzero_s()) == 0,
{
    let m = abs_i(0int);
    assert(m == 0);
    assert(m * m == 0) by (nonlinear_arith)
        requires
            m == 0,
    ;
    assert(fmul_s(0i64, 0i64) == 0);
    assert(fadd_s(0i64, 0i64) == 0);
}

impl Vec3 {
    /// Build a vector from its components.
    pub fn new(x: i64, y: i64, z: i64) -> (r: Vec3)
        ensures
            r == (Vec3 { x, y, z }),
    {
        Vec3 { x, y, z }
    }

    /// The zero vector.
    pub fn zero() -> (r: Vec3)
        ensures
            r == vzero_s(),
    {
        Vec3 { x: 0, y: 0, z: 0 }
    }

    /// Component-wise sum.
    pub fn add_v(&self, b: &Vec3) -> (r: Vec3)
        ensures
            r == vadd_s(*self, *b),
    {
        Vec3 { x: fadd(self.x, b.x), y: fadd(self.y, b.y), z: fadd(self.z, b.z) }
    }

    /// Component-wise difference.
    pub fn sub_v(&self, b: &Vec3) -> (r: Vec3)
        ensures
            r == vsub_s(*self, *b),
    {
        Vec3 { x: fsub(self.x, b.x), y: fsub(self.y, b.y), z: fsub(self.z, b.z) }
    }

    /// Component-wise negation.
    pub fn neg_v(&self) -> (r: Vec3)
        ensures
            r == vneg_s(*self),
    {
        Vec3 { x: fneg(self.x), y: fneg(self.y), z: fneg(self.z) }
    }

    /// This vector scaled by a fixed-point factor.
    pub fn scale(&self, k: i64) -> (r: Vec3)
        ensures
            r == vscale_s(k, *self),
    {
        Vec3 { x: fmul(k, self.x), y: fmul(k, self.y), z: fmul(k, self.z) }
    }

    /// Component-wise product (color attenuation).
    pub fn mul_v(&self, b: &Vec3) -> (r: Vec3)
        ensures
            r == vmul_s(*self, *b),
    {
        Vec3 { x: fmul(self.x, b.x), y: fmul(self.y, b.y), z: fmul(self.z, b.z) }
    }

    /// This vector divided by a fixed-point scalar.
    pub fn div_scalar(&self, k: i64) -> (r: Vec3)
        requires
            k != 0,
        ensures
            r == vdiv_scalar_s(*self, k),
    {
        Vec3 { x: fdiv(self.x, k), y: fdiv(self.y, k), z: fdiv(self.z, k) }
    }

    /// The fixed-point dot product.
    pub fn dot(&self, b: &Vec3) -> (r: i64)
        ensures
            r == dot_s(*self, *b),
    {
        fadd(fadd(fmul(self.x, b.x), fmul(self.y, b.y)), fmul(self.z, b.z))
    }

    /// The fixed-point cross product.
    pub fn cross(&self, b: &Vec3) -> (r: Vec3)
        ensures
            r == cross_s(*self, *b),
    {
        Vec3 {
            x: fsub(fmul(self.y, b.z), fmul(self.z, b.y)),
            y: fsub(fmul(self.z, b.x), fmul(self.x, b.z)),
            z: fsub(fmul(self.x, b.y), fmul(self.y, b.x)),
        }
    }

    /// The squared length (fixed-point; saturating like `dot`).
    pub fn squared_length(&self) -> (r: i64)
        ensures
            r == squared_length_s(*self),
    {
        self.dot(self)
    }

    /// The fixed-point length.
    pub fn length(&self) -> (r: i64)
        ensures
            r == length_s(*self),
            r >= 0,
    {
        let xx: u128 = sq_mag(self.x);
        let yy: u128 = sq_mag(self.y);
        let zz: u128 = sq_mag(self.z);
        let sum: u128 = xx + yy + zz;
        let l: u64 = isqrt(sum);
        proof {
            crate::fixed::lemma_isqrt_bounds(sum as int);
        }
        if l > i64::MAX as u64 {
            i64::MAX
        } else {
            l as i64
        }
    }

    /// The vector scaled to length one (the zero vector is returned
    /// unchanged; callers are expected to avoid it).
    pub fn unit_vector(&self) -> (r: Vec3)
        ensures
            r == unit_s(*self),
    {
        let l: i64 = self.length();
        if l <= 0 {
            Vec3 { x: 0, y: 0, z: 0 }
        } else {
            self.div_scalar(l)
        }
    }
}

/// One component of a normalized vector: the truncated quotient
/// `(|comp| * 65536) / l` lies in `[0, 65536]` and brackets the exact
/// quotient from below within one unit of `l`.
proof fn lemma_unit_comp(xi: int, l: int)
    requires
        0 <= xi <= l,
        l >= 1,
    ensures
        0 <= (xi * 65536) / l <= 65536,
        ((xi * 65536) / l) * l <= xi * 65536,
        (((xi * 65536) / l) + 1) * l > xi * 65536,
{
    let q = (xi * 65536) / l;
    vstd::arithmetic::div_mod::lemma_fundamental_div_mod(xi * 65536, l);
    vstd::arithmetic::div_mod::lemma_mod_bound(xi * 65536, l);
    assert(xi * 65536 >= 0) by (nonlinear_arith)
        requires
            xi >= 0,
    ;
    vstd::arithmetic::div_mod::lemma_div_pos_is_pos(xi * 65536, l);
    assert(q * l <= xi * 65536 && (q + 1) * l > xi * 65536) by (nonlinear_arith)
        requires
            xi * 65536 == l * q + (xi * 65536) % l,
            0 <= (xi * 65536) % l < l,
    ;
    assert(q <= 65536) by (nonlinear_arith)
        requires
            q * l <= xi * 65536,
            xi <= l,
            l >= 1,
            q >= 0,
    ;
}

/// Normalizing a vector of length at least one yields a vector whose
/// length is one, up to a truncation error of at most `4 / 65536`:
/// `1 - 4/65536 <= |unit_s(v)| <= 1` in fixed point.
pub proof fn lemma_unit_vector_length(v: Vec3)
    requires
        abs_i(v.x as int) <= 0x2000_0000_0000,
        abs_i(v.y as int) <= 0x2000_0000_0000,
        abs_i(v.z as int) <= 0x2000_0000_0000,
        length_s(v) >= ONE,
    ensures
        ONE - 4 <= length_s(unit_s(v)) <= ONE,
{
    let s = 65536int;
    let x = abs_i(v.x as int);
    let y = abs_i(v.y as int);
    let z = abs_i(v.z as int);
    let qq = raw_sq_sum(v);
    assert(x * x == v.x as int * v.x as int && y * y == v.y as int * v.y as int && z * z == v.z
        as int * v.z as int && x * x >= 0 && y * y >= 0 && z * z >= 0) by (nonlinear_arith)
        requires
            x == abs_i(v.x as int),
            y == abs_i(v.y as int),
            z == abs_i(v.z as int),
    ;
    crate::fixed::lemma_isqrt_bounds(qq);
    let l = isqrt_s(qq);
    assert(qq <= 3 * 0x2000_0000_0000 * 0x2000_0000_0000) by (nonlinear_arith)
        requires
            0 <= x <= 0x2000_0000_0000,
            0 <= y <= 0x2000_0000_0000,
            0 <= z <= 0x2000_0000_0000,
            qq == x * x + y * y + z * z,
    ;
    assert(l < 0x4000_0000_0000) by (nonlinear_arith)
        requires
            l >= 0,
            l * l <= qq,
            qq <= 3 * 0x2000_0000_0000 * 0x2000_0000_0000,
    ;
    assert(length_s(v) == l);
    assert(l >= s);

    assert(x <= l && y <= l && z <= l) by (nonlinear_arith)
        requires
            x >= 0,
            y >= 0,
            z >= 0,
            l >= 0,
            x * x >= 0,
            y * y >= 0,
            z * z >= 0,
            qq == x * x + y * y + z * z,
            qq < (l + 1) * (l + 1),
    ;

    let qx = (x * s) / l;
    let qy = (y * s) / l;
    let qz = (z * s) / l;
    lemma_unit_comp(x, l);
    lemma_unit_comp(y, l);
    lemma_unit_comp(z, l);

    let u = unit_s(v);
    assert(u == vdiv_scalar_s(v, length_s(v)));
    assert(u.x as int == crate::fixed::sgn_apply(v.x < 0, qx));
    assert(u.y as int == crate::fixed::sgn_apply(v.y < 0, qy));
    assert(u.z as int == crate::fixed::sgn_apply(v.z < 0, qz));
    let squ = raw_sq_sum(u);
    assert(squ == qx * qx + qy * qy + qz * qz) by (nonlinear_arith)
        requires
            squ == u.x as int * u.x as int + u.y as int * u.y as int + u.z as int * u.z as int,
            u.x as int == qx || u.x as int == -qx,
            u.y as int == qy || u.y as int == -qy,
            u.z as int == qz || u.z as int == -qz,
    ;

    // Upper bound: (q l)^2 <= (xi s)^2 per component, so squ l^2 <= qq s^2.
    assert(qx * qx * (l * l) <= (x * s) * (x * s) && qy * qy * (l * l) <= (y * s) * (y * s) && qz
        * qz * (l * l) <= (z * s) * (z * s)) by (nonlinear_arith)
        requires
            0 <= qx * l <= x * s,
            0 <= qy * l <= y * s,
            0 <= qz * l <= z * s,
            qx >= 0,
            qy >= 0,
            qz >= 0,
            l >= 1,
    ;
    assert(squ * (l * l) == qx * qx * (l * l) + qy * qy * (l * l) + qz * qz * (l * l))
        by (nonlinear_arith)
        requires
            squ == qx * qx + qy * qy + qz * qz,
    ;
    assert((x * s) * (x * s) == (x * x) * (s * s) && (y * s) * (y * s) == (y * y) * (s * s) && (z
        * s) * (z * s) == (z * z) * (s * s)) by (nonlinear_arith);
    assert(qq * (s * s) == (x * x) * (s * s) + (y * y) * (s * s) + (z * z) * (s * s))
        by (nonlinear_arith)
        requires
            qq == x * x + y * y + z * z,
    ;
    assert(squ * (l * l) <= qq * (s * s));
    assert(qq <= l * l + 2 * l) by (nonlinear_arith)
        requires
            qq < (l + 1) * (l + 1),
    ;
    assert((squ - s * s) * l <= 2 * (s * s)) by (nonlinear_arith)
        requires
            squ * (l * l) <= qq * (s * s),
            qq <= l * l + 2 * l,
            l >= 1,
    ;
    assert(squ <= s * s + 2 * s) by (nonlinear_arith)
        requires
            (squ - s * s) * l <= 2 * (s * s),
            l >= s,
            s == 65536,
    ;

    // Lower bound: ((q + 1) l)^2 > (xi s)^2, so (squ + 2(qx+qy+qz) + 3) l^2 > qq s^2 >= l^2 s^2.
    assert((qx + 1) * (qx + 1) * (l * l) > (x * s) * (x * s) && (qy + 1) * (qy + 1) * (l * l) > (y
        * s) * (y * s) && (qz + 1) * (qz + 1) * (l * l) > (z * s) * (z * s)) by (nonlinear_arith)
        requires
            (qx + 1) * l > x * s >= 0,
            (qy + 1) * l > y * s >= 0,
            (qz + 1) * l > z * s >= 0,
            l >= 1,
    ;
    assert((squ + 2 * (qx + qy + qz) + 3) * (l * l) == (qx + 1) * (qx + 1) * (l * l) + (qy + 1)
        * (qy + 1) * (l * l) + (qz + 1) * (qz + 1) * (l * l)) by (nonlinear_arith)
        requires
            squ == qx * qx + qy * qy + qz * qz,
    ;
    assert((squ + 2 * (qx + qy + qz) + 3) * (l * l) > qq * (s * s));
    assert(qq * (s * s) >= (l * l) * (s * s)) by (nonlinear_arith)
        requires
            qq >= l * l,
    ;
    assert(squ + 2 * (qx + qy + qz) + 3 > s * s) by (nonlinear_arith)
        requires
            (squ + 2 * (qx + qy + qz) + 3) * (l * l) > (l * l) * (s * s),
            l >= 1,
    ;
    assert(squ >= s * s - 6 * s - 2);

    crate::fixed::lemma_isqrt_bounds(squ);
    let lu = isqrt_s(squ);
    assert(lu <= s) by (nonlinear_arith)
        requires
            lu >= 0,
            lu * lu <= squ,
            squ <= s * s + 2 * s,
            s == 65536,
    ;
    assert(lu >= s - 4) by (nonlinear_arith)
        requires
            lu >= 0,
            (lu + 1) * (lu + 1) > squ,
            squ >= s * s - 6 * s - 2,
            s == 65536,
    ;
    assert(length_s(u) == lu);
}

/// The square of an `i64`, as a `u128`.
fn sq_mag(a: i64) -> (r: u128)
    ensures
        r as int == a as int * a as int,
        r <= 0x4000_0000_0000_0000_0000_0000_0000_0000u128,
{
    let m: u128 = if a >= 0 {
        a as u128
    } else {
        (-(a as i128)) as u128
    };
    proof {
        assert(m as int * m as int == a as int * a as int
            && m as int * m as int <= 0x4000_0000_0000_0000_0000_0000_0000_0000u128 as int)
            by (nonlinear_arith)
            requires
                m as int == abs_i(a as int),
                m <= 0x8000_0000_0000_0000u128,
        ;
    }
    m * m
}

} // verus!
