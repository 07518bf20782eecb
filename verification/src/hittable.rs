//! Ray-surface intersection for spheres, and the hit record the integrator
//! consumes.

use crate::fixed::{abs_i, fadd, fadd_s, fdiv, fdiv_s, fmul, fmul_s, fneg, fneg_s, fsqrt, fsqrt_s,
    fsub, fsub_s, ONE};
use crate::materials::{material_wf, Material};
use crate::ray::{point_at_s, Ray};
use crate::vec3::{dot_s, vdiv_scalar_s, vneg_s, vsub_s, Vec3};
use vstd::prelude::*;

verus! {

/// A recorded intersection: the ray parameter, the world-space point, the
/// unit normal oriented against the incoming ray, whether the front face
/// was struck, and the surface's material.
#[derive(Clone, Copy, PartialEq, Eq, Structural, Debug)]
pub struct HitRecord {
    pub t: i64,
    pub p: Vec3,
    pub normal: Vec3,
    pub front_face: bool,
    pub material: Material,
}

impl HitRecord {
    /// An empty record carrying a material, to be filled in by an
    /// intersection test.
    pub fn new(material: Material) -> (r: HitRecord)
        ensures
            r == (HitRecord {
                t: 0,
                p: crate::vec3::vzero_s(),
                normal: crate::vec3::vzero_s(),
                front_face: true,
                material,
            }),
    {
        HitRecord {
            t: 0,
            p: Vec3 { x: 0, y: 0, z: 0 },
            normal: Vec3 { x: 0, y: 0, z: 0 },
            front_face: true,
            material,
        }
    }

    /// Orient `outward_normal` against the ray: kept as-is on a front-face
    /// strike, negated when the ray comes from inside.
    pub fn set_face_normal(&mut self, r: &Ray, outward_normal: Vec3)
        ensures
            final(self).front_face == (dot_s(r.direction, outward_normal) < 0),
            final(self).normal == if dot_s(r.direction, outward_normal) < 0 {
                outward_normal
            } else {
                vneg_s(outward_normal)
            },
            final(self).t == old(self).t,
            final(self).p == old(self).p,
            final(self).material == old(self).material,
    {
        let front_face: bool = r.direction.dot(&outward_normal) < 0;
        self.front_face = front_face;
        self.normal = if front_face {
            outward_normal
        } else {
            outward_normal.neg_v()
        };
    }
}

/// A sphere with a center, a positive radius and a surface material.
#[derive(Clone, Copy, PartialEq, Eq, Structural, Debug)]
pub struct Sphere {
    pub center: Vec3,
    pub radius: i64,
    pub material: Material,
}

/// A well-formed sphere: positive radius, material parameters in their
/// documented domains.
pub open spec fn sphere_wf(s: Sphere) -> bool {
    s.radius > 0 && material_wf(s.material)
}

/// The record an accepted root `t` produces: the hit point, the outward
/// normal `(p - center) / radius` oriented against the ray, and the face
/// flag the dielectric material reads.
pub open spec fn make_hit_s(sph: Sphere, r: Ray, t: i64) -> HitRecord {
    let p = point_at_s(r, t);
    let outward = vdiv_scalar_s(vsub_s(p, sph.center), sph.radius);
    let front = dot_s(r.direction, outward) < 0;
    HitRecord {
        t,
        p,
        normal: if front {
            outward
        } else {
            vneg_s(outward)
        },
        front_face: front,
        material: sph.material,
    }
}

/// What the sphere intersection returns: the quadratic
/// `|origin + t dir - center|^2 = radius^2` is solved; the smaller root is
/// accepted if strictly inside `(t_min, t_max)`, else the larger root under
/// the same bound, else no hit.  A nonpositive discriminant, or a direction
/// whose squared length truncates to zero, is no hit.
pub open spec fn sphere_hit_s(sph: Sphere, r: Ray, t_min: i64, t_max: i64) -> Option<HitRecord> {
    let oc = vsub_s(r.origin, sph.center);
    let a = dot_s(r.direction, r.direction);
    let half_b = dot_s(oc, r.direction);
    let c = fsub_s(dot_s(oc, oc), fmul_s(sph.radius, sph.radius));
    let discriminant = fsub_s(fmul_s(half_b, half_b), fmul_s(a, c));
    if discriminant > 0 && a > 0 {
        let root = fsqrt_s(discriminant);
        let t1 = fdiv_s(fsub_s(fneg_s(half_b), root), a);
        if t_min < t1 && t1 < t_max {
            Some(make_hit_s(sph, r, t1))
        } else {
            let t2 = fdiv_s(fadd_s(fneg_s(half_b), root), a);
            if t_min < t2 && t2 < t_max {
                Some(make_hit_s(sph, r, t2))
            } else {
                None
            }
        }
    } else {
        None
    }
}

/// The scaled square of a moderate value: its floor bracket, range, and
/// that it is unchanged by negating the argument.
proof fn lemma_sq_bracket(p: i64)
    requires
        abs_i(p as int) <= 0x40_0000_0000,
    ensures
        0 <= fmul_s(p, p) as int <= 0x1000_0000_0000_0000,
        fmul_s(p, p) as int * 65536 <= p as int * p as int,
        (fmul_s(p, p) as int + 1) * 65536 > p as int * p as int,
{
    let m = abs_i(p as int);
    assert(m == p as int || m == -(p as int));
    assert(m * m == p as int * p as int && 0 <= m * m <= 0x40_0000_0000 * 0x40_0000_0000)
        by (nonlinear_arith)
        requires
            m == p as int || m == -(p as int),
            0 <= m <= 0x40_0000_0000,
    ;
    let q = (m * m) / 65536;
    vstd::arithmetic::div_mod::lemma_fundamental_div_mod(m * m, 65536);
    vstd::arithmetic::div_mod::lemma_mod_bound(m * m, 65536);
    vstd::arithmetic::div_mod::lemma_div_pos_is_pos(m * m, 65536);
    assert(q * 65536 <= m * m && (q + 1) * 65536 > m * m) by (nonlinear_arith)
        requires
            m * m == 65536 * q + (m * m) % 65536,
            0 <= (m * m) % 65536 < 65536,
    ;
    assert(q <= 0x1000_0000_0000_0000) by (nonlinear_arith)
        requires
            q * 65536 <= m * m,
            m * m <= 0x40_0000_0000 * 0x40_0000_0000,
    ;
}

/// Negating one factor negates the scaled product exactly, and negating
/// both leaves it unchanged.
proof fn lemma_mul_neg(p: i64, n: i64)
    requires
        n as int == -(p as int),
        abs_i(p as int) <= 0x40_0000_0000,
    ensures
        fmul_s(n, p) as int == -(fmul_s(p, p) as int),
        fmul_s(n, n) == fmul_s(p, p),
{
    lemma_sq_bracket(p);
    let m = abs_i(p as int);
    assert(abs_i(n as int) == m);
    let q = (m * m) / 65536;
    assert(fmul_s(p, p) as int == q);
    if p > 0 {
        assert(n < 0);
        assert(fmul_s(n, p) as int == -q);
    } else if p < 0 {
        assert(n > 0);
        assert(fmul_s(n, p) as int == -q);
    } else {
        assert(m == 0);
        assert(m * m == 0) by (nonlinear_arith)
            requires
                m == 0,
        ;
        assert(fmul_s(n, p) as int == 0);
    }
}

/// A ray aimed from well outside a sphere straight at its center hits it,
/// and the accepted parameter exceeds a third of a unit — in particular it
/// is positive and beyond the integrator's acne epsilon.  The magnitude
/// bounds keep every intermediate exact, and the factor-two distance
/// margin keeps the discriminant positive under truncation; near the
/// boundary or at sub-unit radii truncation can lose the root.
pub proof fn lemma_aimed_ray_hits(o: Vec3, c: Vec3, r: i64, m: Material, t_min: i64, t_max: i64)
    requires
        abs_i(o.x as int) <= 0x200_0000,
        abs_i(o.y as int) <= 0x200_0000,
        abs_i(o.z as int) <= 0x200_0000,
        abs_i(c.x as int) <= 0x200_0000,
        abs_i(c.y as int) <= 0x200_0000,
        abs_i(c.z as int) <= 0x200_0000,
        ONE <= r,
        4 * (r as int * r as int) <= (c.x as int - o.x as int) * (c.x as int - o.x as int) + (c.y
            as int - o.y as int) * (c.y as int - o.y as int) + (c.z as int - o.z as int) * (c.z
            as int - o.z as int),
        0 <= t_min < 16384,
        ONE < t_max,
    ensures
        ({
            let ray = Ray { origin: o, direction: vsub_s(c, o) };
            let sph = Sphere { center: c, radius: r, material: m };
            &&& sphere_hit_s(sph, ray, t_min, t_max) is Some
            &&& sphere_hit_s(sph, ray, t_min, t_max)->0.t > t_min
            &&& sphere_hit_s(sph, ray, t_min, t_max)->0.t > 0
        }),
{
    let s = 65536int;
    let ray = Ray { origin: o, direction: vsub_s(c, o) };
    let sph = Sphere { center: c, radius: r, material: m };
    let dx = c.x as int - o.x as int;
    let dy = c.y as int - o.y as int;
    let dz = c.z as int - o.z as int;
    let dd = dx * dx + dy * dy + dz * dz;
    let dir = vsub_s(c, o);
    let oc = vsub_s(ray.origin, sph.center);
    assert(dir.x as int == dx && dir.y as int == dy && dir.z as int == dz);
    assert(oc.x as int == -dx && oc.y as int == -dy && oc.z as int == -dz);

    // Component squares and their sign-symmetric products.
    lemma_sq_bracket(dir.x);
    lemma_sq_bracket(dir.y);
    lemma_sq_bracket(dir.z);
    lemma_mul_neg(dir.x, oc.x);
    lemma_mul_neg(dir.y, oc.y);
    lemma_mul_neg(dir.z, oc.z);
    let q1 = fmul_s(dir.x, dir.x) as int;
    let q2 = fmul_s(dir.y, dir.y) as int;
    let q3 = fmul_s(dir.z, dir.z) as int;
    assert(dx * dx <= 0x400_0000 * 0x400_0000 && dy * dy <= 0x400_0000 * 0x400_0000 && dz * dz
        <= 0x400_0000 * 0x400_0000) by (nonlinear_arith)
        requires
            abs_i(dx) <= 0x400_0000 && abs_i(dy) <= 0x400_0000 && abs_i(dz) <= 0x400_0000,
    ;
    assert(q1 <= 0x10_0000_0000 && q2 <= 0x10_0000_0000 && q3 <= 0x10_0000_0000);
    assert(dd <= 3 * (0x400_0000 * 0x400_0000));

    let a = dot_s(dir, dir) as int;
    assert(a == q1 + q2 + q3);
    let hb = dot_s(oc, dir);
    assert(hb as int == -a);
    assert(dot_s(oc, oc) as int == a);
    assert(a * s <= dd && (a + 3) * s > dd);

    // The scaled square of the radius.
    let r2 = fmul_s(r, r) as int;
    assert(r as int * r as int <= dd) by (nonlinear_arith)
        requires
            4 * (r as int * r as int) <= dd,
            ONE <= r,
    ;
    assert(r as int <= 0x400_0000) by (nonlinear_arith)
        requires
            4 * (r as int * r as int) <= dd,
            dd <= 3 * (0x400_0000 * 0x400_0000),
            r as int >= 1,
    ;
    lemma_sq_bracket(r);
    assert(r2 >= s) by {
        assert(r as int * r as int >= s * s) by (nonlinear_arith)
            requires
                r >= 65536,
                s == 65536,
        ;
        assert((r2 + 1) * s > s * s);
    }
    // a exceeds four times the scaled radius square, up to truncation.
    assert(4 * r2 * s <= 4 * (r as int * r as int)) by (nonlinear_arith)
        requires
            r2 * s <= r as int * r as int,
    ;
    assert(4 * r2 * s < (a + 3) * s);
    assert(4 * r2 < a + 3);
    assert(a >= 4 * r2 - 2);
    assert(a >= 4 * s - 2);

    // The linear coefficient of the quadratic.
    let ct_i64 = fsub_s(dot_s(oc, oc), fmul_s(sph.radius, sph.radius));
    let ct = ct_i64 as int;
    assert(ct == a - r2);
    assert(ct >= 3 * r2 - 2 && ct <= a);

    // The discriminant bracket.
    let hb2 = fmul_s(hb, hb) as int;
    lemma_sq_bracket(hb);
    assert(hb as int * hb as int == a * a) by (nonlinear_arith)
        requires
            hb as int == -a,
    ;
    let ac = fmul_s(dot_s(dir, dir), ct_i64) as int;
    let aq = a * ct;
    assert(0 <= aq <= 0x30_0000_0000 * 0x30_0000_0000) by (nonlinear_arith)
        requires
            aq == a * ct,
            0 <= ct <= a,
            a <= 0x30_0000_0000,
    ;
    vstd::arithmetic::div_mod::lemma_fundamental_div_mod(aq, 65536);
    vstd::arithmetic::div_mod::lemma_mod_bound(aq, 65536);
    vstd::arithmetic::div_mod::lemma_div_pos_is_pos(aq, 65536);
    assert((aq / 65536) * 65536 <= aq && (aq / 65536 + 1) * 65536 > aq) by (nonlinear_arith)
        requires
            aq == 65536 * (aq / 65536) + aq % 65536,
            0 <= aq % 65536 < 65536,
    ;
    assert(aq / 65536 <= 0x1000_0000_0000_0000) by (nonlinear_arith)
        requires
            (aq / 65536) * 65536 <= aq,
            aq <= 0x30_0000_0000 * 0x30_0000_0000,
    ;
    assert(ac == aq / 65536);
    assert(a * a - aq == a * r2) by (nonlinear_arith)
        requires
            ct == a - r2,
            aq == a * ct,
    ;
    let disc_i64 = fsub_s(fmul_s(hb, hb), fmul_s(dot_s(dir, dir), ct_i64));
    let disc = disc_i64 as int;
    assert(disc == hb2 - ac);
    assert(a * r2 >= a * s) by (nonlinear_arith)
        requires
            r2 >= s,
            a >= 0,
    ;
    assert(disc * s > a * r2 - 2 * s) by (nonlinear_arith)
        requires
            disc == hb2 - ac,
            hb2 * s <= a * a,
            (hb2 + 1) * s > a * a,
            ac * s <= aq,
            (ac + 1) * s > aq,
            a * a - aq == a * r2,
    ;
    assert(disc * s < a * r2 + s) by (nonlinear_arith)
        requires
            disc == hb2 - ac,
            hb2 * s <= a * a,
            ac * s <= aq,
            (ac + 1) * s > aq,
            a * a - aq == a * r2,
    ;
    assert(disc > a - 2) by (nonlinear_arith)
        requires
            disc * s > a * s - 2 * s,
            s == 65536,
    ;
    assert(disc > 0);

    // The square root of the discriminant stays below two thirds of a.
    let root_i64 = fsqrt_s(disc_i64);
    crate::fixed::lemma_isqrt_bounds(disc * s);
    let rt = crate::fixed::isqrt_s(disc * s);
    assert(rt >= 0 && rt * rt <= disc * s);
    assert(rt * rt <= 0x40_0000_0000 * 0x40_0000_0000) by (nonlinear_arith)
        requires
            rt * rt <= disc * s,
            disc * s < a * r2 + s,
            a <= 0x30_0000_0000,
            0 <= r2 <= 0x10_0000_0000,
            s == 65536,
            a >= 0,
    ;
    assert(rt <= 0x40_0000_0000) by (nonlinear_arith)
        requires
            rt >= 0,
            rt * rt <= 0x40_0000_0000 * 0x40_0000_0000,
    ;
    assert(root_i64 as int == rt);
    assert(4 * r2 <= a + 2);
    assert((3 * rt) * (3 * rt) < (2 * a) * (2 * a)) by (nonlinear_arith)
        requires
            rt * rt <= disc * s,
            disc * s < a * r2 + s,
            4 * r2 <= a + 2,
            a >= 4 * s - 2,
            s == 65536,
    ;
    assert(3 * rt < 2 * a) by (nonlinear_arith)
        requires
            rt >= 0,
            a >= 0,
            (3 * rt) * (3 * rt) < (2 * a) * (2 * a),
    ;

    // The nearer root: at least a third of a unit, at most one unit.
    let num_i64 = fsub_s(fneg_s(hb), root_i64);
    let num = num_i64 as int;
    assert(fneg_s(hb) as int == a);
    assert(num == a - rt);
    assert(3 * num >= a);
    let t1_i64 = fdiv_s(num_i64, dot_s(dir, dir));
    assert(num * s >= 21845 * a + 1) by (nonlinear_arith)
        requires
            3 * num >= a,
            a >= 1,
            s == 65536,
    ;
    vstd::arithmetic::div_mod::lemma_div_is_ordered(21845 * a, num * s, a);
    vstd::arithmetic::div_mod::lemma_div_multiples_vanish(21845, a);
    assert((num * s) / a >= 21845);
    assert(num * s <= a * s) by (nonlinear_arith)
        requires
            num <= a,
            s == 65536,
    ;
    vstd::arithmetic::div_mod::lemma_div_is_ordered(num * s, a * s, a);
    vstd::arithmetic::div_mod::lemma_div_multiples_vanish(s, a);
    assert(a * s == s * a) by (nonlinear_arith);
    assert((num * s) / a <= s);
    assert(t1_i64 as int == (num * s) / a);

    // The nearer root is accepted: the search returns it.
    assert(t_min < t1_i64 && t1_i64 < t_max);
    assert(sphere_hit_s(sph, ray, t_min, t_max) == Some(make_hit_s(sph, ray, t1_i64)));
}

/// An accepted hit carries the sphere's own material.
pub proof fn lemma_sphere_hit_material(sph: Sphere, r: Ray, t_min: i64, t_max: i64)
    requires
        sphere_hit_s(sph, r, t_min, t_max) is Some,
    ensures
        sphere_hit_s(sph, r, t_min, t_max)->0.material == sph.material,
{
}

impl Sphere {
    /// The nearest intersection of `r` with this sphere whose parameter
    /// lies strictly inside `(t_min, t_max)`.
    pub fn hit(&self, r: &Ray, t_min: i64, t_max: i64) -> (res: Option<HitRecord>)
        requires
            self.radius != 0,
        ensures
            res == sphere_hit_s(*self, *r, t_min, t_max),
    {
        let oc = r.origin.sub_v(&self.center);
        let a: i64 = r.direction.dot(&r.direction);
        let half_b: i64 = oc.dot(&r.direction);
        let c: i64 = fsub(oc.dot(&oc), fmul(self.radius, self.radius));
        let discriminant: i64 = fsub(fmul(half_b, half_b), fmul(a, c));

        if discriminant > 0 && a > 0 {
            let root: i64 = fsqrt(discriminant);
            let temp: i64 = fdiv(fsub(fneg(half_b), root), a);
            if t_min < temp && temp < t_max {
                return Some(self.make_hit(r, temp));
            }
            let temp: i64 = fdiv(fadd(fneg(half_b), root), a);
            if t_min < temp && temp < t_max {
                return Some(self.make_hit(r, temp));
            }
        }

        None
    }

    /// Build the record for an accepted root.
    fn make_hit(&self, r: &Ray, t: i64) -> (rec: HitRecord)
        requires
            self.radius != 0,
        ensures
            rec == make_hit_s(*self, *r, t),
    {
        let p = r.point_at_parameter(t);
        let mut rec = HitRecord {
            t,
            p,
            normal: Vec3 { x: 0, y: 0, z: 0 },
            front_face: true,
            material: self.material,
        };
        let outward_normal = p.sub_v(&self.center).div_scalar(self.radius);
        rec.set_face_normal(r, outward_normal);
        rec
    }
}

} // verus!
