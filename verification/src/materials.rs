//! Surface materials: diffuse (Lambertian), reflective (Metal) and
//! refractive (Dielectric) scattering.
//!
//! Each material maps an incoming ray and a hit record to either an
//! absorbed ray (`None`) or a scattered ray with a per-channel attenuation.
//! Every branch is mirrored by a spec function, so the result — including
//! the generator state after the material's random draws — is a function of
//! the inputs.

use crate::fixed::{
    fadd, fadd_s, fdiv, fdiv_s, fmin, fmin_s, fmul, fmul_s, fsqrt, fsqrt_s, fsub, fsub_s, ONE, TWO,
};
use crate::hittable::HitRecord;
use crate::ray::Ray;
use crate::rng::{draw_unit_s, Rng};
use crate::sampling::{
    random_in_unit_sphere, random_unit_vector, sample_sphere_s, unit_vector_draw_s,
};
use crate::vec3::{dot_s, unit_s, vadd_s, vneg_s, vscale_s, vsub_s, Vec3};
use vstd::prelude::*;

verus! {

/// The result of a material interaction: a multiplicative color factor and
/// the scattered ray.
#[derive(Clone, Copy, PartialEq, Eq, Structural, Debug)]
pub struct Scatter {
    pub attenuation: Vec3,
    pub ray: Ray,
}

/// A diffuse surface with a per-channel albedo in `[0, 1]`.
#[derive(Clone, Copy, PartialEq, Eq, Structural, Debug)]
pub struct Lambertian {
    pub albedo: Vec3,
}

/// A reflective surface with an albedo in `[0, 1]` and a roughness
/// (`fuzz`) in `[0, 1]`.
#[derive(Clone, Copy, PartialEq, Eq, Structural, Debug)]
pub struct Metal {
    pub albedo: Vec3,
    pub fuzz: i64,
}

/// A colorless refractive surface with a positive refractive index.
#[derive(Clone, Copy, PartialEq, Eq, Structural, Debug)]
pub struct Dielectric {
    pub ref_idx: i64,
}

/// The closed set of materials a surface can carry.
#[derive(Clone, Copy, PartialEq, Eq, Structural, Debug)]
pub enum Material {
    Lambertian(Lambertian),
    Metal(Metal),
    Dielectric(Dielectric),
}

/// The documented domain of each material's parameters: albedo channels in
/// `[0, 1]`, fuzz in `[0, 1]`, refractive index positive.
pub open spec fn material_wf(m: Material) -> bool {
    match m {
        Material::Lambertian(l) => 0 <= l.albedo.x <= ONE && 0 <= l.albedo.y <= ONE && 0
            <= l.albedo.z <= ONE,
        Material::Metal(mt) => 0 <= mt.albedo.x <= ONE && 0 <= mt.albedo.y <= ONE && 0
            <= mt.albedo.z <= ONE && 0 <= mt.fuzz <= ONE,
        Material::Dielectric(d) => d.ref_idx > 0,
    }
}

/// The mirror reflection of `v` about the normal `n`: `v - 2 (v . n) n`.
pub open spec fn reflect_s(v: Vec3, n: Vec3) -> Vec3 {
    vsub_s(v, vscale_s(fmul_s(TWO, dot_s(v, n)), n))
}

/// The mirror reflection of `v` about the normal `n`.
pub fn reflect(v: &Vec3, n: &Vec3) -> (r: Vec3)
    ensures
        r == reflect_s(*v, *n),
{
    v.sub_v(&n.scale(fmul(TWO, v.dot(n))))
}

/// Snell refraction of the unit direction `uv` at normal `n` with index
/// ratio `etai_over_etat`, split into parallel and perpendicular parts.
/// The radicand is clamped at zero where rounding would push it below.
pub open spec fn refract_s(uv: Vec3, n: Vec3, etai_over_etat: i64) -> Vec3 {
    let cos_theta = dot_s(vneg_s(uv), n);
    let r_out_parallel = vscale_s(etai_over_etat, vadd_s(vscale_s(cos_theta, n), uv));
    let k = fsub_s(ONE, crate::vec3::squared_length_s(r_out_parallel));
    let k0 = if k < 0 {
        0i64
    } else {
        k
    };
    let r_out_perp = vscale_s(crate::fixed::fneg_s(fsqrt_s(k0)), n);
    vadd_s(r_out_parallel, r_out_perp)
}

/// Snell refraction of the unit direction `uv` at normal `n`.
pub fn refract(uv: &Vec3, n: &Vec3, etai_over_etat: i64) -> (r: Vec3)
    ensures
        r == refract_s(*uv, *n, etai_over_etat),
{
    let cos_theta: i64 = uv.neg_v().dot(n);
    let r_out_parallel = n.scale(cos_theta).add_v(uv).scale(etai_over_etat);
    let k: i64 = fsub(ONE, r_out_parallel.squared_length());
    let k0: i64 = if k < 0 {
        0i64
    } else {
        k
    };
    let r_out_perp = n.scale(crate::fixed::fneg(fsqrt(k0)));
    r_out_parallel.add_v(&r_out_perp)
}

/// The Schlick approximation of the reflectance at angle `cosine` for the
/// given index ratio: `r0 + (1 - r0)(1 - cosine)^5`, `r0 = ((1-r)/(1+r))^2`.
pub open spec fn schlick_s(cosine: i64, ratio: i64) -> i64 {
    let r0_base = fdiv_s(fsub_s(ONE, ratio), fadd_s(ONE, ratio));
    let r0 = fmul_s(r0_base, r0_base);
    let m = fsub_s(ONE, cosine);
    let m2 = fmul_s(m, m);
    let m4 = fmul_s(m2, m2);
    let m5 = fmul_s(m4, m);
    fadd_s(r0, fmul_s(fsub_s(ONE, r0), m5))
}

/// The Schlick reflectance approximation.
pub fn schlick(cosine: i64, ratio: i64) -> (r: i64)
    requires
        ratio >= 0,
    ensures
        r == schlick_s(cosine, ratio),
{
    let denom: i64 = fadd(ONE, ratio);
    let r0_base: i64 = fdiv(fsub(ONE, ratio), denom);
    let r0: i64 = fmul(r0_base, r0_base);
    let m: i64 = fsub(ONE, cosine);
    let m2: i64 = fmul(m, m);
    let m4: i64 = fmul(m2, m2);
    let m5: i64 = fmul(m4, m);
    fadd(r0, fmul(fsub(ONE, r0), m5))
}

/// What a diffuse surface scatters: a ray from the hit point along
/// `normal + (uniform unit direction)`, attenuated by the albedo.
#[verifier::opaque]
pub open spec fn lambertian_scatter_s(albedo: Vec3, rec: HitRecord, s: u64) -> (
    Option<Scatter>,
    u64,
) {
    let (u, s1) = unit_vector_draw_s(s);
    (
        Some(
            Scatter {
                attenuation: albedo,
                ray: Ray { origin: rec.p, direction: vadd_s(u, rec.normal) },
            },
        ),
        s1,
    )
}

/// What a reflective surface scatters: the mirrored unit direction,
/// perturbed by `fuzz` times a point in the unit ball; absorbed when the
/// perturbed direction no longer leaves the surface.
#[verifier::opaque]
pub open spec fn metal_scatter_s(albedo: Vec3, fuzz: i64, r_in: Ray, rec: HitRecord, s: u64) -> (
    Option<Scatter>,
    u64,
) {
    let reflected = reflect_s(unit_s(r_in.direction), rec.normal);
    let (sp, s1) = sample_sphere_s(s);
    let dir = vadd_s(reflected, vscale_s(fuzz, sp));
    if dot_s(dir, rec.normal) > 0 {
        (Some(Scatter { attenuation: albedo, ray: Ray { origin: rec.p, direction: dir } }), s1)
    } else {
        (None, s1)
    }
}

/// What a refractive surface scatters: reflection on total internal
/// reflection or a Schlick-probability draw, refraction otherwise; the
/// attenuation is always `(1, 1, 1)`.
#[verifier::opaque]
pub open spec fn dielectric_scatter_s(ref_idx: i64, r_in: Ray, rec: HitRecord, s: u64) -> (
    Option<Scatter>,
    u64,
) {
    let etai_over_etat = if rec.front_face {
        fdiv_s(ONE, ref_idx)
    } else {
        ref_idx
    };
    let unit_direction = unit_s(r_in.direction);
    let cos_theta = fmin_s(dot_s(vneg_s(unit_direction), rec.normal), ONE);
    let k = fsub_s(ONE, fmul_s(cos_theta, cos_theta));
    let k0 = if k < 0 {
        0i64
    } else {
        k
    };
    let sin_theta = fsqrt_s(k0);
    let (draw, s1) = draw_unit_s(s);
    let reflect_prob = schlick_s(cos_theta, etai_over_etat);
    let dir = if fmul_s(etai_over_etat, sin_theta) > ONE || draw < reflect_prob {
        reflect_s(unit_direction, rec.normal)
    } else {
        refract_s(unit_direction, rec.normal, etai_over_etat)
    };
    (
        Some(
            Scatter {
                attenuation: Vec3 { x: ONE, y: ONE, z: ONE },
                ray: Ray { origin: rec.p, direction: dir },
            },
        ),
        s1,
    )
}

/// What a material scatters, dispatched over the closed variant set.
pub open spec fn material_scatter_s(m: Material, r_in: Ray, rec: HitRecord, s: u64) -> (
    Option<Scatter>,
    u64,
) {
    match m {
        Material::Lambertian(l) => lambertian_scatter_s(l.albedo, rec, s),
        Material::Metal(mt) => metal_scatter_s(mt.albedo, mt.fuzz, r_in, rec, s),
        Material::Dielectric(d) => dielectric_scatter_s(d.ref_idx, r_in, rec, s),
    }
}

/// A perfectly smooth metal surface (fuzz 0) scatters, when it scatters
/// at all, exactly along the geometric reflection of the unit incoming
/// direction — the random perturbation vanishes; and it scatters exactly
/// when that reflection points away from the surface.
pub proof fn lemma_metal_mirror(albedo: Vec3, r_in: Ray, rec: HitRecord, s: u64)
    ensures
        metal_scatter_s(albedo, 0, r_in, rec, s).0 matches Some(sc) ==> sc.ray.direction
            == reflect_s(unit_s(r_in.direction), rec.normal),
        metal_scatter_s(albedo, 0, r_in, rec, s).0 is Some <==> dot_s(
            reflect_s(unit_s(r_in.direction), rec.normal),
            rec.normal,
        ) > 0,
{
    reveal(metal_scatter_s);
    let reflected = reflect_s(unit_s(r_in.direction), rec.normal);
    let (sp, s1) = sample_sphere_s(s);
    crate::fixed::lemma_fmul_zero_left(sp.x);
    crate::fixed::lemma_fmul_zero_left(sp.y);
    crate::fixed::lemma_fmul_zero_left(sp.z);
    assert(vadd_s(reflected, vscale_s(0, sp)) == reflected);
}

/// A dielectric surface always scatters, and its attenuation is
/// `(1, 1, 1)` whichever branch — reflection or refraction — is taken.
pub proof fn lemma_dielectric_attenuation(ref_idx: i64, r_in: Ray, rec: HitRecord, s: u64)
    ensures
        dielectric_scatter_s(ref_idx, r_in, rec, s).0 is Some,
        dielectric_scatter_s(ref_idx, r_in, rec, s).0->0.attenuation == (Vec3 {
            x: ONE,
            y: ONE,
            z: ONE,
        }),
{
    reveal(dielectric_scatter_s);
}

impl Lambertian {
    /// Diffuse scattering; always succeeds.
    pub fn scatter(&self, _r_in: &Ray, rec: &HitRecord, rng: &mut Rng) -> (res: Option<Scatter>)
        ensures
            res == lambertian_scatter_s(self.albedo, *rec, old(rng).state).0,
            final(rng).state == lambertian_scatter_s(self.albedo, *rec, old(rng).state).1,
    {
        proof {
            reveal(lambertian_scatter_s);
        }
        let u = random_unit_vector(rng);
        let scatter_direction = u.add_v(&rec.normal);
        Some(Scatter { attenuation: self.albedo, ray: Ray::new(rec.p, scatter_direction) })
    }
}

impl Metal {
    /// A reflective surface from its albedo and roughness.
    pub fn new(albedo: Vec3, fuzz: i64) -> (m: Metal)
        ensures
            m == (Metal { albedo, fuzz }),
    {
        Metal { albedo, fuzz }
    }

    /// Fuzzy mirror scattering; absorbed when the perturbed reflection
    /// points into the surface.
    pub fn scatter(&self, r_in: &Ray, rec: &HitRecord, rng: &mut Rng) -> (res: Option<Scatter>)
        ensures
            res == metal_scatter_s(self.albedo, self.fuzz, *r_in, *rec, old(rng).state).0,
            final(rng).state == metal_scatter_s(
                self.albedo,
                self.fuzz,
                *r_in,
                *rec,
                old(rng).state,
            ).1,
    {
        proof {
            reveal(metal_scatter_s);
        }
        let reflected = reflect(&r_in.direction.unit_vector(), &rec.normal);
        let sp = random_in_unit_sphere(rng);
        let dir = reflected.add_v(&sp.scale(self.fuzz));
        if dir.dot(&rec.normal) > 0 {
            Some(Scatter { attenuation: self.albedo, ray: Ray::new(rec.p, dir) })
        } else {
            None
        }
    }
}

impl Dielectric {
    /// A refractive surface from its refractive index.
    pub fn new(ref_idx: i64) -> (d: Dielectric)
        ensures
            d == (Dielectric { ref_idx }),
    {
        Dielectric { ref_idx }
    }

    /// Refractive scattering; always succeeds, with attenuation `(1, 1, 1)`.
    pub fn scatter(&self, r_in: &Ray, rec: &HitRecord, rng: &mut Rng) -> (res: Option<Scatter>)
        requires
            self.ref_idx > 0,
        ensures
            res == dielectric_scatter_s(self.ref_idx, *r_in, *rec, old(rng).state).0,
            final(rng).state == dielectric_scatter_s(self.ref_idx, *r_in, *rec, old(rng).state).1,
    {
        proof {
            reveal(dielectric_scatter_s);
        }
        let etai_over_etat: i64 = if rec.front_face {
            fdiv(ONE, self.ref_idx)
        } else {
            self.ref_idx
        };
        let unit_direction = r_in.direction.unit_vector();
        let cos_theta: i64 = fmin(unit_direction.neg_v().dot(&rec.normal), ONE);
        let k: i64 = fsub(ONE, fmul(cos_theta, cos_theta));
        let k0: i64 = if k < 0 {
            0i64
        } else {
            k
        };
        let sin_theta: i64 = fsqrt(k0);
        let draw: i64 = rng.next_unit();
        let reflect_prob: i64 = schlick(cos_theta, etai_over_etat);
        let dir = if fmul(etai_over_etat, sin_theta) > ONE || draw < reflect_prob {
            reflect(&unit_direction, &rec.normal)
        } else {
            refract(&unit_direction, &rec.normal, etai_over_etat)
        };
        Some(Scatter { attenuation: Vec3 { x: ONE, y: ONE, z: ONE }, ray: Ray::new(rec.p, dir) })
    }
}

impl Material {
    /// Scattering, dispatched over the variant of this material.
    pub fn scatter(&self, r_in: &Ray, rec: &HitRecord, rng: &mut Rng) -> (res: Option<Scatter>)
        requires
            material_wf(*self),
        ensures
            res == material_scatter_s(*self, *r_in, *rec, old(rng).state).0,
            final(rng).state == material_scatter_s(*self, *r_in, *rec, old(rng).state).1,
    {
        match self {
            Material::Lambertian(l) => l.scatter(r_in, rec, rng),
            Material::Metal(mt) => mt.scatter(r_in, rec, rng),
            Material::Dielectric(d) => d.scatter(r_in, rec, rng),
        }
    }
}

} // verus!
