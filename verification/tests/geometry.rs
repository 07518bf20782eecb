//! Sphere intersection and scene aggregation scenarios.

use raytracer::fixed::{fmul, ONE};
use raytracer::hittable::{HitRecord, Sphere};
use raytracer::hittable_list::HittableList;
use raytracer::materials::{Dielectric, Lambertian, Material, Metal};
use raytracer::ray::Ray;
use raytracer::vec3::Vec3;

fn grey() -> Material {
    Material::Lambertian(Lambertian { albedo: Vec3::new(32768, 32768, 32768) })
}

#[test]
fn ray_at_center_hits_with_positive_t_and_antiparallel_normal() {
    // Origin outside, aiming straight at the center: t > 0 and the normal
    // points straight back along the ray.
    let s = Sphere { center: Vec3::new(0, 0, -3 * ONE), radius: ONE, material: grey() };
    let r = Ray::new(Vec3::new(0, 0, 0), Vec3::new(0, 0, -ONE));
    let rec = s.hit(&r, 66, i64::MAX).expect("must hit");
    assert_eq!(rec.t, 2 * ONE);
    assert!(rec.t > 0);
    assert!(rec.front_face);
    // Antiparallel to the direction (0, 0, -1): the normal is (0, 0, 1).
    assert_eq!(rec.normal, Vec3::new(0, 0, ONE));
}

#[test]
fn ray_from_inside_flips_normal() {
    let s = Sphere { center: Vec3::new(0, 0, 0), radius: ONE, material: grey() };
    let r = Ray::new(Vec3::new(0, 0, 0), Vec3::new(0, 0, ONE));
    let rec = s.hit(&r, 66, i64::MAX).expect("must hit");
    assert_eq!(rec.t, ONE);
    assert!(!rec.front_face);
    // The outward normal (0, 0, 1) is negated: oriented against the ray.
    assert_eq!(rec.normal, Vec3::new(0, 0, -ONE));
}

#[test]
fn hit_point_lies_on_the_sphere() {
    // |p - center| must equal the radius (here exactly).
    let radius: i64 = ONE;
    let s = Sphere { center: Vec3::new(0, 0, -3 * ONE), radius, material: grey() };
    let r = Ray::new(Vec3::new(0, 0, 0), Vec3::new(0, 0, -ONE));
    let rec = s.hit(&r, 66, i64::MAX).expect("must hit");
    let d = rec.p.sub_v(&s.center);
    let rr: i64 = fmul(radius, radius);
    let diff: i64 = d.squared_length() - rr;
    assert!(diff.abs() <= 4, "off-sphere by {}", diff);
}

#[test]
fn off_axis_hit_point_stays_within_tolerance() {
    // An oblique ray: the accepted point still satisfies |p - c|^2 = r^2
    // within fixed-point tolerance.
    let radius: i64 = 3 * ONE;
    let s = Sphere { center: Vec3::new(2 * ONE, ONE, -6 * ONE), radius, material: grey() };
    let r = Ray::new(Vec3::new(0, 0, 0), Vec3::new(13107, 6554, -ONE));
    let rec = s.hit(&r, 66, i64::MAX).expect("must hit");
    assert!(rec.t > 66);
    let d = rec.p.sub_v(&s.center);
    let rr: i64 = fmul(radius, radius);
    let diff: i64 = d.squared_length() - rr;
    // Each squared term truncates by at most one unit, and the accepted
    // root itself is truncated: allow a small relative error.
    assert!(diff.abs() < rr / 256, "off-sphere by {} of {}", diff, rr);
}

#[test]
fn miss_returns_none() {
    let s = Sphere { center: Vec3::new(0, 10 * ONE, -3 * ONE), radius: ONE, material: grey() };
    let r = Ray::new(Vec3::new(0, 0, 0), Vec3::new(0, 0, -ONE));
    assert!(s.hit(&r, 66, i64::MAX).is_none());
}

#[test]
fn window_excludes_hits() {
    let s = Sphere { center: Vec3::new(0, 0, -3 * ONE), radius: ONE, material: grey() };
    let r = Ray::new(Vec3::new(0, 0, 0), Vec3::new(0, 0, -ONE));
    // The hit at t = 2 is outside (t_min, t_max) = (0.001, 1.5).
    assert!(s.hit(&r, 66, 98304).is_none());
    // And outside (3, +inf): the far root t = 4 is accepted instead.
    let rec = s.hit(&r, 3 * ONE, i64::MAX).expect("far root");
    assert_eq!(rec.t, 4 * ONE);
    assert!(!rec.front_face);
}

#[test]
fn scene_returns_the_only_hit_sphere() {
    // Three spheres; the ray intersects only the middle one: the result
    // carries exactly that sphere's material and parameter.
    let lam = Material::Lambertian(Lambertian { albedo: Vec3::new(ONE, 0, 0) });
    let met = Material::Metal(Metal { albedo: Vec3::new(0, ONE, 0), fuzz: 0 });
    let gls = Material::Dielectric(Dielectric { ref_idx: 98304 });
    let world = HittableList {
        list: vec![
            Sphere { center: Vec3::new(10 * ONE, 0, -3 * ONE), radius: ONE, material: lam },
            Sphere { center: Vec3::new(0, 0, -3 * ONE), radius: ONE, material: met },
            Sphere { center: Vec3::new(-10 * ONE, 0, -3 * ONE), radius: ONE, material: gls },
        ],
    };
    let r = Ray::new(Vec3::new(0, 0, 0), Vec3::new(0, 0, -ONE));
    let rec = world.hit(&r, 66, i64::MAX).expect("must hit");
    assert_eq!(rec.t, 2 * ONE);
    assert!(matches!(rec.material, Material::Metal(_)));
}

#[test]
fn scene_prefers_strictly_smaller_t() {
    // Two overlapping spheres along the ray: the nearer intersection wins,
    // in either storage order.
    let near = Sphere {
        center: Vec3::new(0, 0, -2 * ONE),
        radius: ONE,
        material: Material::Lambertian(Lambertian { albedo: Vec3::new(ONE, 0, 0) }),
    };
    let far = Sphere {
        center: Vec3::new(0, 0, -3 * ONE),
        radius: ONE,
        material: Material::Lambertian(Lambertian { albedo: Vec3::new(0, ONE, 0) }),
    };
    let r = Ray::new(Vec3::new(0, 0, 0), Vec3::new(0, 0, -ONE));
    for world in [
        HittableList { list: vec![near, far] },
        HittableList { list: vec![far, near] },
    ] {
        let rec = world.hit(&r, 66, i64::MAX).expect("must hit");
        assert_eq!(rec.t, ONE);
        assert!(matches!(rec.material, Material::Lambertian(l) if l.albedo == Vec3::new(ONE, 0, 0)));
    }
}

#[test]
fn set_face_normal_orients_against_the_ray() {
    let mut rec = HitRecord::new(grey());
    assert_eq!(rec.t, 0);
    assert_eq!(rec.normal, Vec3::new(0, 0, 0));
    let outward = Vec3::new(0, 0, ONE);
    // Ray against the outward normal: front face, normal kept.
    rec.set_face_normal(&Ray::new(Vec3::new(0, 0, 0), Vec3::new(0, 0, -ONE)), outward);
    assert!(rec.front_face);
    assert_eq!(rec.normal, outward);
    // Ray along the outward normal: back face, normal negated.
    rec.set_face_normal(&Ray::new(Vec3::new(0, 0, 0), Vec3::new(0, 0, ONE)), outward);
    assert!(!rec.front_face);
    assert_eq!(rec.normal, Vec3::new(0, 0, -ONE));
}

#[test]
fn empty_scene_never_hits() {
    let world = HittableList { list: vec![] };
    let r = Ray::new(Vec3::new(0, 0, 0), Vec3::new(0, 0, -ONE));
    assert!(world.hit(&r, 66, i64::MAX).is_none());
}
