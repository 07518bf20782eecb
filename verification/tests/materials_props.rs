//! Material scattering behavior: mirror metal, dielectric attenuation,
//! diffuse scattering.

use raytracer::fixed::ONE;
use raytracer::hittable::HitRecord;
use raytracer::materials::{reflect, Dielectric, Lambertian, Material, Metal};
use raytracer::ray::Ray;
use raytracer::rng::Rng;
use raytracer::vec3::Vec3;

fn rec_with(normal: Vec3, front_face: bool, material: Material) -> HitRecord {
    HitRecord { t: ONE, p: Vec3::new(0, 0, 0), normal, front_face, material }
}

#[test]
fn metal_fuzz_zero_reflects_exactly() {
    // A smooth metal must scatter exactly along the geometric reflection,
    // with no random perturbation.
    let m = Metal::new(Vec3::new(45875, 39322, 32768), 0);
    let n = Vec3::new(0, 0, ONE);
    let rec = rec_with(n, true, Material::Metal(m));
    let r_in = Ray::new(Vec3::new(0, ONE, ONE), Vec3::new(ONE, 0, -ONE));
    let mut rng = Rng::new(1);
    let sc = m.scatter(&r_in, &rec, &mut rng).expect("must scatter");
    let expected = reflect(&r_in.direction.unit_vector(), &n);
    assert_eq!(sc.ray.direction, expected);
    assert_eq!(sc.ray.direction, Vec3::new(46341, 0, 46341));
    assert_eq!(sc.attenuation, m.albedo);
    assert_eq!(sc.ray.origin, rec.p);
}

#[test]
fn metal_absorbs_grazing_reflection() {
    // A reflection that does not leave the surface is absorbed.
    let m = Metal::new(Vec3::new(ONE, ONE, ONE), 0);
    let n = Vec3::new(0, 0, ONE);
    let rec = rec_with(n, true, Material::Metal(m));
    // Incoming along the normal from behind: the reflection points inward.
    let r_in = Ray::new(Vec3::new(0, 0, 0), Vec3::new(0, 0, ONE));
    let mut rng = Rng::new(1);
    assert!(m.scatter(&r_in, &rec, &mut rng).is_none());
}

#[test]
fn dielectric_attenuation_is_white_on_refract() {
    // Head-on entry: the refraction branch (or a Schlick reflection) is
    // taken; either way the attenuation is exactly (1, 1, 1).
    let d = Dielectric::new(98304);
    let rec = rec_with(Vec3::new(0, 0, ONE), true, Material::Dielectric(d));
    let r_in = Ray::new(Vec3::new(0, 0, ONE), Vec3::new(0, 0, -ONE));
    let mut rng = Rng::new(3);
    let sc = d.scatter(&r_in, &rec, &mut rng).expect("dielectric always scatters");
    assert_eq!(sc.attenuation, Vec3::new(ONE, ONE, ONE));
}

#[test]
fn dielectric_attenuation_is_white_on_total_internal_reflection() {
    // Grazing exit from inside glass: total internal reflection.
    let d = Dielectric::new(98304);
    let rec = rec_with(Vec3::new(0, 0, ONE), false, Material::Dielectric(d));
    let r_in = Ray::new(Vec3::new(0, 0, 0), Vec3::new(ONE, 0, -655));
    let mut rng = Rng::new(3);
    let sc = d.scatter(&r_in, &rec, &mut rng).expect("dielectric always scatters");
    assert_eq!(sc.attenuation, Vec3::new(ONE, ONE, ONE));
    // Reflection leaves the z component's sign flipped, x unchanged.
    assert!(sc.ray.direction.x > 0);
    assert!(sc.ray.direction.z > 0);
}

#[test]
fn lambertian_always_scatters_with_albedo() {
    let l = Lambertian { albedo: Vec3::new(26214, 13107, 6554) };
    let rec = rec_with(Vec3::new(0, ONE, 0), true, Material::Lambertian(l));
    let r_in = Ray::new(Vec3::new(0, 2 * ONE, 0), Vec3::new(0, -ONE, 0));
    for seed in 0..20u64 {
        let mut rng = Rng::new(seed);
        let sc = l.scatter(&r_in, &rec, &mut rng).expect("diffuse always scatters");
        assert_eq!(sc.attenuation, l.albedo);
        assert_eq!(sc.ray.origin, rec.p);
    }
}

#[test]
fn material_dispatch_matches_variant() {
    let m = Metal::new(Vec3::new(ONE, ONE, ONE), 0);
    let n = Vec3::new(0, 0, ONE);
    let rec = rec_with(n, true, Material::Metal(m));
    let r_in = Ray::new(Vec3::new(0, ONE, ONE), Vec3::new(ONE, 0, -ONE));
    let mut a = Rng::new(9);
    let mut b = Rng::new(9);
    let via_enum = Material::Metal(m).scatter(&r_in, &rec, &mut a).unwrap();
    let direct = m.scatter(&r_in, &rec, &mut b).unwrap();
    assert_eq!(via_enum.ray.direction, direct.ray.direction);
    assert_eq!(via_enum.attenuation, direct.attenuation);
}
