//! Camera construction and ray generation.

use raytracer::camera::Camera;
use raytracer::fixed::ONE;
use raytracer::rng::Rng;
use raytracer::vec3::Vec3;

fn unit_camera(aperture: i64) -> Camera {
    Camera::new(
        Vec3::new(0, 0, 0),
        Vec3::new(0, 0, -ONE),
        Vec3::new(0, ONE, 0),
        90 * ONE,
        ONE,
        aperture,
        ONE,
    )
}

#[test]
fn camera_basis_is_axis_aligned() {
    let cam = unit_camera(0);
    assert_eq!(cam.w, Vec3::new(0, 0, ONE));
    assert_eq!(cam.u, Vec3::new(ONE, 0, 0));
    assert_eq!(cam.v, Vec3::new(0, ONE, 0));
    assert_eq!(cam.origin, Vec3::new(0, 0, 0));
    assert_eq!(cam.lens_radius, 0);
}

#[test]
fn ninety_degree_field_of_view_spans_two_units() {
    // tan(45 degrees) = 1: the image plane at focus distance 1 spans
    // [-1, 1] in both axes, up to the series' truncation error.
    let cam = unit_camera(0);
    assert!((cam.vertical.y - 2 * ONE).abs() < 400, "vertical {}", cam.vertical.y);
    assert!((cam.horizontal.x - 2 * ONE).abs() < 400, "horizontal {}", cam.horizontal.x);
    assert_eq!(cam.vertical.x, 0);
    assert_eq!(cam.horizontal.y, 0);
}

#[test]
fn zero_aperture_rays_start_at_the_origin() {
    let cam = unit_camera(0);
    let mut rng = Rng::new(5);
    for (s, t) in [(0i64, 0i64), (32768, 32768), (ONE, ONE), (16384, 49152)] {
        let r = cam.get_ray(s, t, &mut rng);
        assert_eq!(r.origin, Vec3::new(0, 0, 0));
    }
}

#[test]
fn center_ray_points_at_the_focus_point() {
    let cam = unit_camera(0);
    let mut rng = Rng::new(5);
    let r = cam.get_ray(32768, 32768, &mut rng);
    assert!(r.direction.x.abs() < 400, "x {}", r.direction.x);
    assert!(r.direction.y.abs() < 400, "y {}", r.direction.y);
    assert!((r.direction.z + ONE).abs() < 400, "z {}", r.direction.z);
}

#[test]
fn nonzero_aperture_jitters_the_origin_deterministically() {
    let cam = unit_camera(13107);
    let mut a = Rng::new(8);
    let mut b = Rng::new(8);
    let ra = cam.get_ray(32768, 32768, &mut a);
    let rb = cam.get_ray(32768, 32768, &mut b);
    assert_eq!(ra.origin, rb.origin);
    assert_eq!(ra.direction, rb.direction);
    // The lens radius bounds the offset.
    assert!(ra.origin.x.abs() <= 6554);
    assert!(ra.origin.y.abs() <= 6554);
    assert_eq!(ra.origin.z, 0);
}
