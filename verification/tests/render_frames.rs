//! Frame rendering: determinism, depth termination, quantization, and the
//! end-to-end golden fixture.

use raytracer::camera::Camera;
use raytracer::fixed::ONE;
use raytracer::hittable::Sphere;
use raytracer::hittable_list::HittableList;
use raytracer::materials::{Lambertian, Material};
use raytracer::render::{draw_pixel, quantize, render, render_parallel};
use raytracer::scene::run;
use raytracer::vec3::Vec3;

fn grey_sphere_world() -> HittableList {
    HittableList {
        list: vec![
            Sphere {
                center: Vec3::new(0, 0, -2 * ONE),
                radius: ONE,
                material: Material::Lambertian(
                    Lambertian { albedo: Vec3::new(32768, 32768, 32768) },
                ),
            },
        ],
    }
}

fn big_sphere_world() -> HittableList {
    // A sphere wide enough that every camera sample direction hits it.
    HittableList {
        list: vec![
            Sphere {
                center: Vec3::new(0, 0, -4 * ONE),
                radius: 229376,
                material: Material::Lambertian(
                    Lambertian { albedo: Vec3::new(32768, 32768, 32768) },
                ),
            },
        ],
    }
}

fn simple_camera(width: usize, height: usize) -> Camera {
    let aspect: i64 = raytracer::fixed::fdiv(
        raytracer::fixed::to_fixed(width as i64),
        raytracer::fixed::to_fixed(height as i64),
    );
    Camera::new(
        Vec3::new(0, 0, 0),
        Vec3::new(0, 0, -ONE),
        Vec3::new(0, ONE, 0),
        90 * ONE,
        aspect,
        0,
        2 * ONE,
    )
}

#[test]
fn rendering_twice_gives_identical_buffers() {
    let world = grey_sphere_world();
    let cam = simple_camera(4, 4);
    let a = render(&world, &cam, 4, 4, 4, 8, 123456789);
    let b = render(&world, &cam, 4, 4, 4, 8, 123456789);
    assert_eq!(a, b);
}

#[test]
fn parallel_render_matches_sequential() {
    let world = grey_sphere_world();
    let cam = simple_camera(6, 4);
    let seq = render(&world, &cam, 6, 4, 3, 6, 42);
    let par = render_parallel(&world, &cam, 6, 4, 3, 6, 42);
    assert_eq!(seq, par);
}

#[test]
fn depth_zero_hit_contributes_black() {
    // The sphere fills the whole frame: with max_depth = 0 every pixel is
    // a hit and must be exactly black.
    let world = big_sphere_world();
    let cam = simple_camera(3, 3);
    let buf = render(&world, &cam, 3, 3, 1, 0, 7);
    assert_eq!(buf, vec![0u32; 9]);
}

#[test]
fn depth_zero_miss_still_shows_background() {
    // An empty scene never hits, so depth 0 renders the same background as
    // any other depth.
    let world = HittableList { list: vec![] };
    let cam = simple_camera(4, 4);
    let d0 = render(&world, &cam, 4, 4, 2, 0, 99);
    let d5 = render(&world, &cam, 4, 4, 2, 5, 99);
    assert_eq!(d0, d5);
    // Background pixels are not black.
    assert!(d0.iter().all(|&px| px != 0));
}

#[test]
fn quantize_exact_values() {
    // sqrt(1.0) = 1.0 -> clamped to 0.999 -> 255.
    assert_eq!(quantize(ONE), 255);
    // sqrt(0.25) = 0.5 -> 128.
    assert_eq!(quantize(16384), 128);
    assert_eq!(quantize(0), 0);
    assert_eq!(quantize(-5), 0);
    // Values above 1 clamp to 255.
    assert_eq!(quantize(4 * ONE), 255);
}

#[test]
fn draw_pixel_matches_render_entry() {
    let world = grey_sphere_world();
    let cam = simple_camera(4, 4);
    let buf = render(&world, &cam, 4, 4, 2, 4, 5);
    for (i, &px) in buf.iter().enumerate() {
        assert_eq!(px, draw_pixel(i, 4, 4, &cam, &world, 2, 4, 5));
    }
}

#[test]
fn two_by_two_golden_fixture() {
    // A single sphere filling the frame, one sample per pixel, fixed seed:
    // the packed buffer must reproduce this fixture exactly.
    let world = big_sphere_world();
    let cam = simple_camera(2, 2);
    let buf = render(&world, &cam, 2, 2, 1, 50, 7);
    assert_eq!(buf, vec![9412533u32, 8493237, 11645877, 10134965]);
}

#[test]
fn run_produces_full_buffer() {
    let buf = run(4, 3);
    assert_eq!(buf.len(), 12);
}

#[test]
fn packed_pixels_are_24_bit() {
    let world = grey_sphere_world();
    let cam = simple_camera(3, 2);
    let buf = render(&world, &cam, 3, 2, 2, 4, 11);
    for &px in buf.iter() {
        assert!(px < (1 << 24));
    }
}
