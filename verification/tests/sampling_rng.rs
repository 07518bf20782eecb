//! Generator determinism and the rejection-sampling invariants.

use raytracer::fixed::ONE;
use raytracer::rng::{pixel_seed, Rng};
use raytracer::sampling::{random_in_unit_disc, random_in_unit_sphere, random_unit_vector};

#[test]
fn rng_is_deterministic() {
    let mut a = Rng::new(12345);
    let mut b = Rng::new(12345);
    for _ in 0..100 {
        assert_eq!(a.next_u64(), b.next_u64());
    }
    let mut c = Rng::new(54321);
    let mut d = Rng::new(12345);
    // Different seeds give different streams (overwhelmingly).
    let differs: bool = (0..10).any(|_| c.next_u64() != d.next_u64());
    assert!(differs);
}

#[test]
fn rng_draw_ranges() {
    let mut rng = Rng::new(99);
    for _ in 0..1000 {
        let u: i64 = rng.next_unit();
        assert!((0..ONE).contains(&u));
        let s: i64 = rng.next_sym();
        assert!((-ONE..ONE).contains(&s));
    }
}

#[test]
fn pixel_seed_is_deterministic_and_spreads() {
    assert_eq!(pixel_seed(7, 0), pixel_seed(7, 0));
    assert_ne!(pixel_seed(7, 0), pixel_seed(7, 1));
    assert_ne!(pixel_seed(7, 0), pixel_seed(8, 0));
}

#[test]
fn unit_sphere_samples_stay_inside() {
    let mut rng = Rng::new(2024);
    for _ in 0..2000 {
        let p = random_in_unit_sphere(&mut rng);
        assert!(p.squared_length() < ONE);
    }
}

#[test]
fn unit_disc_samples_stay_inside_plane() {
    let mut rng = Rng::new(2025);
    for _ in 0..2000 {
        let p = random_in_unit_disc(&mut rng);
        assert!(p.squared_length() < ONE);
        assert_eq!(p.z, 0);
    }
}

#[test]
fn samplers_are_deterministic() {
    let mut a = Rng::new(77);
    let mut b = Rng::new(77);
    for _ in 0..50 {
        assert_eq!(random_in_unit_sphere(&mut a), random_in_unit_sphere(&mut b));
        assert_eq!(random_in_unit_disc(&mut a), random_in_unit_disc(&mut b));
        assert_eq!(random_unit_vector(&mut a), random_unit_vector(&mut b));
    }
}

#[test]
fn unit_vector_draw_near_surface() {
    // The closed-form surface sampler returns a vector of length close to 1.
    let mut rng = Rng::new(31415);
    for _ in 0..500 {
        let p = random_unit_vector(&mut rng);
        let l: i64 = p.length();
        // Series truncation and rounding allow a small deviation.
        assert!(l > ONE - 200 && l < ONE + 200, "length {}", l);
    }
}
