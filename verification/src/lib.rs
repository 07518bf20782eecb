//! A stochastic path-tracing renderer over verified fixed-point arithmetic.
//!
//! The scene is a list of spheres with diffuse, reflective or refractive
//! materials; a thin-lens camera maps image coordinates to rays; a
//! depth-bounded Monte-Carlo integrator estimates the radiance per pixel.
//! Every real-valued quantity is carried as a scaled `i64` (see `fixed`),
//! so the whole rendering core is exact, deterministic and verified.

pub mod camera;
pub mod fixed;
pub mod hittable;
pub mod hittable_list;
pub mod materials;
pub mod ray;
pub mod render;
pub mod rng;
pub mod scene;
pub mod sampling;
pub mod trig;
pub mod vec3;
