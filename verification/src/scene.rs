//! The demonstration scene and the top-level render entry point.
//!
//! `random_scene` builds the classic cover scene: a large ground sphere, a
//! 22 by 22 grid of small spheres with randomly chosen materials, and
//! three large feature spheres.  `run` renders it with the standard
//! camera at the requested dimensions.

use crate::camera::{camera_new_s, Camera};
use crate::fixed::{fadd, fadd_s, fdiv, fmul, fmul_s, lemma_fmul_bounds, to_fixed, to_fixed_s, ONE,
    TWO};
use crate::hittable::{sphere_wf, Sphere};
use crate::hittable_list::{scene_wf, HittableList};
use crate::materials::{Dielectric, Lambertian, Material, Metal};
use crate::render::{draw_pixel_s, render_parallel, DEFAULT_DEPTH, DEFAULT_SAMPLES};
use crate::rng::{draw_unit_s, Rng};
use crate::vec3::{length_s, vsub_s, Vec3};
use vstd::prelude::*;

verus! {

/// Fixed-point 0.9: the grid jitter amplitude and the keep-out distance
/// around the front feature sphere.
pub const NINE_TENTHS: i64 = 58982;

/// Fixed-point 0.2: the small spheres' height and radius.
pub const FIFTH: i64 = 13107;

/// The diffuse-material probability threshold (0.8).
pub const DIFFUSE_CUT: i64 = 52429;

/// The reflective-material probability threshold (0.95).
pub const METAL_CUT: i64 = 62259;

/// Fixed-point 1.5: the glass spheres' refractive index.
pub const GLASS_IDX: i64 = 98304;

/// Fixed-point 0.5.
pub const HALF_FIX: i64 = 32768;

/// What one grid cell contributes: a jittered center; no sphere when it
/// falls within 0.9 of the front feature sphere's spot; otherwise a small
/// sphere whose material is picked by the first draw — diffuse below 0.8,
/// metal below 0.95, glass above.
pub open spec fn scene_cell_s(a: i64, b: i64, s: u64) -> (Option<Sphere>, u64) {
    let (choose_mat, s1) = draw_unit_s(s);
    let (rx, s2) = draw_unit_s(s1);
    let (rz, s3) = draw_unit_s(s2);
    let center = Vec3 {
        x: fadd_s(to_fixed_s(a), fmul_s(NINE_TENTHS, rx)),
        y: FIFTH,
        z: fadd_s(to_fixed_s(b), fmul_s(NINE_TENTHS, rz)),
    };
    if length_s(vsub_s(center, Vec3 { x: 262144i64, y: FIFTH, z: 0 })) > NINE_TENTHS {
        if choose_mat < DIFFUSE_CUT {
            let (a1, s4) = draw_unit_s(s3);
            let (a2, s5) = draw_unit_s(s4);
            let (b1, s6) = draw_unit_s(s5);
            let (b2, s7) = draw_unit_s(s6);
            let (c1, s8) = draw_unit_s(s7);
            let (c2, s9) = draw_unit_s(s8);
            (
                Some(
                    Sphere {
                        center,
                        radius: FIFTH,
                        material: Material::Lambertian(
                            Lambertian {
                                albedo: Vec3 {
                                    x: fmul_s(a1, a2),
                                    y: fmul_s(b1, b2),
                                    z: fmul_s(c1, c2),
                                },
                            },
                        ),
                    },
                ),
                s9,
            )
        } else if choose_mat < METAL_CUT {
            let (m1, s4) = draw_unit_s(s3);
            let (m2, s5) = draw_unit_s(s4);
            let (m3, s6) = draw_unit_s(s5);
            let (f, s7) = draw_unit_s(s6);
            (
                Some(
                    Sphere {
                        center,
                        radius: FIFTH,
                        material: Material::Metal(
                            Metal {
                                albedo: Vec3 {
                                    x: fmul_s(HALF_FIX, fadd_s(ONE, m1)),
                                    y: fmul_s(HALF_FIX, fadd_s(ONE, m2)),
                                    z: fmul_s(HALF_FIX, fadd_s(ONE, m3)),
                                },
                                fuzz: fmul_s(HALF_FIX, f),
                            },
                        ),
                    },
                ),
                s7,
            )
        } else {
            (
                Some(
                    Sphere {
                        center,
                        radius: FIFTH,
                        material: Material::Dielectric(Dielectric { ref_idx: GLASS_IDX }),
                    },
                ),
                s3,
            )
        }
    } else {
        (None, s3)
    }
}

/// The grid spheres contributed by the first `k` cells, row-major over
/// `a` then `b`, each in `-11..11`.
pub open spec fn scene_build_s(k: nat, s: u64) -> (Seq<Sphere>, u64)
    decreases k,
{
    if k == 0 {
        (Seq::empty(), s)
    } else {
        let (prev, s0) = scene_build_s((k - 1) as nat, s);
        let idx = (k - 1) as int;
        let a = (idx / 22 - 11) as i64;
        let b = (idx % 22 - 11) as i64;
        let (cell, s1) = scene_cell_s(a, b, s0);
        match cell {
            Some(sp) => (prev.push(sp), s1),
            None => (prev, s1),
        }
    }
}

/// The ground sphere: radius 1000, centered 1000 below the origin,
/// mid-grey diffuse.
pub open spec fn ground_sphere_s() -> Sphere {
    Sphere {
        center: Vec3 { x: 0, y: -65536000i64, z: 0 },
        radius: 65536000,
        material: Material::Lambertian(
            Lambertian { albedo: Vec3 { x: HALF_FIX, y: HALF_FIX, z: HALF_FIX } },
        ),
    }
}

/// The three large feature spheres: glass at the origin, diffuse on the
/// left, polished metal on the right.
pub open spec fn feature_spheres_s() -> Seq<Sphere> {
    seq![
        Sphere {
            center: Vec3 { x: 0, y: ONE, z: 0 },
            radius: ONE,
            material: Material::Dielectric(Dielectric { ref_idx: GLASS_IDX }),
        },
        Sphere {
            center: Vec3 { x: -262144i64, y: ONE, z: 0 },
            radius: ONE,
            material: Material::Lambertian(
                Lambertian { albedo: Vec3 { x: 26214, y: 13107, z: 6554 } },
            ),
        },
        Sphere {
            center: Vec3 { x: 262144i64, y: ONE, z: 0 },
            radius: ONE,
            material: Material::Metal(
                Metal { albedo: Vec3 { x: 45875, y: 39322, z: 32768 }, fuzz: 0 },
            ),
        },
    ]
}

/// What the scene builder returns: ground, then the grid cells, then the
/// three feature spheres.
pub open spec fn random_scene_s(s: u64) -> (Seq<Sphere>, u64) {
    let (mid, s1) = scene_build_s(484, s);
    (seq![ground_sphere_s()] + mid + feature_spheres_s(), s1)
}

/// A cell's sphere, when it produces one, is well-formed.
proof fn lemma_cell_wf(a: i64, b: i64, s: u64)
    ensures
        scene_cell_s(a, b, s).0 matches Some(sp) ==> sphere_wf(sp),
{
    let (choose_mat, s1) = draw_unit_s(s);
    let (rx, s2) = draw_unit_s(s1);
    let (rz, s3) = draw_unit_s(s2);
    if choose_mat < DIFFUSE_CUT {
        let (a1, s4) = draw_unit_s(s3);
        let (a2, s5) = draw_unit_s(s4);
        let (b1, s6) = draw_unit_s(s5);
        let (b2, s7) = draw_unit_s(s6);
        let (c1, s8) = draw_unit_s(s7);
        let (c2, s9) = draw_unit_s(s8);
        lemma_unit_draw_range(s3);
        lemma_unit_draw_range(s4);
        lemma_unit_draw_range(s5);
        lemma_unit_draw_range(s6);
        lemma_unit_draw_range(s7);
        lemma_unit_draw_range(s8);
        lemma_fmul_bounds(a1, a2, ONE, ONE);
        lemma_fmul_bounds(b1, b2, ONE, ONE);
        lemma_fmul_bounds(c1, c2, ONE, ONE);
    } else if choose_mat < METAL_CUT {
        let (m1, s4) = draw_unit_s(s3);
        let (m2, s5) = draw_unit_s(s4);
        let (m3, s6) = draw_unit_s(s5);
        let (f, s7) = draw_unit_s(s6);
        lemma_unit_draw_range(s3);
        lemma_unit_draw_range(s4);
        lemma_unit_draw_range(s5);
        lemma_unit_draw_range(s6);
        lemma_fmul_bounds(HALF_FIX, fadd_s(ONE, m1), HALF_FIX, TWO);
        lemma_fmul_bounds(HALF_FIX, fadd_s(ONE, m2), HALF_FIX, TWO);
        lemma_fmul_bounds(HALF_FIX, fadd_s(ONE, m3), HALF_FIX, TWO);
        lemma_fmul_bounds(HALF_FIX, f, HALF_FIX, ONE);
    }
}

/// A uniform draw lies in `[0, 1)`.
proof fn lemma_unit_draw_range(s: u64)
    ensures
        0 <= draw_unit_s(s).0 < ONE,
{
    let r = crate::rng::next_u64_s(s);
    assert(r >> 48u64 <= 0xFFFFu64) by (bit_vector);
}

/// Build the demonstration scene: ground, the 22 by 22 jittered grid of
/// small spheres (diffuse, metal or glass by a material draw), and the
/// three feature spheres.
pub fn random_scene(rng: &mut Rng) -> (world: HittableList)
    ensures
        world.list@ == random_scene_s(old(rng).state).0,
        final(rng).state == random_scene_s(old(rng).state).1,
        scene_wf(world),
{
    let mut list: Vec<Sphere> = Vec::new();
    list.push(
        Sphere {
            center: Vec3 { x: 0, y: -65536000i64, z: 0 },
            radius: 65536000,
            material: Material::Lambertian(
                Lambertian { albedo: Vec3 { x: HALF_FIX, y: HALF_FIX, z: HALF_FIX } },
            ),
        },
    );

    proof {
        assert(list@ =~= seq![ground_sphere_s()] + scene_build_s(0, old(rng).state).0);
    }
    let mut k: usize = 0;
    while k < 484
        invariant
            k <= 484,
            list@ == seq![ground_sphere_s()] + scene_build_s(k as nat, old(rng).state).0,
            rng.state == scene_build_s(k as nat, old(rng).state).1,
            forall|j: int| 0 <= j < list@.len() ==> sphere_wf(#[trigger] list@[j]),
        decreases 484 - k,
    {
        let ghost s_pre: u64 = rng.state;
        let a: i64 = (k / 22) as i64 - 11;
        let b: i64 = (k % 22) as i64 - 11;
        let choose_mat: i64 = rng.next_unit();
        let rx: i64 = rng.next_unit();
        let rz: i64 = rng.next_unit();
        let center = Vec3 {
            x: fadd(to_fixed(a), fmul(NINE_TENTHS, rx)),
            y: FIFTH,
            z: fadd(to_fixed(b), fmul(NINE_TENTHS, rz)),
        };
        let offset = center.sub_v(&Vec3 { x: 262144i64, y: FIFTH, z: 0 });
        if offset.length() > NINE_TENTHS {
            let material: Material = if choose_mat < DIFFUSE_CUT {
                let a1: i64 = rng.next_unit();
                let a2: i64 = rng.next_unit();
                let b1: i64 = rng.next_unit();
                let b2: i64 = rng.next_unit();
                let c1: i64 = rng.next_unit();
                let c2: i64 = rng.next_unit();
                Material::Lambertian(
                    Lambertian {
                        albedo: Vec3 { x: fmul(a1, a2), y: fmul(b1, b2), z: fmul(c1, c2) },
                    },
                )
            } else if choose_mat < METAL_CUT {
                let m1: i64 = rng.next_unit();
                let m2: i64 = rng.next_unit();
                let m3: i64 = rng.next_unit();
                let f: i64 = rng.next_unit();
                Material::Metal(
                    Metal {
                        albedo: Vec3 {
                            x: fmul(HALF_FIX, fadd(ONE, m1)),
                            y: fmul(HALF_FIX, fadd(ONE, m2)),
                            z: fmul(HALF_FIX, fadd(ONE, m3)),
                        },
                        fuzz: fmul(HALF_FIX, f),
                    },
                )
            } else {
                Material::Dielectric(Dielectric { ref_idx: GLASS_IDX })
            };
            let sphere = Sphere { center, radius: FIFTH, material };
            proof {
                lemma_cell_wf(a, b, s_pre);
                assert(scene_cell_s(a, b, s_pre) == (Some(sphere), rng.state));
            }
            list.push(sphere);
            proof {
                assert(list@ =~= seq![ground_sphere_s()] + scene_build_s(
                    (k + 1) as nat,
                    old(rng).state,
                ).0);
            }
        } else {
            proof {
                assert(scene_cell_s(a, b, s_pre) == (None::<Sphere>, rng.state));
            }
        }
        k = k + 1;
    }

    list.push(
        Sphere {
            center: Vec3 { x: 0, y: ONE, z: 0 },
            radius: ONE,
            material: Material::Dielectric(Dielectric { ref_idx: GLASS_IDX }),
        },
    );
    list.push(
        Sphere {
            center: Vec3 { x: -262144i64, y: ONE, z: 0 },
            radius: ONE,
            material: Material::Lambertian(
                Lambertian { albedo: Vec3 { x: 26214, y: 13107, z: 6554 } },
            ),
        },
    );
    list.push(
        Sphere {
            center: Vec3 { x: 262144i64, y: ONE, z: 0 },
            radius: ONE,
            material: Material::Metal(
                Metal { albedo: Vec3 { x: 45875, y: 39322, z: 32768 }, fuzz: 0 },
            ),
        },
    );

    proof {
        assert(list@ =~= random_scene_s(old(rng).state).0);
    }
    HittableList { list }
}

/// The standard camera of the demonstration render: a 20-degree field of
/// view from (13, 2, 3) toward the origin, slight depth-of-field, focused
/// at distance 10.
pub open spec fn standard_camera_s(width: usize, height: usize) -> Camera {
    camera_new_s(
        Vec3 { x: 851968, y: 131072, z: 196608 },
        Vec3 { x: 0, y: 0, z: 0 },
        Vec3 { x: 0, y: ONE, z: 0 },
        1310720,
        crate::fixed::fdiv_s(to_fixed_s(width as i64), to_fixed_s(height as i64)),
        6554,
        655360,
    )
}

/// The frame that a run seeded with `seed` produces: the scene built from
/// the seed, rendered with the standard camera at the default sampling
/// parameters, under the per-frame stream that follows the scene draws.
pub open spec fn run_frame_s(width: usize, height: usize, seed: u64) -> Seq<u32> {
    let (scene, s1) = random_scene_s(seed);
    let cam = standard_camera_s(width, height);
    Seq::new(
        (width as int * height as int) as nat,
        |i: int|
            draw_pixel_s(
                i as usize,
                width,
                height,
                cam,
                scene,
                DEFAULT_SAMPLES,
                DEFAULT_DEPTH,
                crate::rng::next_u64_s(s1),
            ),
    )
}

/// Render the demonstration scene at the requested dimensions with the
/// standard camera, seeded from entropy, in parallel.  The buffer is the
/// standard render of the scene for some seed: only which seed the
/// entropy source handed out is left open.
pub fn run(width: usize, height: usize) -> (buf: Vec<u32>)
    requires
        0 < width <= 0x7FFF_FFFF,
        0 < height <= 0x7FFF_FFFF,
        width as int * height as int <= i64::MAX,
        width as int * height as int <= usize::MAX,
    ensures
        buf@.len() == width as int * height as int,
        exists|seed: u64| buf@ == run_frame_s(width, height, seed),
{
    let seed: u64 = crate::rng::entropy_seed();
    let mut rng = Rng::new(seed);
    let world = random_scene(&mut rng);

    let lookfrom = Vec3 { x: 13 * 65536, y: 2 * 65536, z: 3 * 65536 };
    let lookat = Vec3 { x: 0, y: 0, z: 0 };
    let vup = Vec3 { x: 0, y: ONE, z: 0 };
    let dist_to_focus: i64 = 10 * 65536;
    let aperture: i64 = 6554;
    let aspect: i64 = fdiv(to_fixed(width as i64), to_fixed(height as i64));

    let cam = Camera::new(lookfrom, lookat, vup, 20 * 65536, aspect, aperture, dist_to_focus);

    let frame_seed: u64 = rng.next_u64();
    let buf = render_parallel(&world, &cam, width, height, DEFAULT_SAMPLES, DEFAULT_DEPTH,
        frame_seed);
    proof {
        assert(buf@ =~= run_frame_s(width, height, seed));
    }
    buf
}

} // verus!
