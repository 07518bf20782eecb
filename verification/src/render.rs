//! The radiance integrator and the frame renderer.
//!
//! `color` estimates the radiance along a ray by depth-bounded recursion:
//! the nearest hit's material scatters a new ray whose estimate is
//! attenuated per channel, a miss returns the sky gradient, and an
//! exhausted depth budget contributes black.  `draw_pixel` averages
//! jittered camera samples, gamma-corrects and packs one pixel; `render`
//! fills the whole buffer.  Every pixel is a function of the frame seed
//! and its own index, so pixels can be computed in any order — the
//! parallel renderer hands them to a worker pool.

use crate::camera::{get_ray_s, Camera};
use crate::fixed::{
    fadd, fadd_s, fclamp, fclamp_s, fmul, fmul_s, fsqrt, fsqrt_s, fsub, fsub_s, idiv, idiv_s,
    to_fixed, to_fixed_s, ONE,
};
use crate::hittable::{sphere_hit_s, sphere_wf, Sphere};
use crate::hittable_list::{lemma_list_hit_nearest, list_hit_s, scene_wf, HittableList};
use crate::materials::material_scatter_s;
use crate::ray::Ray;
use crate::rng::{draw_unit_s, pixel_seed, pixel_seed_s, Rng};
use crate::vec3::{unit_s, vadd_s, vmul_s, vscale_s, vzero_s, Vec3};
use rayon::iter::{IntoParallelIterator, ParallelIterator};
use vstd::prelude::*;

verus! {

/// The lower ray-parameter bound of every scene query: a shadow-acne
/// epsilon (about 0.001) that keeps a scattered ray from re-hitting the
/// surface it just left.
pub const T_MIN_EPS: i64 = 66;

/// Fixed-point 0.5.
pub const HALF: i64 = 32768;

/// The default number of jittered samples per pixel.
pub const DEFAULT_SAMPLES: usize = 100;

/// The default recursion depth budget.
pub const DEFAULT_DEPTH: usize = 50;

/// The sky gradient a missed ray returns: white blended toward sky blue by
/// the height of the unit direction, `t = 0.5 * (y + 1)`.
pub open spec fn background_s(r: Ray) -> Vec3 {
    let unit_direction = unit_s(r.direction);
    let t = fmul_s(HALF, fadd_s(unit_direction.y, ONE));
    vadd_s(
        vscale_s(fsub_s(ONE, t), Vec3 { x: ONE, y: ONE, z: ONE }),
        vscale_s(t, Vec3 { x: HALF, y: 45875, z: ONE }),
    )
}

/// What the radiance estimate returns: the nearest hit's scattering,
/// recursively attenuated; black on absorption or an exhausted depth
/// budget; the sky gradient on a miss.
pub open spec fn color_s(r: Ray, scene: Seq<Sphere>, depth: nat, state: u64) -> (Vec3, u64)
    decreases depth,
{
    match list_hit_s(scene, r, T_MIN_EPS, i64::MAX) {
        Some(rec) => {
            if depth == 0 {
                (vzero_s(), state)
            } else {
                let (sc, s1) = material_scatter_s(rec.material, r, rec, state);
                match sc {
                    Some(scat) => {
                        let (c, s2) = color_s(scat.ray, scene, (depth - 1) as nat, s1);
                        (vmul_s(scat.attenuation, c), s2)
                    },
                    None => (vzero_s(), s1),
                }
            }
        },
        None => (background_s(r), state),
    }
}

/// The depth-bounded Monte-Carlo radiance estimate along `r`.
pub fn color(r: &Ray, world: &HittableList, depth: usize, rng: &mut Rng) -> (c: Vec3)
    requires
        scene_wf(*world),
    ensures
        c == color_s(*r, world.list@, depth as nat, old(rng).state).0,
        final(rng).state == color_s(*r, world.list@, depth as nat, old(rng).state).1,
    decreases depth,
{
    if let Some(rec) = world.hit(r, T_MIN_EPS, i64::MAX) {
        if depth == 0 {
            return Vec3::zero();
        }
        proof {
            lemma_list_hit_nearest(world.list@, *r, T_MIN_EPS, i64::MAX);
            let k = choose|k: int|
                0 <= k < world.list@.len() && #[trigger] sphere_hit_s(
                    world.list@[k],
                    *r,
                    T_MIN_EPS,
                    i64::MAX,
                ) == Some(rec);
            crate::hittable::lemma_sphere_hit_material(world.list@[k], *r, T_MIN_EPS, i64::MAX);
            assert(sphere_wf(world.list@[k]));
        }
        if let Some(scat) = rec.material.scatter(r, &rec, rng) {
            let rest = color(&scat.ray, world, depth - 1, rng);
            scat.attenuation.mul_v(&rest)
        } else {
            Vec3::zero()
        }
    } else {
        let unit_direction = r.direction.unit_vector();
        let t: i64 = fmul(HALF, fadd(unit_direction.y, ONE));
        let white = Vec3 { x: ONE, y: ONE, z: ONE };
        let blue = Vec3 { x: HALF, y: 45875, z: ONE };
        white.scale(fsub(ONE, t)).add_v(&blue.scale(t))
    }
}

/// The horizontal image coordinate of pixel `i`: its column over the width.
pub open spec fn pixel_u_s(i: usize, w: usize) -> i64 {
    idiv_s(to_fixed_s((i as int % w as int) as i64), w as i64)
}

/// The vertical image coordinate of pixel `i`: its row over the height,
/// flipped so that row 0 is the top of the image.  The row index is
/// `i / w` in integer division, so the coordinate is constant within a
/// row.
pub open spec fn pixel_v_s(i: usize, w: usize, h: usize) -> i64 {
    fsub_s(ONE, idiv_s(to_fixed_s((i as int / w as int) as i64), h as i64))
}

/// The sum of the first `n` jittered radiance samples of a pixel, and the
/// generator state after them.
pub open spec fn sample_sum_s(
    u: i64,
    v: i64,
    w: usize,
    h: usize,
    cam: Camera,
    scene: Seq<Sphere>,
    depth: nat,
    state: u64,
    n: nat,
) -> (Vec3, u64)
    decreases n,
{
    if n == 0 {
        (vzero_s(), state)
    } else {
        let (prev, s0) = sample_sum_s(u, v, w, h, cam, scene, depth, state, (n - 1) as nat);
        let (ju, s1) = draw_unit_s(s0);
        let (jv, s2) = draw_unit_s(s1);
        let tmp_u = fadd_s(u, idiv_s(ju, w as i64));
        let tmp_v = fadd_s(v, idiv_s(jv, h as i64));
        let (ray, s3) = get_ray_s(cam, tmp_u, tmp_v, s2);
        let (c, s4) = color_s(ray, scene, depth, s3);
        (vadd_s(prev, c), s4)
    }
}

/// Gamma-correct and quantize one channel: square root (gamma 2), clamp to
/// `[0, 0.999]`, scale by 256 and truncate to an integer in `[0, 255]`.
pub open spec fn quantize_s(c: i64) -> u32 {
    let c0 = if c < 0 {
        0i64
    } else {
        c
    };
    let q = fclamp_s(fsqrt_s(c0), 0, 65470);
    ((q as int) / 256) as u32
}

/// Pack three quantized channels into 24-bit RGB: `(r << 16)|(g << 8)|b`,
/// written arithmetically.
pub open spec fn pack_s(col: Vec3) -> u32 {
    (quantize_s(col.x) * 65536 + quantize_s(col.y) * 256 + quantize_s(col.z)) as u32
}

/// Gamma-correct and quantize one channel.
pub fn quantize(c: i64) -> (r: u32)
    ensures
        r == quantize_s(c),
        r <= 255,
{
    let c0: i64 = if c < 0 {
        0i64
    } else {
        c
    };
    let q: i64 = fclamp(fsqrt(c0), 0, 65470);
    (q as u32) / 256
}

/// What one rendered pixel is: the averaged, gamma-corrected, packed color
/// of `samples` jittered radiance estimates, from the pixel's own
/// generator stream.
pub open spec fn draw_pixel_s(
    i: usize,
    w: usize,
    h: usize,
    cam: Camera,
    scene: Seq<Sphere>,
    samples: usize,
    depth: usize,
    seed: u64,
) -> u32 {
    let st0 = pixel_seed_s(seed, i as u64);
    let u = pixel_u_s(i, w);
    let v = pixel_v_s(i, w, h);
    let (sum, s_end) = sample_sum_s(u, v, w, h, cam, scene, depth as nat, st0, samples as nat);
    let col = Vec3 {
        x: idiv_s(sum.x, samples as i64),
        y: idiv_s(sum.y, samples as i64),
        z: idiv_s(sum.z, samples as i64),
    };
    pack_s(col)
}

/// Render pixel `i` of a `w x h` frame: average `samples` jittered
/// estimates of depth `max_depth`, gamma-correct, and pack 24-bit RGB.
/// The pixel's generator stream is derived from the frame seed and `i`
/// alone, so the result is a pure function of its arguments.
pub fn draw_pixel(
    i: usize,
    width: usize,
    height: usize,
    cam: &Camera,
    world: &HittableList,
    samples: usize,
    max_depth: usize,
    seed: u64,
) -> (px: u32)
    requires
        scene_wf(*world),
        0 < width <= 0x7FFF_FFFF,
        0 < height <= 0x7FFF_FFFF,
        i as int <= i64::MAX,
        0 < samples <= 0x7FFF_FFFF,
    ensures
        px == draw_pixel_s(i, width, height, *cam, world.list@, samples, max_depth, seed),
{
    let mut rng = Rng::new(pixel_seed(seed, i as u64));
    let ghost st0: u64 = rng.state;
    let u: i64 = idiv(to_fixed((i % width) as i64), width as i64);
    let v: i64 = fsub(ONE, idiv(to_fixed((i / width) as i64), height as i64));

    let mut col = Vec3 { x: 0, y: 0, z: 0 };
    let mut k: usize = 0;
    while k < samples
        invariant
            k <= samples,
            scene_wf(*world),
            0 < width <= 0x7FFF_FFFF,
            0 < height <= 0x7FFF_FFFF,
            (col, rng.state) == sample_sum_s(
                u,
                v,
                width,
                height,
                *cam,
                world.list@,
                max_depth as nat,
                st0,
                k as nat,
            ),
        decreases samples - k,
    {
        let ju: i64 = rng.next_unit();
        let jv: i64 = rng.next_unit();
        let tmp_u: i64 = fadd(u, idiv(ju, width as i64));
        let tmp_v: i64 = fadd(v, idiv(jv, height as i64));
        let r = cam.get_ray(tmp_u, tmp_v, &mut rng);
        let c = color(&r, world, max_depth, &mut rng);
        col = col.add_v(&c);
        k = k + 1;
    }

    let avg = Vec3 {
        x: idiv(col.x, samples as i64),
        y: idiv(col.y, samples as i64),
        z: idiv(col.z, samples as i64),
    };
    let ir: u32 = quantize(avg.x);
    let ig: u32 = quantize(avg.y);
    let ib: u32 = quantize(avg.z);
    ir * 65536 + ig * 256 + ib
}

/// Render the whole frame sequentially, row-major, one pixel at a time.
pub fn render(
    world: &HittableList,
    cam: &Camera,
    width: usize,
    height: usize,
    samples: usize,
    max_depth: usize,
    seed: u64,
) -> (buf: Vec<u32>)
    requires
        scene_wf(*world),
        0 < width <= 0x7FFF_FFFF,
        0 < height <= 0x7FFF_FFFF,
        width as int * height as int <= i64::MAX,
        width as int * height as int <= usize::MAX,
        0 < samples <= 0x7FFF_FFFF,
    ensures
        buf@.len() == width as int * height as int,
        forall|i: int|
            0 <= i < buf@.len() ==> buf@[i] == draw_pixel_s(
                i as usize,
                width,
                height,
                *cam,
                world.list@,
                samples,
                max_depth,
                seed,
            ),
{
    let n: usize = width * height;
    let mut buf: Vec<u32> = Vec::new();
    let mut i: usize = 0;
    while i < n
        invariant
            i <= n,
            n == width as int * height as int,
            n <= i64::MAX,
            scene_wf(*world),
            0 < width <= 0x7FFF_FFFF,
            0 < height <= 0x7FFF_FFFF,
            0 < samples <= 0x7FFF_FFFF,
            buf@.len() == i,
            forall|j: int|
                0 <= j < i ==> buf@[j] == draw_pixel_s(
                    j as usize,
                    width,
                    height,
                    *cam,
                    world.list@,
                    samples,
                    max_depth,
                    seed,
                ),
        decreases n - i,
    {
        let px: u32 = draw_pixel(i, width, height, cam, world, samples, max_depth, seed);
        buf.push(px);
        i = i + 1;
    }
    buf
}

/// Relies on rayon's `into_par_iter().map(..).collect()` over a range:
/// the collected vector has one entry per index, in index order, each the
/// closure's value at that index; the closure only calls the verified
/// `draw_pixel`.
#[verifier::external_body]
pub fn render_parallel(
    world: &HittableList,
    cam: &Camera,
    width: usize,
    height: usize,
    samples: usize,
    max_depth: usize,
    seed: u64,
) -> (buf: Vec<u32>)
    requires
        scene_wf(*world),
        0 < width <= 0x7FFF_FFFF,
        0 < height <= 0x7FFF_FFFF,
        width as int * height as int <= i64::MAX,
        width as int * height as int <= usize::MAX,
        0 < samples <= 0x7FFF_FFFF,
    ensures
        buf@.len() == width as int * height as int,
        forall|i: int|
            0 <= i < buf@.len() ==> buf@[i] == draw_pixel_s(
                i as usize,
                width,
                height,
                *cam,
                world.list@,
                samples,
                max_depth,
                seed,
            ),
{
    (0..width * height)
        .into_par_iter()
        .map(|i| draw_pixel(i, width, height, cam, world, samples, max_depth, seed))
        .collect()
}

/// Rendering is deterministic: two buffers that both satisfy the renderer's
/// contract for the same scene, camera, dimensions, sampling parameters and
/// seed are identical, pixel for pixel.
pub proof fn lemma_render_deterministic(
    b1: Seq<u32>,
    b2: Seq<u32>,
    scene: Seq<Sphere>,
    cam: Camera,
    width: usize,
    height: usize,
    samples: usize,
    max_depth: usize,
    seed: u64,
)
    requires
        b1.len() == width as int * height as int,
        b2.len() == width as int * height as int,
        forall|i: int|
            0 <= i < b1.len() ==> b1[i] == draw_pixel_s(
                i as usize,
                width,
                height,
                cam,
                scene,
                samples,
                max_depth,
                seed,
            ),
        forall|i: int|
            0 <= i < b2.len() ==> b2[i] == draw_pixel_s(
                i as usize,
                width,
                height,
                cam,
                scene,
                samples,
                max_depth,
                seed,
            ),
    ensures
        b1 == b2,
{
    assert forall|i: int| 0 <= i < b1.len() implies b1[i] == b2[i] by {}
    assert(b1 =~= b2);
}

/// With an exhausted depth budget, a hit contributes black, and only a
/// miss shows the background gradient.
pub proof fn lemma_depth_zero(r: Ray, scene: Seq<Sphere>, state: u64)
    ensures
        list_hit_s(scene, r, T_MIN_EPS, i64::MAX) is Some ==> color_s(r, scene, 0, state).0
            == vzero_s(),
        list_hit_s(scene, r, T_MIN_EPS, i64::MAX) is None ==> color_s(r, scene, 0, state).0
            == background_s(r),
{
}

/// A miss returns the background gradient at every depth, and an absorbed
/// scatter returns black.
pub proof fn lemma_color_terminal_cases(r: Ray, scene: Seq<Sphere>, depth: nat, state: u64)
    ensures
        list_hit_s(scene, r, T_MIN_EPS, i64::MAX) is None ==> color_s(r, scene, depth, state).0
            == background_s(r),
        (list_hit_s(scene, r, T_MIN_EPS, i64::MAX) matches Some(rec) && depth > 0
            && material_scatter_s(rec.material, r, rec, state).0 is None) ==> color_s(
            r,
            scene,
            depth,
            state,
        ).0 == vzero_s(),
{
}

} // verus!
