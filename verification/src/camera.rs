//! The thin-lens camera: precomputed basis and image-plane rectangle, and
//! the mapping from normalized image coordinates to world-space rays.

use crate::fixed::{fmul, fmul_s, idiv, idiv_s, TWO};
use crate::ray::Ray;
use crate::rng::Rng;
use crate::sampling::{random_in_unit_disc, sample_disc_s};
use crate::trig::{tan_approx, tan_s, DEG_FIX};
use crate::vec3::{cross_s, unit_s, vadd_s, vscale_s, vsub_s, Vec3};
use vstd::prelude::*;

verus! {

/// A camera with a precomputed orthonormal basis `{u, v, w}`, the image
/// plane at the focus distance, and a lens radius for depth-of-field.
#[derive(Clone, Copy, PartialEq, Eq, Structural, Debug)]
pub struct Camera {
    pub lower_left_corner: Vec3,
    pub horizontal: Vec3,
    pub vertical: Vec3,
    pub origin: Vec3,
    pub u: Vec3,
    pub v: Vec3,
    pub w: Vec3,
    pub lens_radius: i64,
}

/// What the camera constructor computes: the basis from the view vectors,
/// the half-extents from the field of view and the aspect ratio, and the
/// image-plane rectangle scaled to the focus distance.
pub open spec fn camera_new_s(
    lookfrom: Vec3,
    lookat: Vec3,
    vup: Vec3,
    vfov: i64,
    aspect_ratio: i64,
    aperture: i64,
    focus_dist: i64,
) -> Camera {
    let theta = fmul_s(vfov, DEG_FIX);
    let half_height = tan_s(idiv_s(theta, 2));
    let half_width = fmul_s(aspect_ratio, half_height);
    let w = unit_s(vsub_s(lookfrom, lookat));
    let u = unit_s(cross_s(vup, w));
    let v = cross_s(w, u);
    let lens_radius = idiv_s(aperture, 2);
    let lower_left_corner = vsub_s(
        vsub_s(
            vsub_s(lookfrom, vscale_s(fmul_s(half_width, focus_dist), u)),
            vscale_s(fmul_s(half_height, focus_dist), v),
        ),
        vscale_s(focus_dist, w),
    );
    let horizontal = vscale_s(fmul_s(TWO, fmul_s(half_width, focus_dist)), u);
    let vertical = vscale_s(fmul_s(TWO, fmul_s(half_height, focus_dist)), v);
    Camera {
        lower_left_corner,
        horizontal,
        vertical,
        origin: lookfrom,
        u,
        v,
        w,
        lens_radius,
    }
}

/// What `get_ray` returns: a lens-disc offset of the origin and a
/// direction through the mapped point on the focus plane.
pub open spec fn get_ray_s(cam: Camera, s: i64, t: i64, state: u64) -> (Ray, u64) {
    let (d, s1) = sample_disc_s(state);
    let rd = vscale_s(cam.lens_radius, d);
    let offset = vadd_s(vscale_s(rd.x, cam.u), vscale_s(rd.y, cam.v));
    (
        Ray {
            origin: vadd_s(offset, cam.origin),
            direction: vsub_s(
                vadd_s(
                    vsub_s(
                        vadd_s(vscale_s(s, cam.horizontal), vscale_s(t, cam.vertical)),
                        cam.origin,
                    ),
                    cam.lower_left_corner,
                ),
                offset,
            ),
        },
        s1,
    )
}

impl Camera {
    /// A camera from the view configuration: `lookfrom`, `lookat`, an up
    /// hint, a vertical field of view in degrees (fixed-point), the aspect
    /// ratio, the aperture and the focus distance.
    pub fn new(
        lookfrom: Vec3,
        lookat: Vec3,
        vup: Vec3,
        vfov: i64,
        aspect_ratio: i64,
        aperture: i64,
        focus_dist: i64,
    ) -> (cam: Camera)
        ensures
            cam == camera_new_s(lookfrom, lookat, vup, vfov, aspect_ratio, aperture, focus_dist),
    {
        let theta: i64 = fmul(vfov, DEG_FIX);
        let half_height: i64 = tan_approx(idiv(theta, 2));
        let half_width: i64 = fmul(aspect_ratio, half_height);
        let w = lookfrom.sub_v(&lookat).unit_vector();
        let u = vup.cross(&w).unit_vector();
        let v = w.cross(&u);
        let lens_radius: i64 = idiv(aperture, 2);

        let lower_left_corner = lookfrom.sub_v(&u.scale(fmul(half_width, focus_dist))).sub_v(
            &v.scale(fmul(half_height, focus_dist)),
        ).sub_v(&w.scale(focus_dist));
        let horizontal = u.scale(fmul(TWO, fmul(half_width, focus_dist)));
        let vertical = v.scale(fmul(TWO, fmul(half_height, focus_dist)));

        Camera {
            lower_left_corner,
            horizontal,
            vertical,
            origin: lookfrom,
            u,
            v,
            w,
            lens_radius,
        }
    }

    /// The ray for normalized image coordinates `(s, t)` (fixed-point, both
    /// in `[0, 1]`, measured from the lower-left corner).  A zero lens
    /// radius leaves the origin fixed; a positive one offsets it within the
    /// lens disc for depth-of-field.
    pub fn get_ray(&self, s: i64, t: i64, rng: &mut Rng) -> (r: Ray)
        ensures
            r == get_ray_s(*self, s, t, old(rng).state).0,
            final(rng).state == get_ray_s(*self, s, t, old(rng).state).1,
    {
        let d = random_in_unit_disc(rng);
        let rd = d.scale(self.lens_radius);
        let offset = self.u.scale(rd.x).add_v(&self.v.scale(rd.y));

        Ray {
            origin: offset.add_v(&self.origin),
            direction: self.horizontal.scale(s).add_v(&self.vertical.scale(t)).sub_v(
                &self.origin,
            ).add_v(&self.lower_left_corner).sub_v(&offset),
        }
    }
}

} // verus!
