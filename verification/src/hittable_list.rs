//! The scene: an ordered list of spheres, searched linearly for the
//! nearest intersection along a ray.

use crate::hittable::{sphere_hit_s, sphere_wf, HitRecord, Sphere};
use crate::ray::Ray;
use vstd::prelude::*;

verus! {

/// An ordered collection of spheres.
pub struct HittableList {
    pub list: Vec<Sphere>,
}

/// Every sphere of the scene is well-formed.
pub open spec fn scene_wf(l: HittableList) -> bool {
    forall|j: int| 0 <= j < l.list@.len() ==> sphere_wf(#[trigger] l.list@[j])
}

/// The nearest-hit search over the first `n` spheres: each accepted hit
/// shrinks the effective upper bound to its `t`, so the final record is
/// the nearest accepted intersection.
pub open spec fn list_hit_upto(l: Seq<Sphere>, r: Ray, t_min: i64, t_max: i64, n: int) -> Option<
    HitRecord,
>
    decreases n,
{
    if n <= 0 {
        None
    } else {
        let prev = list_hit_upto(l, r, t_min, t_max, n - 1);
        let cur_max = match prev {
            Some(h) => h.t,
            None => t_max,
        };
        match sphere_hit_s(l[n - 1], r, t_min, cur_max) {
            Some(h2) => Some(h2),
            None => prev,
        }
    }
}

/// What the scene search returns.
pub open spec fn list_hit_s(l: Seq<Sphere>, r: Ray, t_min: i64, t_max: i64) -> Option<HitRecord> {
    list_hit_upto(l, r, t_min, t_max, l.len() as int)
}

impl HittableList {
    /// The nearest intersection of `r` with any sphere of the scene whose
    /// parameter lies strictly inside `(t_min, t_max)`.
    pub fn hit(&self, r: &Ray, t_min: i64, t_max: i64) -> (res: Option<HitRecord>)
        requires
            scene_wf(*self),
        ensures
            res == list_hit_s(self.list@, *r, t_min, t_max),
    {
        let mut best: Option<HitRecord> = None;
        let mut i: usize = 0;
        while i < self.list.len()
            invariant
                0 <= i <= self.list@.len(),
                scene_wf(*self),
                best == list_hit_upto(self.list@, *r, t_min, t_max, i as int),
            decreases self.list@.len() - i,
        {
            let closest_so_far: i64 = match &best {
                Some(h) => h.t,
                None => t_max,
            };
            let res_i = self.list[i].hit(r, t_min, closest_so_far);
            if let Some(h2) = res_i {
                best = Some(h2);
            }
            i = i + 1;
        }
        best
    }
}

/// An accepted hit record's parameter lies strictly inside the window.
pub proof fn lemma_sphere_hit_in_window(sph: Sphere, r: Ray, t_min: i64, t_max: i64)
    requires
        sphere_hit_s(sph, r, t_min, t_max) is Some,
    ensures
        t_min < sphere_hit_s(sph, r, t_min, t_max)->0.t < t_max,
{
}

/// Widening the window preserves an accepted hit unchanged.
pub proof fn lemma_sphere_window_widen(sph: Sphere, r: Ray, t_min: i64, c: i64, t_max: i64)
    requires
        c <= t_max,
        sphere_hit_s(sph, r, t_min, c) is Some,
    ensures
        sphere_hit_s(sph, r, t_min, t_max) == sphere_hit_s(sph, r, t_min, c),
{
    let oc = crate::vec3::vsub_s(r.origin, sph.center);
    let a = crate::vec3::dot_s(r.direction, r.direction);
    let half_b = crate::vec3::dot_s(oc, r.direction);
    let root = crate::fixed::fsqrt_s(
        crate::fixed::fsub_s(
            crate::fixed::fmul_s(half_b, half_b),
            crate::fixed::fmul_s(
                a,
                crate::fixed::fsub_s(
                    crate::vec3::dot_s(oc, oc),
                    crate::fixed::fmul_s(sph.radius, sph.radius),
                ),
            ),
        ),
    );
    crate::fixed::lemma_fdiv_mono(
        crate::fixed::fsub_s(crate::fixed::fneg_s(half_b), root),
        crate::fixed::fadd_s(crate::fixed::fneg_s(half_b), root),
        a,
    );
}

/// Narrowing the window down to just above the hit preserves it unchanged.
pub proof fn lemma_sphere_window_narrow(sph: Sphere, r: Ray, t_min: i64, c: i64, t_max: i64)
    requires
        c <= t_max,
        sphere_hit_s(sph, r, t_min, t_max) is Some,
        sphere_hit_s(sph, r, t_min, t_max)->0.t < c,
    ensures
        sphere_hit_s(sph, r, t_min, c) == sphere_hit_s(sph, r, t_min, t_max),
{
    let oc = crate::vec3::vsub_s(r.origin, sph.center);
    let a = crate::vec3::dot_s(r.direction, r.direction);
    let half_b = crate::vec3::dot_s(oc, r.direction);
    let root = crate::fixed::fsqrt_s(
        crate::fixed::fsub_s(
            crate::fixed::fmul_s(half_b, half_b),
            crate::fixed::fmul_s(
                a,
                crate::fixed::fsub_s(
                    crate::vec3::dot_s(oc, oc),
                    crate::fixed::fmul_s(sph.radius, sph.radius),
                ),
            ),
        ),
    );
    crate::fixed::lemma_fdiv_mono(
        crate::fixed::fsub_s(crate::fixed::fneg_s(half_b), root),
        crate::fixed::fadd_s(crate::fixed::fneg_s(half_b), root),
        a,
    );
}

/// The scene search over the first `n` spheres returns the nearest hit:
/// when it returns a record, some sphere produced that record over the full
/// window, and no sphere's full-window hit is strictly nearer; when it
/// returns nothing, no sphere hits at all.
#[verifier::rlimit(80)]
pub proof fn lemma_list_hit_props(l: Seq<Sphere>, r: Ray, t_min: i64, t_max: i64, n: int)
    requires
        0 <= n <= l.len(),
    ensures
        match list_hit_upto(l, r, t_min, t_max, n) {
            None => forall|j: int|
                0 <= j < n ==> #[trigger] sphere_hit_s(l[j], r, t_min, t_max) is None,
            Some(h) => {
                &&& exists|k: int|
                    0 <= k < n && #[trigger] sphere_hit_s(l[k], r, t_min, t_max) == Some(h)
                &&& t_min < h.t < t_max
                &&& forall|j: int|
                    0 <= j < n && #[trigger] sphere_hit_s(l[j], r, t_min, t_max) is Some
                        ==> sphere_hit_s(l[j], r, t_min, t_max)->0.t >= h.t
            },
        },
    decreases n,
{
    if n > 0 {
        lemma_list_hit_props(l, r, t_min, t_max, n - 1);
        let prev = list_hit_upto(l, r, t_min, t_max, n - 1);
        let cur_max = match prev {
            Some(h) => h.t,
            None => t_max,
        };
        let s_hit = sphere_hit_s(l[n - 1], r, t_min, cur_max);
        match s_hit {
            Some(h2) => {
                lemma_sphere_hit_in_window(l[n - 1], r, t_min, cur_max);
                lemma_sphere_window_widen(l[n - 1], r, t_min, cur_max, t_max);
                assert(sphere_hit_s(l[n - 1], r, t_min, t_max) == Some(h2));
            },
            None => {
                match prev {
                    Some(hp) => {
                        if sphere_hit_s(l[n - 1], r, t_min, t_max) is Some {
                            let g = sphere_hit_s(l[n - 1], r, t_min, t_max)->0;
                            if g.t < cur_max {
                                lemma_sphere_window_narrow(l[n - 1], r, t_min, cur_max, t_max);
                                assert(false);
                            }
                        }
                    },
                    None => {
                        assert(cur_max == t_max);
                    },
                }
            },
        }
    }
}

/// The nearest-hit property of the whole scene search.
pub proof fn lemma_list_hit_nearest(l: Seq<Sphere>, r: Ray, t_min: i64, t_max: i64)
    ensures
        match list_hit_s(l, r, t_min, t_max) {
            None => forall|j: int|
                0 <= j < l.len() ==> #[trigger] sphere_hit_s(l[j], r, t_min, t_max) is None,
            Some(h) => {
                &&& exists|k: int|
                    0 <= k < l.len() && #[trigger] sphere_hit_s(l[k], r, t_min, t_max) == Some(h)
                &&& t_min < h.t < t_max
                &&& forall|j: int|
                    0 <= j < l.len() && #[trigger] sphere_hit_s(l[j], r, t_min, t_max) is Some
                        ==> sphere_hit_s(l[j], r, t_min, t_max)->0.t >= h.t
            },
        },
{
    lemma_list_hit_props(l, r, t_min, t_max, l.len() as int);
}

/// When exactly one sphere intersects the ray, the scene search returns
/// that sphere's record — its material and parameter included.
pub proof fn lemma_list_hit_single(l: Seq<Sphere>, r: Ray, t_min: i64, t_max: i64, k: int)
    requires
        0 <= k < l.len(),
        sphere_hit_s(l[k], r, t_min, t_max) is Some,
        forall|j: int|
            0 <= j < l.len() && j != k ==> #[trigger] sphere_hit_s(l[j], r, t_min, t_max) is None,
    ensures
        list_hit_s(l, r, t_min, t_max) == sphere_hit_s(l[k], r, t_min, t_max),
{
    lemma_list_hit_nearest(l, r, t_min, t_max);
    match list_hit_s(l, r, t_min, t_max) {
        None => {
            assert(sphere_hit_s(l[k], r, t_min, t_max) is None);
        },
        Some(h) => {
            let k2 = choose|k2: int|
                0 <= k2 < l.len() && #[trigger] sphere_hit_s(l[k2], r, t_min, t_max) == Some(h);
            assert(k2 == k);
        },
    }
}

/// Of two overlapping spheres, the scene search returns the intersection
/// with the strictly smaller parameter.
pub proof fn lemma_list_hit_two_nearest(l: Seq<Sphere>, r: Ray, t_min: i64, t_max: i64)
    requires
        l.len() == 2,
        sphere_hit_s(l[0], r, t_min, t_max) is Some,
        sphere_hit_s(l[1], r, t_min, t_max) is Some,
        sphere_hit_s(l[0], r, t_min, t_max)->0.t != sphere_hit_s(l[1], r, t_min, t_max)->0.t,
    ensures
        list_hit_s(l, r, t_min, t_max) == if sphere_hit_s(l[0], r, t_min, t_max)->0.t
            < sphere_hit_s(l[1], r, t_min, t_max)->0.t {
            sphere_hit_s(l[0], r, t_min, t_max)
        } else {
            sphere_hit_s(l[1], r, t_min, t_max)
        },
{
    lemma_list_hit_nearest(l, r, t_min, t_max);
    match list_hit_s(l, r, t_min, t_max) {
        None => {
            assert(false);
        },
        Some(h) => {
            let k = choose|k: int|
                0 <= k < l.len() && #[trigger] sphere_hit_s(l[k], r, t_min, t_max) == Some(h);
            assert(k == 0 || k == 1);
        },
    }
}

} // verus!
