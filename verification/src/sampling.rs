//! Random direction sampling: rejection sampling inside the unit ball and
//! the unit disc, and the closed-form uniform direction on the unit sphere.
//!
//! The rejection loops draw until a candidate falls inside the unit shape.
//! Acceptance is overwhelmingly likely per try, but the loop carries an
//! attempt budget so that each sampler is a total function of the generator
//! state; after the budget the origin (squared length 0) is returned.

use crate::fixed::{fmul, fmul_s, fsqrt, fsqrt_s, fsub, fsub_s, ONE};
use crate::rng::{draw_sym_s, draw_unit_s, Rng};
use crate::trig::{cos_full, cos_s, sin_full, sin_s, TWO_PI_FIX};
use crate::vec3::{squared_length_s, vzero_s, Vec3};
use vstd::prelude::*;

verus! {

/// How many rejected candidates a sampler tolerates before it falls back to
/// the origin.
pub const SAMPLE_ATTEMPTS: u64 = 4096;

/// One candidate for the unit-ball sampler: three symmetric draws.
pub open spec fn sphere_try_s(s: u64) -> (Vec3, u64) {
    let (x, s1) = draw_sym_s(s);
    let (y, s2) = draw_sym_s(s1);
    let (z, s3) = draw_sym_s(s2);
    (Vec3 { x, y, z }, s3)
}

/// The first accepted candidate inside the unit ball, within `fuel` retries.
pub open spec fn sample_sphere_rec(s: u64, fuel: nat) -> (Vec3, u64)
    decreases fuel,
{
    let (p, s1) = sphere_try_s(s);
    if squared_length_s(p) < ONE {
        (p, s1)
    } else if fuel == 0 {
        (vzero_s(), s1)
    } else {
        sample_sphere_rec(s1, (fuel - 1) as nat)
    }
}

/// What the unit-ball sampler returns from a given generator state.
pub open spec fn sample_sphere_s(s: u64) -> (Vec3, u64) {
    sample_sphere_rec(s, SAMPLE_ATTEMPTS as nat)
}

/// One candidate for the unit-disc sampler: two symmetric draws, z = 0.
pub open spec fn disc_try_s(s: u64) -> (Vec3, u64) {
    let (x, s1) = draw_sym_s(s);
    let (y, s2) = draw_sym_s(s1);
    (Vec3 { x, y, z: 0 }, s2)
}

/// The first accepted candidate inside the unit disc, within `fuel` retries.
pub open spec fn sample_disc_rec(s: u64, fuel: nat) -> (Vec3, u64)
    decreases fuel,
{
    let (p, s1) = disc_try_s(s);
    if squared_length_s(p) < ONE {
        (p, s1)
    } else if fuel == 0 {
        (vzero_s(), s1)
    } else {
        sample_disc_rec(s1, (fuel - 1) as nat)
    }
}

/// What the unit-disc sampler returns from a given generator state.
pub open spec fn sample_disc_s(s: u64) -> (Vec3, u64) {
    sample_disc_rec(s, SAMPLE_ATTEMPTS as nat)
}

/// A point uniformly distributed inside the radius-1 ball: each component
/// is drawn uniformly in `[-1, 1)` until the squared length is below 1.
pub fn random_in_unit_sphere(rng: &mut Rng) -> (p: Vec3)
    ensures
        p == sample_sphere_s(old(rng).state).0,
        final(rng).state == sample_sphere_s(old(rng).state).1,
        squared_length_s(p) < ONE,
{
    let mut fuel: u64 = SAMPLE_ATTEMPTS;
    loop
        invariant
            fuel <= SAMPLE_ATTEMPTS,
            sample_sphere_rec(old(rng).state, SAMPLE_ATTEMPTS as nat) == sample_sphere_rec(
                rng.state,
                fuel as nat,
            ),
        decreases fuel,
    {
        let ghost s_pre: u64 = rng.state;
        let x: i64 = rng.next_sym();
        let y: i64 = rng.next_sym();
        let z: i64 = rng.next_sym();
        let cand = Vec3 { x, y, z };
        proof {
            assert(sphere_try_s(s_pre) == (cand, rng.state));
        }
        if cand.squared_length() < ONE {
            proof {
                assert(sample_sphere_rec(s_pre, fuel as nat) == (cand, rng.state));
            }
            return cand;
        }
        if fuel == 0 {
            proof {
                assert(sample_sphere_rec(s_pre, fuel as nat) == (vzero_s(), rng.state));
                crate::vec3::lemma_zero_squared_length();
            }
            return Vec3::zero();
        }
        proof {
            assert(sample_sphere_rec(s_pre, fuel as nat) == sample_sphere_rec(
                rng.state,
                (fuel - 1) as nat,
            ));
        }
        fuel = fuel - 1;
    }
}

/// A point uniformly distributed inside the radius-1 disc in the xy-plane,
/// for lens sampling.
pub fn random_in_unit_disc(rng: &mut Rng) -> (p: Vec3)
    ensures
        p == sample_disc_s(old(rng).state).0,
        final(rng).state == sample_disc_s(old(rng).state).1,
        squared_length_s(p) < ONE,
        p.z == 0,
{
    let mut fuel: u64 = SAMPLE_ATTEMPTS;
    loop
        invariant
            fuel <= SAMPLE_ATTEMPTS,
            sample_disc_rec(old(rng).state, SAMPLE_ATTEMPTS as nat) == sample_disc_rec(
                rng.state,
                fuel as nat,
            ),
        decreases fuel,
    {
        let ghost s_pre: u64 = rng.state;
        let x: i64 = rng.next_sym();
        let y: i64 = rng.next_sym();
        let cand = Vec3 { x, y, z: 0 };
        proof {
            assert(disc_try_s(s_pre) == (cand, rng.state));
        }
        if cand.squared_length() < ONE {
            proof {
                assert(sample_disc_rec(s_pre, fuel as nat) == (cand, rng.state));
            }
            return cand;
        }
        if fuel == 0 {
            proof {
                assert(sample_disc_rec(s_pre, fuel as nat) == (vzero_s(), rng.state));
                crate::vec3::lemma_zero_squared_length();
            }
            return Vec3::zero();
        }
        proof {
            assert(sample_disc_rec(s_pre, fuel as nat) == sample_disc_rec(
                rng.state,
                (fuel - 1) as nat,
            ));
        }
        fuel = fuel - 1;
    }
}

/// What the closed-form unit-direction sampler returns: an azimuth uniform
/// in `[0, 2*pi)`, a height uniform in `[-1, 1)`, and the point on the
/// sphere surface they parameterize.
pub open spec fn unit_vector_draw_s(s: u64) -> (Vec3, u64) {
    let (ua, s1) = draw_unit_s(s);
    let a = fmul_s(ua, TWO_PI_FIX);
    let (z, s2) = draw_sym_s(s1);
    let r = fsqrt_s(fsub_s(ONE, fmul_s(z, z)));
    (Vec3 { x: fmul_s(r, cos_s(a)), y: fmul_s(r, sin_s(a)), z }, s2)
}

/// A direction uniformly distributed on the unit sphere surface, by the
/// standard height/azimuth parameterization (no rejection loop).
pub fn random_unit_vector(rng: &mut Rng) -> (p: Vec3)
    ensures
        p == unit_vector_draw_s(old(rng).state).0,
        final(rng).state == unit_vector_draw_s(old(rng).state).1,
{
    let ua: i64 = rng.next_unit();
    let a: i64 = fmul(ua, TWO_PI_FIX);
    let z: i64 = rng.next_sym();
    let zz: i64 = fmul(z, z);
    proof {
        crate::fixed::lemma_sq_unit_range(z);
    }
    let r: i64 = fsqrt(fsub(ONE, zz));
    Vec3 { x: fmul(r, cos_full(a)), y: fmul(r, sin_full(a)), z }
}

} // verus!
