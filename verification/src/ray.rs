//! Rays: an origin and an (unnormalized) direction.

use crate::vec3::{vadd_s, vscale_s, Vec3};
use vstd::prelude::*;

verus! {

/// A half-line through `origin` along `direction`.  The direction need not
/// have unit length.
#[derive(Clone, Copy, PartialEq, Eq, Structural, Debug)]
pub struct Ray {
    pub origin: Vec3,
    pub direction: Vec3,
}

/// The point `origin + t * direction`.
pub open spec fn point_at_s(r: Ray, t: i64) -> Vec3 {
    vadd_s(vscale_s(t, r.direction), r.origin)
}

impl Ray {
    /// A ray from its origin and direction.
    pub fn new(origin: Vec3, direction: Vec3) -> (r: Ray)
        ensures
            r == (Ray { origin, direction }),
    {
        Ray { origin, direction }
    }

    /// The point the ray reaches at parameter `t`.
    pub fn point_at_parameter(&self, t: i64) -> (p: Vec3)
        ensures
            p == point_at_s(*self, t),
    {
        self.direction.scale(t).add_v(&self.origin)
    }
}

} // verus!
