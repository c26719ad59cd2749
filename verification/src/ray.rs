//! A ray: an origin point and a direction vector, with the parameterized
//! point-at-distance query `origin + direction * t`.

use vstd::prelude::*;

use crate::vec3::plus_s;
use crate::vec3::scaled_s;
use crate::vec3::Vec3;

verus! {

/// A half-line through `origin` along `direction` (not necessarily unit length).
#[derive(Clone, Copy, PartialEq, Eq, Structural, Debug)]
pub struct Ray {
    pub origin: Vec3,
    pub direction: Vec3,
}

/// The point at fixed-point parameter `t` along the ray.
pub open spec fn point_at_s(r: Ray, t: i64) -> Vec3 {
    plus_s(r.origin, scaled_s(r.direction, t))
}

impl Ray {
    /// Build a ray from an origin and a direction.
    pub fn new(origin: Vec3, direction: Vec3) -> (r: Ray)
        ensures
            r == (Ray { origin, direction }),
    {
        Ray { origin, direction }
    }

    /// The point at fixed-point parameter `t` along the ray.
    pub fn point_at(self, t: i64) -> (p: Vec3)
        ensures
            p == point_at_s(self, t),
    {
        self.origin.plus(self.direction.scaled(t))
    }
}

} // verus!
