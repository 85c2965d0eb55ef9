//! Rays: an origin and a direction.

use vstd::prelude::*;

use crate::fixed::Fx;
use crate::vec3::Vec3;

verus! {

/// A half-line `origin + t * direction`. The direction is not normalized by
/// construction; each consumer decides whether to normalize. Immutable once
/// created.
#[derive(Clone, Copy, Debug, PartialEq, Eq, Structural)]
pub struct Ray {
    pub origin: Vec3,
    pub direction: Vec3,
}

impl Ray {
    /// The point at parameter `t` along the ray.
    pub open spec fn spec_at(self, t: Fx) -> Vec3 {
        self.origin.spec_add(self.direction.spec_scale(t))
    }

    /// A ray from its origin and direction.
    pub fn new(origin: Vec3, direction: Vec3) -> (r: Ray)
        ensures
            r == (Ray { origin, direction }),
    {
        Ray { origin, direction }
    }

    /// The point at parameter `t` along the ray.
    pub fn at(&self, t: Fx) -> (r: Vec3)
        ensures
            r == self.spec_at(t),
    {
        self.origin.add(self.direction.scale(t))
    }
}

} // verus!
