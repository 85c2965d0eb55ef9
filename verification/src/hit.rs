//! Hit records: what an intersection test reports.

use vstd::prelude::*;

use crate::fixed::Fx;
use crate::material::Material;
use crate::vec3::Vec3;

verus! {

/// The outcome of a successful intersection: the hit point, the surface
/// normal (flipped at construction to oppose the incoming ray), the ray
/// parameter `t`, whether the ray struck the outward-facing side, and the
/// material of the struck primitive. Created fresh for every hit and owned
/// by the caller.
#[derive(Clone, Copy, Debug, PartialEq, Eq, Structural)]
pub struct HitRecord {
    pub p: Vec3,
    pub normal: Vec3,
    pub t: Fx,
    pub front_face: bool,
    pub material: Material,
}

impl HitRecord {
    /// A record from its parts.
    pub fn new(t: Fx, p: Vec3, normal: Vec3, front_face: bool, material: Material) -> (r:
        HitRecord)
        ensures
            r == (HitRecord { p, normal, t, front_face, material }),
    {
        HitRecord { p, normal, t, front_face, material }
    }
}

} // verus!
