//! Spheres and their ray-intersection test.

use vstd::prelude::*;

use crate::fixed::{
    fx_add, fx_div, fx_mul, fx_sqrt, fx_sub, lemma_fx_div_monotone, lemma_sqrt_floor_exists, Fx,
};
use crate::hit::HitRecord;
use crate::interval::Interval;
use crate::material::Material;
use crate::ray::Ray;
use crate::vec3::Vec3;

verus! {

/// A sphere: center, radius and the material it owns by value.
#[derive(Clone, Copy, Debug, PartialEq, Eq, Structural)]
pub struct Sphere {
    pub center: Vec3,
    pub radius: Fx,
    pub material: Material,
}

impl Sphere {
    /// A sphere from its parts.
    pub fn new(center: Vec3, radius: Fx, material: Material) -> (r: Sphere)
        ensures
            r == (Sphere { center, radius, material }),
    {
        Sphere { center, radius, material }
    }

    /// The vector from the ray origin to the center.
    pub open spec fn spec_oc(self, ray: Ray) -> Vec3 {
        self.center.spec_sub(ray.origin)
    }

    /// The reduced discriminant `h^2 - a*c` of the intersection quadratic,
    /// with `a = |D|^2`, `h = D . (C - O)` and `c = |C - O|^2 - r^2`.
    pub open spec fn spec_discriminant(self, ray: Ray) -> Fx {
        let oc = self.spec_oc(ray);
        let a = ray.direction.spec_length2();
        let h = ray.direction.spec_dot(oc);
        let c = Fx {
            raw: fx_sub(
                oc.spec_length2().raw as int,
                fx_mul(self.radius.raw as int, self.radius.raw as int),
            ) as i64,
        };
        Fx { raw: fx_sub(fx_mul(h.raw as int, h.raw as int), fx_mul(a.raw as int, c.raw as int)) as i64 }
    }

    /// The nearer root `(h - sqrt(disc)) / a` of the quadratic.
    pub open spec fn spec_root1(self, ray: Ray) -> Fx {
        let a = ray.direction.spec_length2();
        let h = ray.direction.spec_dot(self.spec_oc(ray));
        let sq = fx_sqrt(self.spec_discriminant(ray).raw as int);
        Fx { raw: fx_div(fx_sub(h.raw as int, sq), a.raw as int) as i64 }
    }

    /// The farther root `(h + sqrt(disc)) / a` of the quadratic.
    pub open spec fn spec_root2(self, ray: Ray) -> Fx {
        let a = ray.direction.spec_length2();
        let h = ray.direction.spec_dot(self.spec_oc(ray));
        let sq = fx_sqrt(self.spec_discriminant(ray).raw as int);
        Fx { raw: fx_div(fx_add(h.raw as int, sq), a.raw as int) as i64 }
    }

    /// The record reported for a hit at parameter `t`: the hit point, the
    /// outward normal `(p - C) / r` flipped to oppose the ray, and whether
    /// the outward-facing side was struck.
    pub open spec fn spec_record_at(self, ray: Ray, t: Fx) -> HitRecord {
        let p = ray.spec_at(t);
        let outward_normal = p.spec_sub(self.center).spec_div_scalar(self.radius);
        let front_face = ray.direction.spec_dot(outward_normal).raw < 0;
        let normal = if front_face {
            outward_normal
        } else {
            outward_normal.spec_neg()
        };
        HitRecord { p, normal, t, front_face, material: self.material }
    }

    /// What the intersection test returns: `None` when the discriminant is
    /// negative or neither root lies strictly inside `interval`, else the
    /// record at the nearer qualifying root. A degenerate direction — one
    /// whose squared length vanishes at this resolution — never hits.
    pub open spec fn spec_hit(self, ray: Ray, interval: Interval) -> Option<HitRecord> {
        if ray.direction.spec_length2().raw == 0 {
            None
        } else if self.spec_discriminant(ray).raw < 0 {
            None
        } else {
            let root1 = self.spec_root1(ray);
            let root2 = self.spec_root2(ray);
            if interval.spec_surrounds(root1) {
                Some(self.spec_record_at(ray, root1))
            } else if interval.spec_surrounds(root2) {
                Some(self.spec_record_at(ray, root2))
            } else {
                None
            }
        }
    }

    /// Intersect `ray` with the sphere, accepting only parameters strictly
    /// inside `interval`. A geometrically degenerate ray — a direction whose
    /// squared length vanishes — is treated as a miss, never an error.
    pub fn hit(&self, ray: &Ray, interval: &Interval) -> (r: Option<HitRecord>)
        ensures
            r == self.spec_hit(*ray, *interval),
            ray.direction.spec_length2().raw == 0 ==> r is None,
    {
        let oc = self.center.sub(ray.origin);
        let a = ray.direction.length2();
        if a.raw == 0 {
            return None;
        }
        let h = ray.direction.dot(oc);
        let c = oc.length2().sub(self.radius.mul(self.radius));
        let discriminant = h.mul(h).sub(a.mul(c));
        if discriminant.raw < 0 {
            return None;
        }
        let sq = discriminant.sqrt();
        let mut root = h.sub(sq).div(a);
        if !interval.surrounds(root) {
            root = h.add(sq).div(a);
            if !interval.surrounds(root) {
                return None;
            }
        }
        let t = root;
        let p = ray.at(t);
        let outward_normal = p.sub(self.center).div_scalar(self.radius);
        let front_face = ray.direction.dot(outward_normal).raw < 0;
        let normal = if front_face {
            outward_normal
        } else {
            outward_normal.neg()
        };
        Some(HitRecord::new(t, p, normal, front_face, self.material))
    }
}

/// A ray that misses a sphere entirely — the intersection quadratic has no
/// real root — is reported as a miss for every interval.
pub proof fn lemma_sphere_miss(s: Sphere, ray: Ray, interval: Interval)
    requires
        s.spec_discriminant(ray).raw < 0,
    ensures
        s.spec_hit(ray, interval) is None,
{
}

/// A ray whose direction squares to zero at this resolution is reported as
/// a miss for every interval and every sphere: geometric degeneracy is no
/// hit, not an error.
pub proof fn lemma_sphere_degenerate_direction(s: Sphere, ray: Ray, interval: Interval)
    requires
        ray.direction.spec_length2().raw == 0,
    ensures
        s.spec_hit(ray, interval) is None,
{
}

/// A reported hit always lies strictly inside the interval it was asked for.
pub proof fn lemma_sphere_hit_in_interval(s: Sphere, ray: Ray, interval: Interval)
    ensures
        s.spec_hit(ray, interval) matches Some(h) ==> interval.spec_surrounds(h.t),
{
}

/// The nearer root never exceeds the farther one.
pub proof fn lemma_root_order(s: Sphere, ray: Ray)
    requires
        s.spec_discriminant(ray).raw >= 0,
    ensures
        s.spec_root1(ray).raw <= s.spec_root2(ray).raw,
{
    let a = ray.direction.spec_length2();
    let h = ray.direction.spec_dot(s.spec_oc(ray));
    let disc = s.spec_discriminant(ray);
    crate::vec3::lemma_length2_nonneg(ray.direction);
    lemma_sqrt_floor_exists(disc.raw as int * 65536);
    let sq = fx_sqrt(disc.raw as int);
    assert(sq >= 0);
    lemma_fx_div_monotone(
        fx_sub(h.raw as int, sq),
        fx_add(h.raw as int, sq),
        a.raw as int,
    );
}

/// Narrowing the far end of the interval to `cut` keeps exactly the hits
/// whose parameter lies below `cut`, unchanged, and drops the rest.
pub proof fn lemma_sphere_hit_narrow(s: Sphere, ray: Ray, interval: Interval, cut: Fx)
    requires
        cut.raw <= interval.max.raw,
    ensures
        s.spec_hit(ray, Interval { min: interval.min, max: cut }) == (match s.spec_hit(
            ray,
            interval,
        ) {
            Some(h) => if h.t.raw < cut.raw {
                Some(h)
            } else {
                None::<HitRecord>
            },
            None => None::<HitRecord>,
        }),
{
    if s.spec_discriminant(ray).raw >= 0 {
        lemma_root_order(s, ray);
    }
}

/// When the quadratic has a real root strictly inside the interval — as for
/// a ray cast from outside the sphere whose direction passes through it —
/// the test reports a hit, its parameter lies strictly inside the interval,
/// and its normal opposes the ray direction: `dot(normal, direction) <= 0`.
pub proof fn lemma_sphere_hit_some(s: Sphere, ray: Ray, interval: Interval)
    requires
        ray.direction.spec_length2().raw != 0,
        s.spec_discriminant(ray).raw >= 0,
        interval.spec_surrounds(s.spec_root1(ray)) || interval.spec_surrounds(s.spec_root2(ray)),
    ensures
        s.spec_hit(ray, interval) is Some,
        interval.spec_surrounds(s.spec_hit(ray, interval)->Some_0.t),
        s.spec_hit(ray, interval)->Some_0.normal.spec_dot(ray.direction).raw <= 0,
{
    let h = s.spec_hit(ray, interval)->Some_0;
    let t = h.t;
    let p = ray.spec_at(t);
    let outward_normal = p.spec_sub(s.center).spec_div_scalar(s.radius);
    crate::vec3::lemma_dot_neg(outward_normal, ray.direction);
    crate::vec3::lemma_dot_commutes(outward_normal, ray.direction);
    crate::vec3::lemma_dot_commutes(outward_normal.spec_neg(), ray.direction);
}

} // verus!
