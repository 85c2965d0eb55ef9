//! The material protocol: how surfaces scatter light.
//!
//! `scatter` consumes an incoming ray and a hit record and produces either
//! `None` (the ray is absorbed) or a scattered ray together with an
//! attenuation color that filters everything the scattered ray gathers.
//! The three canonical materials are a closed set of variants: Lambertian
//! (diffuse), Metal (specular with fuzz) and Dielectric (refractive with
//! Fresnel reflectance by Schlick's approximation).

use vstd::prelude::*;

use crate::fixed::{abs1, clip, fx_add, fx_div, fx_mul, fx_neg, fx_sqrt, fx_sub, Fx};
use crate::hit::HitRecord;
use crate::random::{
    chacha8_word, random_unit_vector, spec_unit_vector, word_unit, SampleExhausted, SampleRng,
};
use crate::ray::Ray;
use crate::vec3::Vec3;

verus! {

/// A surface material; each sphere owns one by value.
#[derive(Clone, Copy, Debug, PartialEq, Eq, Structural)]
pub enum Material {
    /// Diffuse: scatters about the surface normal, attenuated by `albedo`.
    Lambertian { albedo: Vec3 },
    /// Specular: mirrors the incoming direction, roughened by `fuzz`.
    Metal { albedo: Vec3, fuzz: Fx },
    /// Glass-like: reflects or refracts, absorbing nothing.
    Dielectric { refraction_index: Fx },
}

/// Fifth power, as fixed-point products.
pub open spec fn spec_pow5(a: int) -> int {
    fx_mul(fx_mul(fx_mul(fx_mul(a, a), a), a), a)
}

/// Schlick's reflectance approximation:
/// `r0^2 + (1 - r0^2) * (1 - cosine)^5` with `r0 = (1 - ri) / (1 + ri)`.
pub open spec fn spec_reflectance(cosine: Fx, refraction_index: Fx) -> Fx {
    let r0 = fx_div(fx_sub(65536, refraction_index.raw as int), fx_add(65536, refraction_index.raw as int));
    let r02 = fx_mul(r0, r0);
    Fx { raw: fx_add(r02, fx_mul(fx_sub(65536, r02), spec_pow5(fx_sub(65536, cosine.raw as int)))) as i64 }
}

/// Snell refraction of the unit direction `uv` at a surface with normal `n`
/// and index ratio `etai_over_etat`, decomposed into the components
/// perpendicular and parallel to the normal.
pub open spec fn spec_refract(uv: Vec3, n: Vec3, etai_over_etat: Fx) -> Vec3 {
    let cos_theta = Fx {
        raw: if uv.spec_neg().spec_dot(n).raw <= 65536 {
            uv.spec_neg().spec_dot(n).raw
        } else {
            65536i64
        },
    };
    let r_out_perp = uv.spec_add(n.spec_scale(cos_theta)).spec_scale(etai_over_etat);
    let r_out_parallel = n.spec_scale(
        Fx {
            raw: fx_neg(
                fx_sqrt(clip(abs1(fx_sub(65536, r_out_perp.spec_length2().raw as int)))),
            ) as i64,
        },
    );
    r_out_perp.spec_add(r_out_parallel)
}

/// What Lambertian scattering returns for the stream at `(seed, k)`: a
/// scattered ray toward `normal + unit_vector` (or the normal itself when
/// that sum degenerates to zero), always `Some`, attenuated by the albedo.
/// Exhaustion of the unit-vector draw surfaces as the error.
pub open spec fn spec_scatter_lambertian(
    albedo: Vec3,
    hit: HitRecord,
    seed: u64,
    k: int,
) -> (Result<Option<(Ray, Vec3)>, SampleExhausted>, int) {
    let (draw, k2) = spec_unit_vector(seed, k);
    match draw {
        None => (Err(SampleExhausted), k2),
        Some(u) => {
            let sum = hit.normal.spec_add(u);
            let direction = if sum.spec_length2().raw < 1 {
                hit.normal
            } else {
                sum
            };
            (Ok(Some((Ray { origin: hit.p, direction }, albedo))), k2)
        },
    }
}

/// What Metal scattering returns for the stream at `(seed, k)`: the
/// incoming direction mirrored about the normal, normalized, perturbed by
/// `fuzz` times a unit vector; absorbed (`None`) if the perturbed direction
/// points into the surface.
pub open spec fn spec_scatter_metal(
    albedo: Vec3,
    fuzz: Fx,
    ray: Ray,
    hit: HitRecord,
    seed: u64,
    k: int,
) -> (Result<Option<(Ray, Vec3)>, SampleExhausted>, int) {
    let (draw, k2) = spec_unit_vector(seed, k);
    match draw {
        None => (Err(SampleExhausted), k2),
        Some(u) => {
            let reflection = ray.direction.spec_reflect(hit.normal);
            let reflected = reflection.spec_normalize().spec_add(u.spec_scale(fuzz));
            if reflected.spec_dot(hit.normal).raw > 0 {
                (Ok(Some((Ray { origin: hit.p, direction: reflected }, albedo))), k2)
            } else {
                (Ok(None), k2)
            }
        },
    }
}

/// What Dielectric scattering returns for the stream at `(seed, k)`. The
/// index ratio is inverted when the ray enters the medium; the ray reflects
/// on total internal reflection without drawing a word, reflects when the
/// Schlick reflectance exceeds a fresh unit-range draw, and otherwise
/// refracts. The attenuation is neutral: glass absorbs nothing.
pub open spec fn spec_scatter_dielectric(
    refraction_index: Fx,
    ray: Ray,
    hit: HitRecord,
    seed: u64,
    k: int,
) -> (Result<Option<(Ray, Vec3)>, SampleExhausted>, int) {
    let attenuation = Vec3 { x: Fx { raw: 65536i64 }, y: Fx { raw: 65536i64 }, z: Fx { raw: 65536i64 } };
    let ri = if hit.front_face {
        Fx { raw: fx_div(65536, refraction_index.raw as int) as i64 }
    } else {
        refraction_index
    };
    let unit_direction = ray.direction.spec_normalize();
    let d = unit_direction.spec_neg().spec_dot(hit.normal);
    let cos_theta = Fx { raw: if d.raw <= 65536 { d.raw } else { 65536i64 } };
    let sin_theta = Fx {
        raw: fx_sqrt(fx_sub(65536, fx_mul(cos_theta.raw as int, cos_theta.raw as int))) as i64,
    };
    if fx_mul(ri.raw as int, sin_theta.raw as int) > 65536 {
        let direction = unit_direction.spec_reflect(hit.normal);
        (Ok(Some((Ray { origin: hit.p, direction }, attenuation))), k)
    } else {
        let draw = Fx { raw: word_unit(chacha8_word(seed, k)) as i64 };
        let direction = if spec_reflectance(cos_theta, ri).raw > draw.raw {
            unit_direction.spec_reflect(hit.normal)
        } else {
            spec_refract(unit_direction, hit.normal, ri)
        };
        (Ok(Some((Ray { origin: hit.p, direction }, attenuation))), k + 1)
    }
}

impl Material {
    /// What scattering returns for the stream at `(seed, k)`: the optional
    /// scattered ray and attenuation, and the stream position after it.
    pub open spec fn spec_scatter(self, ray: Ray, hit: HitRecord, seed: u64, k: int) -> (
        Result<Option<(Ray, Vec3)>, SampleExhausted>,
        int,
    ) {
        match self {
            Material::Lambertian { albedo } => spec_scatter_lambertian(albedo, hit, seed, k),
            Material::Metal { albedo, fuzz } => spec_scatter_metal(albedo, fuzz, ray, hit, seed, k),
            Material::Dielectric { refraction_index } => spec_scatter_dielectric(
                refraction_index,
                ray,
                hit,
                seed,
                k,
            ),
        }
    }

    /// Scatter the incoming ray at `hit_record`, drawing any randomness from
    /// `rng`. `Ok(None)` means the ray is absorbed and the path ends;
    /// Lambertian and Dielectric surfaces always scatter. `Err` surfaces
    /// rejection-sampling exhaustion, a fatal invariant violation.
    pub fn scatter(&self, ray: &Ray, hit_record: &HitRecord, rng: &mut SampleRng) -> (r: Result<
        Option<(Ray, Vec3)>,
        SampleExhausted,
    >)
        ensures
            final(rng).seed() == old(rng).seed(),
            ({
                let (res, k2) = self.spec_scatter(
                    *ray,
                    *hit_record,
                    old(rng).seed(),
                    old(rng).drawn(),
                );
                r == res && final(rng).drawn() == k2
            }),
            self is Lambertian ==> (r matches Ok(s) ==> s is Some),
            self is Dielectric ==> r is Ok && r->Ok_0 is Some,
    {
        match *self {
            Material::Lambertian { albedo } => {
                match random_unit_vector(rng) {
                    None => Err(SampleExhausted),
                    Some(u) => {
                        let sum = hit_record.normal.add(u);
                        let direction = if sum.length2().raw < 1 {
                            hit_record.normal
                        } else {
                            sum
                        };
                        Ok(Some((Ray::new(hit_record.p, direction), albedo)))
                    },
                }
            },
            Material::Metal { albedo, fuzz } => {
                match random_unit_vector(rng) {
                    None => Err(SampleExhausted),
                    Some(u) => {
                        let reflection = ray.direction.reflect(hit_record.normal);
                        let reflected = reflection.normalize().add(u.scale(fuzz));
                        if reflected.dot(hit_record.normal).raw > 0 {
                            Ok(Some((Ray::new(hit_record.p, reflected), albedo)))
                        } else {
                            Ok(None)
                        }
                    },
                }
            },
            Material::Dielectric { refraction_index } => {
                let one = Fx { raw: 65536i64 };
                let attenuation = Vec3 { x: one, y: one, z: one };
                let ri = if hit_record.front_face {
                    one.div(refraction_index)
                } else {
                    refraction_index
                };
                let unit_direction = ray.direction.normalize();
                let cos_theta = unit_direction.neg().dot(hit_record.normal).min(one);
                let sin_theta = one.sub(cos_theta.mul(cos_theta)).sqrt();
                let direction = if ri.mul(sin_theta).raw > 65536 {
                    unit_direction.reflect(hit_record.normal)
                } else {
                    let draw = crate::random::scalar_from_word(rng);
                    if reflectance(cos_theta, ri).raw > draw.raw {
                        unit_direction.reflect(hit_record.normal)
                    } else {
                        refract(unit_direction, hit_record.normal, ri)
                    }
                };
                Ok(Some((Ray::new(hit_record.p, direction), attenuation)))
            },
        }
    }
}

/// With zero fuzz a metal is a perfect mirror: whenever it scatters, the
/// scattered direction is exactly the normalized reflection
/// `d - 2 * dot(d, n) * n` of the incoming direction `d` about the normal
/// `n`, and the attenuation is the albedo.
pub proof fn lemma_metal_zero_fuzz_mirrors(
    albedo: Vec3,
    ray: Ray,
    hit: HitRecord,
    seed: u64,
    k: int,
)
    ensures
        ({
            let (r, k2) = spec_scatter_metal(albedo, Fx { raw: 0i64 }, ray, hit, seed, k);
            r matches Ok(Some((scattered, attenuation))) ==> {
                &&& scattered.direction == ray.direction.spec_reflect(hit.normal).spec_normalize()
                &&& scattered.origin == hit.p
                &&& attenuation == albedo
            }
        }),
{
    let (draw, k2) = spec_unit_vector(seed, k);
    match draw {
        Some(u) => {
            let m = ray.direction.spec_reflect(hit.normal).spec_normalize();
            assert(u.spec_scale(Fx { raw: 0i64 }) == Vec3::spec_zero());
            assert(m.spec_add(Vec3::spec_zero()) == m);
        },
        None => {},
    }
}

/// A dielectric scatters every ray with a neutral attenuation: glass
/// absorbs nothing, it only redirects.
pub proof fn lemma_dielectric_neutral(
    refraction_index: Fx,
    ray: Ray,
    hit: HitRecord,
    seed: u64,
    k: int,
)
    ensures
        ({
            let (r, k2) = spec_scatter_dielectric(refraction_index, ray, hit, seed, k);
            &&& r is Ok
            &&& r->Ok_0 is Some
            &&& r->Ok_0->Some_0.1 == (Vec3 {
                x: Fx { raw: 65536i64 },
                y: Fx { raw: 65536i64 },
                z: Fx { raw: 65536i64 },
            })
        }),
{
}

/// With a unit refraction index the effective index ratio is exactly one on
/// both sides of the surface, total internal reflection never fires (the
/// sine never exceeds one), and whenever the Schlick draw picks the
/// refraction branch the scattered direction is exactly the Snell
/// refraction with ratio one — which, in exact arithmetic, leaves a unit
/// direction unchanged.
pub proof fn lemma_dielectric_unit_index(ray: Ray, hit: HitRecord, seed: u64, k: int)
    ensures
        ({
            let one = Fx { raw: 65536i64 };
            let (r, k2) = spec_scatter_dielectric(one, ray, hit, seed, k);
            let unit_direction = ray.direction.spec_normalize();
            let d = unit_direction.spec_neg().spec_dot(hit.normal);
            let cos_theta = Fx { raw: if d.raw <= 65536 { d.raw } else { 65536i64 } };
            let draw = Fx { raw: word_unit(chacha8_word(seed, k)) as i64 };
            &&& k2 == k + 1
            &&& r is Ok
            &&& r->Ok_0 is Some
            &&& (spec_reflectance(cos_theta, one).raw <= draw.raw ==> r->Ok_0->Some_0.0.direction
                == spec_refract(unit_direction, hit.normal, one))
        }),
{
    let one = Fx { raw: 65536i64 };
    assert(fx_div(65536, 65536) == 65536) by {
        vstd::arithmetic::div_mod::lemma_div_multiples_vanish(65536, 65536);
        assert(65536 * 65536 == 65536int * 65536int) by (nonlinear_arith);
    }
    let unit_direction = ray.direction.spec_normalize();
    let d = unit_direction.spec_neg().spec_dot(hit.normal);
    let cos_theta = Fx { raw: if d.raw <= 65536 { d.raw } else { 65536i64 } };
    let c2 = fx_mul(cos_theta.raw as int, cos_theta.raw as int);
    crate::fixed::lemma_fx_square_nonneg(cos_theta.raw as int);
    let arg = fx_sub(65536, c2);
    let s = fx_sqrt(arg);
    if arg > 0 {
        crate::fixed::lemma_sqrt_floor_exists(arg * 65536);
        assert(s <= 65536) by (nonlinear_arith)
            requires
                crate::fixed::is_sqrt_floor(arg * 65536, s),
                arg <= 65536,
        ;
    }
    assert(s >= 0) by {
        if arg > 0 {
            crate::fixed::lemma_sqrt_floor_exists(arg * 65536);
        }
    }
    assert(fx_mul(65536, s) == s) by {
        vstd::arithmetic::div_mod::lemma_div_multiples_vanish(s, 65536);
        assert(65536 * s == s * 65536) by (nonlinear_arith);
    }
}

/// A dielectric with a unit refraction index never deviates a ray that
/// arrives head-on at an exactly unit normal, whatever the stream draws:
/// total internal reflection cannot fire, the Schlick reflectance is exactly
/// zero so the reflect branch is never taken, and the Snell refraction with
/// ratio one returns the incoming unit direction unchanged.
pub proof fn lemma_dielectric_unit_index_head_on(ray: Ray, hit: HitRecord, seed: u64, k: int)
    requires
        hit.normal.spec_wf(),
        hit.normal.spec_length2().raw == 65536,
        ray.direction.spec_normalize() == hit.normal.spec_neg(),
    ensures
        ({
            let one = Fx { raw: 65536i64 };
            let (r, k2) = spec_scatter_dielectric(one, ray, hit, seed, k);
            &&& k2 == k + 1
            &&& r matches Ok(Some((scattered, attenuation))) && scattered.direction
                == ray.direction.spec_normalize()
        }),
{
    let one = Fx { raw: 65536i64 };
    assert(fx_div(65536, 65536) == 65536) by {
        vstd::arithmetic::div_mod::lemma_div_multiples_vanish(65536, 65536);
        assert(65536 * 65536 == 65536int * 65536int) by (nonlinear_arith);
    }
    let unit_direction = ray.direction.spec_normalize();
    crate::vec3::lemma_neg_neg(hit.normal);
    assert(unit_direction.spec_neg().spec_dot(hit.normal) == hit.normal.spec_length2());
    // cos == 1, so 1 - cos^2 == 0 and the sine vanishes: no reflection path
    crate::fixed::lemma_fx_mul_one(65536);
    vstd::arithmetic::div_mod::lemma_div_of0(65536);
    vstd::arithmetic::div_mod::lemma_div_of0(131072);
    assert(fx_mul(0, 0) == 0);
    assert(fx_mul(65536, 0) == 0);
    assert(fx_div(0, 131072) == 0);
    assert(spec_reflectance(Fx { raw: 65536i64 }, one).raw == 0);
    assert(word_unit(chacha8_word(seed, k)) >= 0);
    lemma_refract_matched_head_on(hit.normal);
}

/// At head-on incidence with matched indices, refraction is exactly the
/// identity, even in this saturating arithmetic: a ray arriving along the
/// inward normal of an exactly unit normal leaves unchanged.
pub proof fn lemma_refract_matched_head_on(n: Vec3)
    requires
        n.spec_wf(),
        n.spec_length2().raw == 65536,
    ensures
        spec_refract(n.spec_neg(), n, Fx { raw: 65536i64 }) == n.spec_neg(),
{
    let one = Fx { raw: 65536i64 };
    let u = n.spec_neg();
    crate::vec3::lemma_neg_neg(n);
    // cos = min(dot(-u, n), 1) == min(|n|^2, 1) == 1
    assert(u.spec_neg().spec_dot(n) == n.spec_length2());
    // the perpendicular component vanishes: (u + 1 * n) * 1 == 0
    crate::vec3::lemma_scale_one(n);
    crate::vec3::lemma_add_opposite(n);
    crate::vec3::lemma_zero_vector(one);
    // the parallel component carries the whole unit length back along n:
    // sqrt(1 - 0) == 1, and n * (-1) == -n == u
    assert(crate::fixed::is_sqrt_floor(65536int * 65536int, 65536int)) by (nonlinear_arith);
    crate::fixed::lemma_sqrt_floor_of(65536int * 65536int, 65536int);
    crate::vec3::lemma_scale_neg_one(n);
    crate::vec3::lemma_add_zero(u);
}

/// Schlick's reflectance approximation.
pub fn reflectance(cosine: Fx, refraction_index: Fx) -> (r: Fx)
    ensures
        r == spec_reflectance(cosine, refraction_index),
{
    let one = Fx { raw: 65536i64 };
    let r0 = one.sub(refraction_index).div(one.add(refraction_index));
    let r02 = r0.mul(r0);
    let m = one.sub(cosine);
    let p5 = m.mul(m).mul(m).mul(m).mul(m);
    r02.add(one.sub(r02).mul(p5))
}

/// Snell refraction of the unit direction `uv` at normal `n`.
pub fn refract(uv: Vec3, n: Vec3, etai_over_etat: Fx) -> (r: Vec3)
    ensures
        r == spec_refract(uv, n, etai_over_etat),
{
    let one = Fx { raw: 65536i64 };
    let cos_theta = uv.neg().dot(n).min(one);
    let r_out_perp = uv.add(n.scale(cos_theta)).scale(etai_over_etat);
    let r_out_parallel = n.scale(one.sub(r_out_perp.length2()).abs().sqrt().neg());
    r_out_perp.add(r_out_parallel)
}

} // verus!
