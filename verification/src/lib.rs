//! A deterministic Monte Carlo path tracer over fixed-point arithmetic.
//!
//! The crate renders a scene of spheres with diffuse, metallic and
//! dielectric surfaces into a raster-order pixel buffer. Every scalar is a
//! fixed-point number (`fixed::Fx`), so each stage of the pipeline — camera
//! projection, sphere intersection, material scattering, recursive radiance
//! accumulation, tone mapping — has an exact, machine-checked contract.

pub mod builder;
pub mod camera;
pub mod fixed;
pub mod hit;
pub mod interval;
pub mod material;
pub mod random;
pub mod ray;
pub mod sphere;
pub mod vec3;
pub mod world;
