//! A verified path tracer over saturating fixed-point arithmetic.
//!
//! The library renders a static scene of spheres with diffuse, metal and
//! dielectric materials into a row-major pixel buffer, by stochastic
//! recursive ray tracing with Monte-Carlo antialiasing. All randomness is
//! drawn from an explicit, deterministically seeded generator, so a render
//! is a pure function of scene, camera, image parameters and master seed.

pub mod fx;
pub mod rng;
pub mod vec3;
pub mod ray;
pub mod sample;
pub mod hittable;
pub mod material;
pub mod scene;
pub mod camera;
pub mod render;
pub mod laws;
