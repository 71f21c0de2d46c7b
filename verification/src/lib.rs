//! The decision kernel of a small path tracer.
//!
//! A path tracer follows rays from a camera into a scene of spheres, lets
//! them bounce off diffuse, metallic and transparent surfaces, and averages
//! what they see into the pixels of an image. Most of that is arithmetic on
//! real numbers. This crate holds the rest: which root of a quadratic is the
//! hit, which of many hits is the nearest, which way a normal faces, whether
//! a material scatters a ray and along which of the directions on offer,
//! when a ray stops bouncing, and how the finished image is written.
//!
//! Real numbers enter and leave as IEEE-754 binary64 bit patterns (see
//! [`scalar::Scalar`]). The crate never does arithmetic on them: it compares
//! them and flips their sign. A renderer computes dot products, roots and
//! directions in floating point, hands them over, and acts on the answer.
//! Every answer carries a contract, and the laws that relate the answers are
//! proved beside them.

pub mod camera;
pub mod color;
pub mod dielectric;
pub mod error;
pub mod hittable;
pub mod hittables;
pub mod lambertian;
pub mod material;
pub mod metal;
pub mod ray;
pub mod scalar;
pub mod sphere;
pub mod vector3;
