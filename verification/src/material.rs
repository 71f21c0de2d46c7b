//! The closed set of surface materials.

use vstd::prelude::*;
use crate::dielectric::Dielectric;
use crate::lambertian::Lambertian;
use crate::metal::Metal;

verus! {

/// How a surface answers an incoming ray. Each variant's `scatter` gives the
/// attenuation and the outgoing ray, or nothing where the ray is absorbed.
#[derive(Clone, Copy, Debug)]
pub enum Material {
    Lambertian(Lambertian),
    Metal(Metal),
    Dielectric(Dielectric),
}

} // verus!
