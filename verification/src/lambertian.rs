//! Diffuse surfaces.

use vstd::prelude::*;
use crate::color::Color;
use crate::hittable::HitRecord;
use crate::ray::Ray;
use crate::vector3::Vector3;

verus! {

/// A diffuse surface: it scatters every ray, tinted by its albedo.
#[derive(Clone, Copy, Debug)]
pub struct Lambertian {
    albedo: Color,
}

impl Lambertian {
    /// The tint of the surface.
    pub closed spec fn spec_albedo(&self) -> Color {
        self.albedo
    }

    /// The direction a diffuse bounce takes: the candidate, or the normal
    /// where the candidate is too short for a direction.
    pub open spec fn spec_direction(normal: Vector3, candidate: Vector3) -> Vector3 {
        if candidate.spec_near_zero() {
            normal
        } else {
            candidate
        }
    }

    /// A diffuse surface of the given tint.
    pub fn new(albedo: Color) -> (m: Lambertian)
        ensures
            m.spec_albedo() == albedo,
    {
        Lambertian { albedo }
    }

    /// The tint of the surface.
    #[verifier::when_used_as_spec(spec_albedo)]
    pub fn albedo(&self) -> (c: Color)
        ensures
            c == self.spec_albedo(),
    {
        self.albedo
    }

    /// Scatters a ray at a hit. Never absorbs.
    ///
    /// `candidate` is the sum of the hit's normal and a random unit vector.
    /// The outgoing ray leaves the hit point along the candidate, or along the
    /// normal where the two nearly cancel.
    pub fn scatter(&self, hit_record: &HitRecord, candidate: Vector3) -> (out: Option<(Color, Ray)>)
        ensures
            out matches Some((attenuation, scattered))
                && attenuation == self.spec_albedo()
                && scattered.origin == hit_record.point
                && scattered.direction == Lambertian::spec_direction(hit_record.normal, candidate),
    {
        let mut scatter_direction = candidate;
        if scatter_direction.near_zero() {
            scatter_direction = hit_record.normal;
        }
        let scattered = Ray::new(hit_record.point, scatter_direction);
        Some((self.albedo, scattered))
    }
}

} // verus!
