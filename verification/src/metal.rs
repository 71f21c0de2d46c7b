//! Reflective surfaces with roughness.

use vstd::prelude::*;
use crate::color::Color;
use crate::error::Error;
use crate::hittable::HitRecord;
use crate::ray::Ray;
use crate::scalar::Scalar;
use crate::vector3::Vector3;

verus! {

/// A mirror, blurred by `fuzz`. The roughness is neither below `0.0` nor
/// above `1.0`.
#[derive(Clone, Copy, Debug)]
pub struct Metal {
    albedo: Color,
    fuzz: Scalar,
}

impl Metal {
    /// The tint of the surface.
    pub closed spec fn spec_albedo(&self) -> Color {
        self.albedo
    }

    /// The roughness of the surface.
    pub closed spec fn spec_fuzz(&self) -> Scalar {
        self.fuzz
    }

    /// Whether a roughness is accepted: it is neither below `0.0` nor above
    /// `1.0`. A NaN compares false both times and passes.
    pub open spec fn valid_fuzz(fuzz: Scalar) -> bool {
        !fuzz.spec_lt(Scalar::spec_zero()) && !fuzz.spec_gt(Scalar::spec_one())
    }

    #[verifier::type_invariant]
    closed spec fn fuzz_in_range(self) -> bool {
        Metal::valid_fuzz(self.fuzz)
    }

    /// Whether a mirrored ray leaves the surface: its direction has a
    /// positive dot product `alignment` with the normal.
    pub open spec fn leaves_surface(alignment: Scalar) -> bool {
        alignment.spec_gt(Scalar::spec_zero())
    }

    /// A metal of the given tint and roughness. A roughness below `0.0` or
    /// above `1.0` is refused.
    pub fn new(albedo: Color, fuzz: Scalar) -> (m: Result<Metal, Error>)
        ensures
            m is Ok <==> Metal::valid_fuzz(fuzz),
            m matches Ok(metal) ==> metal.spec_albedo() == albedo && metal.spec_fuzz() == fuzz,
            m matches Err(e) ==> e == Error::InvalidFuzz,
    {
        if fuzz.lt(Scalar::zero()) || fuzz.gt(Scalar::one()) {
            Err(Error::InvalidFuzz)
        } else {
            Ok(Metal { albedo, fuzz })
        }
    }

    /// The tint of the surface.
    #[verifier::when_used_as_spec(spec_albedo)]
    pub fn albedo(&self) -> (c: Color)
        ensures
            c == self.spec_albedo(),
    {
        self.albedo
    }

    /// The roughness of the surface.
    #[verifier::when_used_as_spec(spec_fuzz)]
    pub fn fuzz(&self) -> (f: Scalar)
        ensures
            f == self.spec_fuzz(),
            Metal::valid_fuzz(f),
    {
        proof {
            use_type_invariant(self);
        }
        self.fuzz
    }

    /// Scatters a ray at a hit, or absorbs it.
    ///
    /// `direction` is the mirrored direction of the incoming ray, normalised
    /// and perturbed by `fuzz` times a random unit vector; `alignment` is its
    /// dot product with the hit's normal. The ray is absorbed exactly where
    /// the perturbed direction does not leave the surface.
    pub fn scatter(&self, hit_record: &HitRecord, direction: Vector3, alignment: Scalar) -> (out:
        Option<(Color, Ray)>)
        ensures
            out is Some <==> Metal::leaves_surface(alignment),
            out matches Some((attenuation, scattered)) ==> attenuation == self.spec_albedo()
                && scattered.origin == hit_record.point && scattered.direction == direction,
    {
        let scattered = Ray::new(hit_record.point, direction);
        if alignment.gt(Scalar::zero()) {
            Some((self.albedo, scattered))
        } else {
            None
        }
    }
}

} // verus!
