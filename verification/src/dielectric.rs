//! Transparent surfaces.

use vstd::prelude::*;
use crate::color::Color;
use crate::hittable::HitRecord;
use crate::ray::Ray;
use crate::scalar::Scalar;
use crate::vector3::Vector3;

verus! {

/// A clear medium such as glass. It absorbs nothing.
#[derive(Clone, Copy, Debug)]
pub struct Dielectric {
    pub refraction_index: Scalar,
}

impl Dielectric {
    /// The ratio of refractive indices that a ray crosses: the reciprocal of
    /// the index where it enters the medium, the index where it leaves.
    pub open spec fn spec_refraction_ratio(&self, front_face: bool, reciprocal: Scalar) -> Scalar {
        if front_face {
            reciprocal
        } else {
            self.refraction_index
        }
    }

    /// Whether a ray is mirrored instead of bent.
    ///
    /// It is where Snell's law has no solution, `ratio * sin(theta) > 1`, or
    /// where the reflectance exceeds the sample drawn for this ray.
    pub open spec fn spec_reflects(bend: Scalar, reflectance: Scalar, sample: Scalar) -> bool {
        bend.spec_gt(Scalar::spec_one()) || reflectance.spec_gt(sample)
    }

    /// A medium of the given refraction index.
    pub fn new(refraction_index: Scalar) -> (m: Dielectric)
        ensures
            m.refraction_index == refraction_index,
    {
        Dielectric { refraction_index }
    }

    /// Picks the refraction ratio for a hit. `reciprocal` is `1.0` divided by
    /// the refraction index.
    pub fn refraction_ratio(&self, front_face: bool, reciprocal: Scalar) -> (ratio: Scalar)
        ensures
            ratio == self.spec_refraction_ratio(front_face, reciprocal),
    {
        if front_face {
            reciprocal
        } else {
            self.refraction_index
        }
    }

    /// Decides between mirroring and bending a ray.
    ///
    /// `bend` is the refraction ratio times the sine of the angle of
    /// incidence, `reflectance` is Schlick's approximation for that angle and
    /// ratio, and `sample` is drawn uniformly from `[0, 1)`.
    #[verifier::when_used_as_spec(spec_reflects)]
    pub fn reflects(bend: Scalar, reflectance: Scalar, sample: Scalar) -> (mirror: bool)
        ensures
            mirror == Dielectric::spec_reflects(bend, reflectance, sample),
    {
        bend.gt(Scalar::one()) || reflectance.gt(sample)
    }

    /// Scatters a ray at a hit. Never absorbs, never tints.
    ///
    /// `reflected` and `refracted` are the mirrored and the bent direction of
    /// the incoming ray; `bend`, `reflectance` and `sample` are as in
    /// `reflects`, which picks between the two.
    pub fn scatter(
        &self,
        hit_record: &HitRecord,
        bend: Scalar,
        reflectance: Scalar,
        sample: Scalar,
        reflected: Vector3,
        refracted: Vector3,
    ) -> (out: Option<(Color, Ray)>)
        ensures
            out matches Some((attenuation, scattered))
                && attenuation@.x == Scalar::spec_one()
                && attenuation@.y == Scalar::spec_one()
                && attenuation@.z == Scalar::spec_one()
                && scattered.origin == hit_record.point
                && scattered.direction == (if Dielectric::spec_reflects(bend, reflectance, sample) {
                    reflected
                } else {
                    refracted
                }),
    {
        let attenuation = Color::white();
        let direction = if Dielectric::reflects(bend, reflectance, sample) {
            reflected
        } else {
            refracted
        };
        let scattered = Ray::new(hit_record.point, direction);
        Some((attenuation, scattered))
    }
}

} // verus!
