//! The record of a ray meeting a surface.

use vstd::prelude::*;
use crate::material::Material;
use crate::scalar::Scalar;
use crate::vector3::{Point3, Vector3};

verus! {

/// Where a ray met a surface. The normal faces against the incoming ray.
#[derive(Clone, Copy, Debug)]
pub struct HitRecord<'a> {
    pub point: Point3,
    pub normal: Vector3,
    pub t: Scalar,
    pub front_face: bool,
    pub material: &'a Material,
}

impl<'a> HitRecord<'a> {
    /// Whether a ray whose direction has the dot product `incidence` with the
    /// outward normal meets the surface from outside.
    pub open spec fn spec_front_face(incidence: Scalar) -> bool {
        incidence.spec_lt(Scalar::spec_zero())
    }

    /// The outward normal for a hit from outside, its reverse for one from
    /// inside.
    pub open spec fn spec_normal(outward_normal: Vector3, incidence: Scalar) -> Vector3 {
        if HitRecord::spec_front_face(incidence) {
            outward_normal
        } else {
            outward_normal.spec_neg()
        }
    }

    /// The dot product of the ray's direction with the recorded normal, given
    /// its dot product `incidence` with the outward normal: reversing a vector
    /// reverses its dot products.
    pub open spec fn spec_facing(incidence: Scalar) -> Scalar {
        if HitRecord::spec_front_face(incidence) {
            incidence
        } else {
            incidence.spec_neg()
        }
    }

    /// Records a hit and orients its normal.
    ///
    /// `incidence` is the dot product of the ray's direction with
    /// `outward_normal`. Where it is negative the ray comes from outside and
    /// the normal is kept; elsewhere, zero and NaN included, the hit counts as
    /// one from inside and the normal is reversed.
    pub fn new(
        point: Point3,
        outward_normal: Vector3,
        t: Scalar,
        incidence: Scalar,
        material: &'a Material,
    ) -> (record: HitRecord<'a>)
        ensures
            record.point == point,
            record.t == t,
            record.front_face == HitRecord::spec_front_face(incidence),
            record.normal == HitRecord::spec_normal(outward_normal, incidence),
            record.material == material,
    {
        let front_face = incidence.lt(Scalar::zero());
        let normal = if front_face {
            outward_normal
        } else {
            outward_normal.neg()
        };
        HitRecord { point, normal, t, front_face, material }
    }

    /// The recorded normal never leans along the incoming ray: the dot product
    /// of the two is zero or negative, unless it is a NaN.
    pub proof fn lemma_normal_faces_ray(incidence: Scalar)
        requires
            !incidence.spec_is_nan(),
        ensures
            HitRecord::spec_facing(incidence).spec_le(Scalar::spec_zero()),
    {
    }
}

} // verus!
