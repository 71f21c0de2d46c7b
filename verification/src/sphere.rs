//! Spheres, and which root of the ray-sphere quadratic counts as the hit.

use vstd::prelude::*;
use crate::error::Error;
use crate::hittable::HitRecord;
use crate::material::Material;
use crate::scalar::Scalar;
use crate::vector3::{Point3, Vector3};

verus! {

/// The solutions of `|origin + t * direction - center|^2 = radius^2` for one
/// ray and one sphere.
///
/// With `oc = center - origin`, `a = direction . direction`,
/// `h = direction . oc` and `c = oc . oc - radius^2`, the discriminant is
/// `h^2 - a * c` and the roots are `(h - sqrt(discriminant)) / a` and
/// `(h + sqrt(discriminant)) / a`. The roots mean nothing where the
/// discriminant is negative.
#[derive(Clone, Copy, Debug)]
pub struct Roots {
    pub discriminant: Scalar,
    pub smaller: Scalar,
    pub larger: Scalar,
}

impl Roots {
    /// Whether the roots come in order: the larger is not below the smaller.
    /// Roots computed by the formula above always do.
    pub open spec fn ordered(self) -> bool {
        !self.larger.spec_lt(self.smaller)
    }
}

/// A sphere with its material. The radius is positive.
#[derive(Clone, Copy, Debug)]
pub struct Sphere {
    center: Point3,
    radius: Scalar,
    material: Material,
}

impl Sphere {
    /// The centre of the sphere.
    pub closed spec fn spec_center(&self) -> Point3 {
        self.center
    }

    /// The radius of the sphere.
    pub closed spec fn spec_radius(&self) -> Scalar {
        self.radius
    }

    /// The material of the sphere.
    pub closed spec fn spec_material(&self) -> Material {
        self.material
    }

    /// Whether a radius is accepted: it is not zero or negative. A NaN
    /// compares false and passes.
    pub open spec fn valid_radius(radius: Scalar) -> bool {
        !radius.spec_le(Scalar::spec_zero())
    }

    #[verifier::type_invariant]
    closed spec fn radius_positive(self) -> bool {
        Sphere::valid_radius(self.radius)
    }

    /// Whether `t` lies strictly inside `(t_min, t_max)`. Both ends are
    /// excluded, and a NaN lies in no interval.
    pub open spec fn spec_is_t_valid(t: Scalar, t_min: Scalar, t_max: Scalar) -> bool {
        t.spec_gt(t_min) && t.spec_lt(t_max)
    }

    /// The ray parameter at which a ray with these roots hits: the smaller
    /// root where it lies in the interval, else the larger root where that
    /// one does, else nothing. A negative discriminant is a miss.
    pub open spec fn spec_hit(roots: Roots, t_min: Scalar, t_max: Scalar) -> Option<Scalar> {
        if roots.discriminant.spec_lt(Scalar::spec_zero()) {
            None
        } else if Sphere::spec_is_t_valid(roots.smaller, t_min, t_max) {
            Some(roots.smaller)
        } else if Sphere::spec_is_t_valid(roots.larger, t_min, t_max) {
            Some(roots.larger)
        } else {
            None
        }
    }

    /// The sphere around `center`. A radius that is zero or negative is
    /// refused.
    pub fn new(center: Point3, radius: Scalar, material: Material) -> (s: Result<Sphere, Error>)
        ensures
            s is Ok <==> Sphere::valid_radius(radius),
            s matches Ok(sphere) ==> sphere.spec_center() == center && sphere.spec_radius()
                == radius && sphere.spec_material() == material,
            s matches Err(e) ==> e == Error::InvalidRadius,
    {
        if radius.le(Scalar::zero()) {
            Err(Error::InvalidRadius)
        } else {
            Ok(Sphere { center, radius, material })
        }
    }

    /// The centre of the sphere.
    #[verifier::when_used_as_spec(spec_center)]
    pub fn center(&self) -> (c: Point3)
        ensures
            c == self.spec_center(),
    {
        self.center
    }

    /// The radius of the sphere.
    #[verifier::when_used_as_spec(spec_radius)]
    pub fn radius(&self) -> (r: Scalar)
        ensures
            r == self.spec_radius(),
            Sphere::valid_radius(r),
    {
        proof {
            use_type_invariant(self);
        }
        self.radius
    }

    /// The material of the sphere.
    pub fn material(&self) -> (m: &Material)
        ensures
            *m == self.spec_material(),
    {
        &self.material
    }

    fn is_t_valid(t: Scalar, ray_tmin: Scalar, ray_tmax: Scalar) -> (ok: bool)
        ensures
            ok == Sphere::spec_is_t_valid(t, ray_tmin, ray_tmax),
    {
        t.gt(ray_tmin) && t.lt(ray_tmax)
    }

    /// Builds the record of a hit on this sphere.
    ///
    /// `point` is the ray at parameter `t`, `outward_normal` is
    /// `(point - center) / radius`, and `incidence` is the dot product of the
    /// ray's direction with that normal.
    pub fn get_hit_record(
        &self,
        point: Point3,
        outward_normal: Vector3,
        t: Scalar,
        incidence: Scalar,
    ) -> (record: HitRecord<'_>)
        ensures
            record.point == point,
            record.t == t,
            record.front_face == HitRecord::spec_front_face(incidence),
            record.normal == HitRecord::spec_normal(outward_normal, incidence),
            *record.material == self.spec_material(),
    {
        HitRecord::new(point, outward_normal, t, incidence, &self.material)
    }

    /// Where a ray hits this sphere inside `(ray_tmin, ray_tmax)`, if it does.
    ///
    /// `roots` are the roots of this sphere's quadratic for the ray.
    pub fn hit(&self, roots: &Roots, ray_tmin: Scalar, ray_tmax: Scalar) -> (t: Option<Scalar>)
        ensures
            t == Sphere::spec_hit(*roots, ray_tmin, ray_tmax),
    {
        if roots.discriminant.lt(Scalar::zero()) {
            return None;
        }
        if Sphere::is_t_valid(roots.smaller, ray_tmin, ray_tmax) {
            return Some(roots.smaller);
        }
        if Sphere::is_t_valid(roots.larger, ray_tmin, ray_tmax) {
            return Some(roots.larger);
        }
        None
    }

    /// A hit lies strictly inside the interval it was asked for, and is one
    /// of the two roots.
    pub proof fn lemma_hit_in_interval(roots: Roots, t_min: Scalar, t_max: Scalar)
        ensures
            Sphere::spec_hit(roots, t_min, t_max) matches Some(t) ==> {
                &&& t_min.spec_lt(t)
                &&& t.spec_lt(t_max)
                &&& (t == roots.smaller || t == roots.larger)
            },
    {
    }

    /// Of roots in order, the hit is the first that lies in the interval: no
    /// root in the interval is below it.
    pub proof fn lemma_hit_is_first_root(roots: Roots, t_min: Scalar, t_max: Scalar)
        requires
            roots.ordered(),
        ensures
            Sphere::spec_hit(roots, t_min, t_max) matches Some(t) ==> {
                &&& Sphere::spec_is_t_valid(roots.smaller, t_min, t_max) ==> !roots.smaller.spec_lt(t)
                &&& Sphere::spec_is_t_valid(roots.larger, t_min, t_max) ==> !roots.larger.spec_lt(t)
            },
    {
    }

    /// Narrowing the interval from above keeps a hit that still fits and
    /// drops one that does not; it never brings another.
    pub proof fn lemma_hit_tighter_bound(roots: Roots, t_min: Scalar, t_max: Scalar, tighter: Scalar)
        requires
            roots.ordered(),
            tighter.spec_le(t_max),
        ensures
            Sphere::spec_hit(roots, t_min, tighter) == match Sphere::spec_hit(roots, t_min, t_max) {
                Some(t) => if t.spec_lt(tighter) {
                    Some(t)
                } else {
                    None
                },
                None => None,
            },
    {
    }
}

} // verus!
