//! Rays: an origin and a direction.

use vstd::prelude::*;
use crate::vector3::{Point3, Vector3};

verus! {

/// The half-line `origin + t * direction`. The direction need not have unit
/// length.
#[derive(Clone, Copy, Debug)]
pub struct Ray {
    pub origin: Point3,
    pub direction: Vector3,
}

impl Ray {
    /// The ray from `origin` along `direction`.
    pub fn new(origin: Point3, direction: Vector3) -> (ray: Ray)
        ensures
            ray.origin == origin,
            ray.direction == direction,
    {
        Ray { origin, direction }
    }
}

} // verus!
