//! Why a scene description is refused.

use vstd::prelude::*;
use crate::scalar::Scalar;

verus! {

/// A value that a constructor of this crate does not accept.
#[derive(Clone, Copy, Debug)]
pub enum Error {
    /// A colour channel below `0.0` or above `1.0`; the channel is attached.
    InvalidColor(Scalar),
    /// A sphere radius that is zero or negative.
    InvalidRadius,
    /// A metal roughness below `0.0` or above `1.0`.
    InvalidFuzz,
}

} // verus!
