use vstd::prelude::*;

verus! {

/// A vector of three components.
#[derive(Clone, Copy, Debug, PartialEq, Eq, Structural)]
pub struct Vector3<T> {
    pub x: T,
    pub y: T,
    pub z: T,
}

/// A rotation as a quaternion of unit norm: vector part `(i, j, k)` and scalar part `w`.
///
/// The norm is not checked here: the scalar type is opaque to this library, and the
/// numeric routines that produce rotations are the ones that keep them normalised.
#[derive(Clone, Copy, Debug, PartialEq, Eq, Structural)]
pub struct UnitQuaternion<T> {
    pub i: T,
    pub j: T,
    pub k: T,
    pub w: T,
}

} // verus!
