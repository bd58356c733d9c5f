//! The pose written by the shake evaluators, in fixed-point units.

use vstd::prelude::*;

verus! {

/// A two-dimensional vector in fixed-point units.
#[derive(Clone, Copy, Debug, PartialEq, Eq, Structural)]
pub struct FxVec2 {
    pub x: i64,
    pub y: i64,
}

/// A three-dimensional vector in fixed-point units.
#[derive(Clone, Copy, Debug, PartialEq, Eq, Structural)]
pub struct FxVec3 {
    pub x: i64,
    pub y: i64,
    pub z: i64,
}

/// A rotation given as yaw, pitch and roll angles in fixed-point
/// radians.  The angles apply in YXZ order: yaw about the Y axis first,
/// then pitch about X, then roll about Z.  The identity rotation has all
/// three angles zero.
#[derive(Clone, Copy, Debug, PartialEq, Eq, Structural)]
pub struct EulerYxz {
    pub yaw: i64,
    pub pitch: i64,
    pub roll: i64,
}

/// The pose an evaluator writes each frame: a translation offset and a
/// rotation.  The written pose replaces the entity's local transform
/// wholesale; it is never added to a prior value.  An entity to be
/// shaken must therefore be a dedicated node whose parent carries the
/// base pose, so that composition happens through the hierarchy.
#[derive(Clone, Copy, Debug, PartialEq, Eq, Structural)]
pub struct ShakeTransform {
    pub translation: FxVec3,
    pub rotation: EulerYxz,
}

impl ShakeTransform {
    /// The identity pose: zero offset and zero rotation.
    pub open spec fn identity_s() -> ShakeTransform {
        ShakeTransform {
            translation: FxVec3 { x: 0, y: 0, z: 0 },
            rotation: EulerYxz { yaw: 0, pitch: 0, roll: 0 },
        }
    }

    /// Builds the identity pose.
    pub fn identity() -> (t: ShakeTransform)
        ensures
            t == ShakeTransform::identity_s(),
    {
        ShakeTransform {
            translation: FxVec3 { x: 0, y: 0, z: 0 },
            rotation: EulerYxz { yaw: 0, pitch: 0, roll: 0 },
        }
    }
}

} // verus!
