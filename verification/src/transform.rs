//! Where an object stands in the scene.

use vstd::prelude::*;
use crate::scalar::Scalar;

verus! {

/// The placement of an object: a translation along the three axes.
///
/// Every component is always present. Rotation and scale are not held yet;
/// an object is drawn unrotated and unscaled.
#[derive(Clone, Copy, Debug, PartialEq, Eq, Structural)]
pub struct Transform {
    pub trans_x: Scalar,
    pub trans_y: Scalar,
    pub trans_z: Scalar,
}

impl Transform {
    /// A placement translated by `(trans_x, trans_y, trans_z)`.
    pub open spec fn spec_new(trans_x: Scalar, trans_y: Scalar, trans_z: Scalar) -> Transform {
        Transform { trans_x, trans_y, trans_z }
    }

    /// The placement at the origin: the translation `(0, 0, 0)`.
    pub open spec fn origin() -> Transform {
        Transform {
            trans_x: Scalar::spec_zero(),
            trans_y: Scalar::spec_zero(),
            trans_z: Scalar::spec_zero(),
        }
    }

    /// A placement translated by `(trans_x, trans_y, trans_z)`.
    #[verifier::when_used_as_spec(spec_new)]
    pub fn new(trans_x: Scalar, trans_y: Scalar, trans_z: Scalar) -> (transform: Transform)
        ensures
            transform == Transform::spec_new(trans_x, trans_y, trans_z),
    {
        Transform { trans_x, trans_y, trans_z }
    }

    /// The translation along the x axis.
    pub fn get_trans_x(&self) -> (x: Scalar)
        ensures
            x == self.trans_x,
    {
        self.trans_x
    }

    /// The translation along the y axis.
    pub fn get_trans_y(&self) -> (y: Scalar)
        ensures
            y == self.trans_y,
    {
        self.trans_y
    }

    /// The translation along the z axis.
    pub fn get_trans_z(&self) -> (z: Scalar)
        ensures
            z == self.trans_z,
    {
        self.trans_z
    }
}

impl Default for Transform {
    /// The placement at the origin.
    fn default() -> (transform: Transform)
        ensures
            transform == Transform::origin(),
    {
        Transform { trans_x: Scalar::zero(), trans_y: Scalar::zero(), trans_z: Scalar::zero() }
    }
}

} // verus!
