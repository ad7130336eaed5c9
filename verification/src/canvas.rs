//! The viewport an object is drawn into, and the frustum derived from it.

use vstd::prelude::*;
use vstd::arithmetic::power2::{lemma2_to64, lemma_pow2_adds, pow2};
use crate::scalar::{larger_encoding_is_larger_number, positive_finite_by_encoding, Scalar};

verus! {

/// Encoding of the largest number below a half turn, that is below π radians.
/// It stands for 13176794 / 2^22, about 3.14159250. The next encoding is the
/// number nearest to π, about 3.14159274, which lies above it.
pub const BELOW_HALF_TURN_BITS: u32 = 0x4049_0FDA;

/// What the projection needs to know of the viewport.
///
/// `aspect` is the viewport's width divided by its height; `fov` is the
/// vertical field of view in radians. The values are stored as given;
/// [`CanvasData::is_valid`] tells whether a projection can be made of them.
#[derive(Clone, Copy, Debug, PartialEq, Eq, Structural)]
pub struct CanvasData {
    pub aspect: Scalar,
    pub fov: Scalar,
}

impl CanvasData {
    /// A canvas with the given aspect ratio and vertical field of view.
    pub open spec fn spec_new(aspect: Scalar, fov: Scalar) -> CanvasData {
        CanvasData { aspect, fov }
    }

    /// A canvas is valid when its aspect ratio is above zero and finite, and
    /// its field of view lies strictly between zero and a half turn: above
    /// zero and not above the largest number below π.
    pub open spec fn valid(&self) -> bool {
        &&& self.aspect.spec_is_positive_finite()
        &&& self.fov.spec_is_positive_finite()
        &&& self.fov.steps() <= (Scalar { bits: BELOW_HALF_TURN_BITS }).steps()
    }

    /// A canvas with the given aspect ratio and vertical field of view.
    #[verifier::when_used_as_spec(spec_new)]
    pub fn new(aspect: Scalar, fov: Scalar) -> (canvas: CanvasData)
        ensures
            canvas == CanvasData::spec_new(aspect, fov),
    {
        CanvasData { aspect, fov }
    }

    /// Whether the aspect ratio is above zero and finite and the field of
    /// view lies strictly between zero and a half turn.
    pub fn is_valid(&self) -> (valid: bool)
        ensures
            valid == self.valid(),
    {
        proof {
            let bound = Scalar { bits: BELOW_HALF_TURN_BITS };
            positive_finite_by_encoding(self.fov);
            positive_finite_by_encoding(bound);
            if self.fov.spec_is_positive_finite() {
                larger_encoding_is_larger_number(self.fov, bound);
            }
        }
        self.aspect.is_positive_finite() && 0 < self.fov.bits && self.fov.bits
            <= BELOW_HALF_TURN_BITS
    }

    /// The viewport's width divided by its height.
    pub fn get_aspect(&self) -> (aspect: Scalar)
        ensures
            aspect == self.aspect,
    {
        self.aspect
    }

    /// The vertical field of view, in radians.
    pub fn get_fov(&self) -> (fov: Scalar)
        ensures
            fov == self.fov,
    {
        self.fov
    }
}

/// The bound on the field of view stands for the fraction 13176794 / 2^22.
pub proof fn half_turn_bound_is_a_fraction()
    ensures
        (Scalar { bits: BELOW_HALF_TURN_BITS }).is_fraction(13176794, 0x40_0000),
{
    let bound = Scalar { bits: BELOW_HALF_TURN_BITS };
    assert(bound.sign() == 0 && bound.exponent() == 128 && bound.fraction() == 0x49_0FDA);
    lemma_pow2_adds(22, 127);
    lemma2_to64();
    let spacing = pow2(127) as int;
    assert(0x40_0000 * (13176794 * spacing) == 13176794 * (0x40_0000 * spacing))
        by (nonlinear_arith);
}

/// The four numbers a perspective projection is made from, in the order
/// aspect ratio, vertical field of view, near plane, far plane.
#[derive(Clone, Copy, Debug, PartialEq, Eq, Structural)]
pub struct Perspective {
    pub aspect: Scalar,
    pub fovy: Scalar,
    pub near: Scalar,
    pub far: Scalar,
}

} // verus!
