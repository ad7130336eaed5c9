//! Four-by-four matrices in the layout the graphics context expects.
//!
//! A matrix is held as its four columns. Written out column after column it
//! gives the sixteen numbers of the column-major layout, which is what a
//! uniform upload takes when it is told not to transpose.

use vstd::prelude::*;
use crate::scalar::Scalar;

verus! {

/// Four scalars: one column of a [`Matrix4`].
#[derive(Clone, Copy, Debug, PartialEq, Eq, Structural)]
pub struct Vector4 {
    pub x: Scalar,
    pub y: Scalar,
    pub z: Scalar,
    pub w: Scalar,
}

impl Vector4 {
    /// The column `(x, y, z, w)`.
    pub open spec fn spec_new(x: Scalar, y: Scalar, z: Scalar, w: Scalar) -> Vector4 {
        Vector4 { x, y, z, w }
    }

    /// The column `(x, y, z, w)`.
    #[verifier::when_used_as_spec(spec_new)]
    pub fn new(x: Scalar, y: Scalar, z: Scalar, w: Scalar) -> (column: Vector4)
        ensures
            column == Vector4::spec_new(x, y, z, w),
    {
        Vector4 { x, y, z, w }
    }
}

/// A four-by-four matrix, held as its columns from left to right.
///
/// For a matrix that places an object, `x_axis`, `y_axis` and `z_axis` carry
/// rotation and scale, and `w_axis` carries the translation.
#[derive(Clone, Copy, Debug, PartialEq, Eq, Structural)]
pub struct Matrix4 {
    pub x_axis: Vector4,
    pub y_axis: Vector4,
    pub z_axis: Vector4,
    pub w_axis: Vector4,
}

impl Matrix4 {
    /// The identity: ones on the diagonal, zeros elsewhere.
    pub open spec fn spec_identity() -> Matrix4 {
        let zero = Scalar::spec_zero();
        let one = Scalar::spec_one();
        Matrix4 {
            x_axis: Vector4 { x: one, y: zero, z: zero, w: zero },
            y_axis: Vector4 { x: zero, y: one, z: zero, w: zero },
            z_axis: Vector4 { x: zero, y: zero, z: one, w: zero },
            w_axis: Vector4 { x: zero, y: zero, z: zero, w: one },
        }
    }

    /// The identity with its last column replaced by `(x, y, z, 1)`.
    pub open spec fn spec_translation(x: Scalar, y: Scalar, z: Scalar) -> Matrix4 {
        Matrix4 { w_axis: Vector4 { x, y, z, w: Scalar::spec_one() }, ..Matrix4::spec_identity() }
    }

    /// The sixteen encodings of the matrix, column after column.
    pub open spec fn column_major(&self) -> Seq<u32> {
        seq![
            self.x_axis.x.bits, self.x_axis.y.bits, self.x_axis.z.bits, self.x_axis.w.bits,
            self.y_axis.x.bits, self.y_axis.y.bits, self.y_axis.z.bits, self.y_axis.w.bits,
            self.z_axis.x.bits, self.z_axis.y.bits, self.z_axis.z.bits, self.z_axis.w.bits,
            self.w_axis.x.bits, self.w_axis.y.bits, self.w_axis.z.bits, self.w_axis.w.bits,
        ]
    }

    /// The identity matrix.
    #[verifier::when_used_as_spec(spec_identity)]
    pub fn identity() -> (matrix: Matrix4)
        ensures
            matrix == Matrix4::spec_identity(),
    {
        let zero = Scalar::zero();
        let one = Scalar::one();
        Matrix4 {
            x_axis: Vector4 { x: one, y: zero, z: zero, w: zero },
            y_axis: Vector4 { x: zero, y: one, z: zero, w: zero },
            z_axis: Vector4 { x: zero, y: zero, z: one, w: zero },
            w_axis: Vector4 { x: zero, y: zero, z: zero, w: one },
        }
    }

    /// The matrix that moves a point by `(x, y, z)` and does nothing else.
    ///
    /// The three numbers are written into the last column as they are, so no
    /// rounding takes place and no input is special.
    #[verifier::when_used_as_spec(spec_translation)]
    pub fn translation(x: Scalar, y: Scalar, z: Scalar) -> (matrix: Matrix4)
        ensures
            matrix == Matrix4::spec_translation(x, y, z),
    {
        let mut matrix = Matrix4::identity();
        matrix.w_axis = Vector4 { x, y, z, w: Scalar::one() };
        matrix
    }

    /// Writes the matrix out in column-major order, one encoding per entry.
    pub fn to_column_major(&self) -> (bits: [u32; 16])
        ensures
            bits@ == self.column_major(),
    {
        [
            self.x_axis.x.bits, self.x_axis.y.bits, self.x_axis.z.bits, self.x_axis.w.bits,
            self.y_axis.x.bits, self.y_axis.y.bits, self.y_axis.z.bits, self.y_axis.w.bits,
            self.z_axis.x.bits, self.z_axis.y.bits, self.z_axis.z.bits, self.z_axis.w.bits,
            self.w_axis.x.bits, self.w_axis.y.bits, self.w_axis.z.bits, self.w_axis.w.bits,
        ]
    }

    /// Reads a matrix from sixteen encodings in column-major order.
    pub fn from_column_major(bits: &[u32; 16]) -> (matrix: Matrix4)
        ensures
            matrix.column_major() == bits@,
    {
        Matrix4 {
            x_axis: Vector4 {
                x: Scalar { bits: bits[0] },
                y: Scalar { bits: bits[1] },
                z: Scalar { bits: bits[2] },
                w: Scalar { bits: bits[3] },
            },
            y_axis: Vector4 {
                x: Scalar { bits: bits[4] },
                y: Scalar { bits: bits[5] },
                z: Scalar { bits: bits[6] },
                w: Scalar { bits: bits[7] },
            },
            z_axis: Vector4 {
                x: Scalar { bits: bits[8] },
                y: Scalar { bits: bits[9] },
                z: Scalar { bits: bits[10] },
                w: Scalar { bits: bits[11] },
            },
            w_axis: Vector4 {
                x: Scalar { bits: bits[12] },
                y: Scalar { bits: bits[13] },
                z: Scalar { bits: bits[14] },
                w: Scalar { bits: bits[15] },
            },
        }
    }
}

/// Two matrices with the same column-major layout are the same matrix, so
/// reading a layout gives one matrix and no other.
pub proof fn column_major_determines_the_matrix(a: Matrix4, b: Matrix4)
    requires
        a.column_major() == b.column_major(),
    ensures
        a == b,
{
}

} // verus!
