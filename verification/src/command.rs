//! What an object asks of the graphics context.
//!
//! An object never touches the context. It answers with a list of
//! [`Command`]s, each of which stands for one call on the context, and the
//! caller performs them in order. A command that needs one of the object's
//! own resources (its buffer, its program, the location of a uniform, its
//! vertex data) names the resource and does not carry it.

use vstd::prelude::*;
use crate::matrix::Matrix4;
use crate::scalar::Scalar;
use crate::shader::Uniform;

verus! {

/// Clear mask bit for the depth buffer.
pub const DEPTH_BUFFER_BIT: u32 = 0x0100;

/// Clear mask bit for the color buffer.
pub const COLOR_BUFFER_BIT: u32 = 0x4000;

/// Primitive topology: a strip of triangles.
pub const TRIANGLE_STRIP: u32 = 0x0005;

/// Depth comparison: a fragment passes when it is nearer or as near.
pub const LEQUAL: u32 = 0x0203;

/// Capability: depth testing.
pub const DEPTH_TEST: u32 = 0x0B71;

/// Component type: single-precision number.
pub const FLOAT: u32 = 0x1406;

/// Buffer target: vertex attributes.
pub const ARRAY_BUFFER: u32 = 0x8892;

/// Usage hint: the data is written once and drawn many times.
pub const STATIC_DRAW: u32 = 0x88E4;

/// One call on the graphics context.
#[derive(Clone, Copy, Debug, PartialEq, Eq, Structural)]
pub enum Command {
    /// Set the color that clearing writes.
    ClearColor { red: Scalar, green: Scalar, blue: Scalar, alpha: Scalar },
    /// Set the depth that clearing writes.
    ClearDepth { depth: Scalar },
    /// Switch a capability on.
    Enable { cap: u32 },
    /// Choose the depth comparison.
    DepthFunc { func: u32 },
    /// Clear the buffers named in the mask.
    Clear { mask: u32 },
    /// Create the buffer that the object will own.
    CreateBuffer,
    /// Bind the object's buffer to a target.
    BindBuffer { target: u32 },
    /// Fill the buffer bound to a target with the object's vertex data.
    BufferData { target: u32, usage: u32 },
    /// Describe how an attribute reads the bound buffer.
    VertexAttribPointer {
        index: u32,
        size: i32,
        kind: u32,
        normalized: bool,
        stride: i32,
        offset: i32,
    },
    /// Switch an attribute array on.
    EnableVertexAttribArray { index: u32 },
    /// Make the object's program the current one.
    UseProgram,
    /// Upload a matrix to the object's location of a uniform.
    UniformMatrix4 { uniform: Uniform, transpose: bool, matrix: Matrix4 },
    /// Draw `count` vertices, starting at `first`, as the given topology.
    DrawArrays { mode: u32, first: i32, count: i32 },
}

} // verus!
